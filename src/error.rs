use vstd::prelude::*;

verus! {

/// Why an operation on a channel failed.
#[derive(Clone, Copy, Debug, PartialEq, Eq, Structural)]
pub enum DvmError {
    /// The remote source could not be reached, or a stream broke off.
    NetworkError,
    /// The remote source answered with something that is no release.
    ParseError,
    /// The persisted manifest exists but cannot be read.
    CorruptManifest,
    /// Unpacking the artifact into the staging area failed.
    ExtractError,
    /// Moving the staged install into place failed.
    SwapError,
    /// The files are in place but the manifest could not be written; running
    /// the same command again is safe.
    PartialRecordWrite,
    /// Removal of a channel that is not installed.
    NotInstalled,
    /// Deleting the install directory failed; the record is kept.
    RemoveError,
    /// A channel name that no channel has.
    UnknownChannel,
}

} // verus!
