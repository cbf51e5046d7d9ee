//! What holds of every operation, stated over the engine's model.
use vstd::prelude::*;

use crate::channel::Channel;
use crate::engine::{
    action_of, start_disk, start_phase, Action, Content, Event, Operation, Outcome, Phase, Verb,
};
use crate::error::DvmError;
use crate::manifest::{status_spec, ManifestView};

verus! {

/// Installing a channel that was not installed, once it succeeds, leaves the
/// channel listed at the resolved remote version, with that version's
/// artifact in its install directory.
pub proof fn lemma_install_then_show(op: Operation)
    requires
        op.inv(),
        op.verb == Verb::Install,
        !op.manifest.view().contains_key(op.channel),
        op.phase == Phase::Done(Outcome::Installed),
    ensures
        status_spec(op.disk@.manifest, op.channel) == Some(op.version@),
        op.disk@.live == Some(Content::Unpacked(op.version@)),
{
}

/// An update whose resolved remote version equals the recorded one ends at
/// once as up to date: the resolve step changes no directory and leaves the
/// manifest as it was, and no further action is asked for.
pub proof fn lemma_update_same_version_is_noop(op: Operation, ev: Event)
    requires
        op.inv(),
        op.verb == Verb::Update,
        op.phase == Phase::Resolving,
        ev is Resolved,
        op.recorded_is(ev->Resolved_0@),
    ensures
        op.next_phase(&ev) == Phase::Done(Outcome::UpToDate),
        op.next_disk(&ev) == op.disk0@,
        action_of(op.next_phase(&ev)) == Action::Finish,
{
}

/// An update that ends up to date has changed nothing at all.
pub proof fn lemma_up_to_date_changes_nothing(op: Operation)
    requires
        op.inv(),
        op.phase == Phase::Done(Outcome::UpToDate),
    ensures
        op.disk@ == op.disk0@,
{
}

/// A successful update to a different version leaves exactly the new
/// artifact in the install directory, nothing of the old one aside, no
/// staging directory, and the new version recorded.
pub proof fn lemma_update_replaces_whole(op: Operation)
    requires
        op.inv(),
        op.verb == Verb::Update,
        op.phase == Phase::Done(Outcome::Installed),
        op.tidy,
    ensures
        op.disk@.live == Some(Content::Unpacked(op.version@)),
        op.disk@.previous is None,
        op.disk@.staging is None,
        status_spec(op.disk@.manifest, op.channel) == Some(op.version@),
{
}

/// A failure while unpacking, once the staging directory is deleted,
/// leaves the install directory and the manifest as they were before the
/// operation and no staging directory behind.
pub proof fn lemma_extract_failure_restores(op: Operation)
    requires
        op.inv(),
        op.phase == Phase::Failed(DvmError::ExtractError),
        op.tidy,
    ensures
        op.disk@ == op.disk0@,
        op.disk@.staging is None,
        op.disk@.manifest == op.manifest.view(),
{
}

/// A failure while swapping directories, once the set-aside install is
/// moved back and the staging directory deleted, leaves the old install at
/// its path and the manifest unchanged.
pub proof fn lemma_swap_failure_restores(op: Operation)
    requires
        op.inv(),
        op.phase == Phase::Failed(DvmError::SwapError),
        op.tidy,
    ensures
        op.disk@ == op.disk0@,
        op.disk@.previous is None,
        op.disk@.manifest == op.manifest.view(),
{
}

/// Removing a channel that has no record fails with `NotInstalled` before
/// asking for any action, so neither a directory nor the manifest changes.
pub proof fn lemma_remove_not_installed(m: ManifestView, c: Channel, live_exists: bool)
    requires
        !m.contains_key(c),
    ensures
        start_phase(Verb::Remove, m, c) == Phase::Failed(DvmError::NotInstalled),
        action_of(start_phase(Verb::Remove, m, c)) == Action::Finish,
{
}

/// An operation that has failed with `NotInstalled` has changed nothing.
pub proof fn lemma_not_installed_changes_nothing(op: Operation)
    requires
        op.inv(),
        op.phase == Phase::Failed(DvmError::NotInstalled),
    ensures
        op.disk@ == op.disk0@,
        op.disk0@ == start_disk(op.live_exists, op.manifest.view()),
{
}

/// Whatever way an operation fails, other than after its files were
/// swapped in, the manifest is the one it started with.
pub proof fn lemma_failure_keeps_manifest(op: Operation)
    requires
        op.inv(),
        op.phase is Failed,
    ensures
        op.disk@.manifest == op.manifest.view(),
{
}

/// An operation fails only on a failed action: a reported success, and a
/// resolved release when the remote source was asked, never lead to a
/// failure, except that a cleanup after an earlier failure still ends in
/// that failure.
pub proof fn lemma_success_never_fails(op: Operation, ev: Event)
    requires
        op.inv(),
        !(op.phase is Done || op.phase is Failed || op.phase is Cleaning),
        if op.phase is Resolving {
            ev is Resolved
        } else {
            !(ev is Failed)
        },
    ensures
        !(op.next_phase(&ev) is Failed),
        op.next_tidy(&ev) == op.tidy,
{
}

} // verus!
