//! The per-channel install / update / remove state machine. The engine makes
//! every decision; its caller performs each requested action on the real
//! filesystem and network and reports back how it went. A ghost model of the
//! channel's directories and manifest follows each reported outcome, and the
//! invariant `inv` ties that model, phase by phase, to the state before the
//! operation began.
use vstd::prelude::*;

use crate::channel::Channel;
use crate::error::DvmError;
use crate::manifest::{same_bytes, Manifest, ManifestView, Record, RecordView};

verus! {

/// The command run on a channel.
#[derive(Clone, Copy, Debug, PartialEq, Eq, Structural)]
pub enum Verb {
    Install,
    Update,
    Remove,
}

/// How an operation ended well.
#[derive(Clone, Copy, Debug, PartialEq, Eq, Structural)]
pub enum Outcome {
    /// The latest version is unpacked in place and recorded.
    Installed,
    /// The recorded version already is the latest one; nothing was touched.
    UpToDate,
    /// The install directory and its record are gone.
    Removed,
}

/// Where an operation stands.
#[derive(Clone, Copy, Debug, PartialEq, Eq, Structural)]
pub enum Phase {
    /// Asking the remote source for the latest version.
    Resolving,
    /// Downloading the artifact.
    Fetching,
    /// Unpacking the artifact into a fresh staging directory.
    Staging,
    /// Moving the current install directory aside.
    SetAside,
    /// Moving the staging directory into the install path.
    Committing,
    /// Moving the set-aside install back after a failed commit.
    RollingBack,
    /// Deleting the staging directory before failing with the given error.
    Cleaning(DvmError),
    /// Deleting the set-aside previous install after a commit.
    DroppingPrevious,
    /// Writing the new manifest.
    Recording,
    /// Deleting the install directory of a removed channel.
    Deleting,
    Done(Outcome),
    Failed(DvmError),
}

/// What the engine asks its caller to do next.
#[derive(Clone, Copy, Debug, PartialEq, Eq, Structural)]
pub enum Action {
    /// Ask the remote source for the latest version and its download locator.
    Resolve,
    /// Download the artifact from `locator`.
    Download,
    /// Unpack the downloaded artifact into a fresh staging directory.
    Extract,
    /// Rename the install directory to the previous-install path.
    MoveLiveAside,
    /// Rename the staging directory to the install path.
    MoveStagingIn,
    /// Rename the previous-install path back to the install path.
    MovePreviousBack,
    DeleteStaging,
    DeletePrevious,
    DeleteLive,
    /// Persist `pending_manifest()` by write-then-rename.
    WriteManifest,
    /// Nothing is left to do.
    Finish,
}

/// How a requested action failed.
#[derive(Clone, Copy, Debug, PartialEq, Eq, Structural)]
pub enum Fault {
    /// Connection, timeout, or another I/O failure.
    Io,
    /// The remote source answered with something malformed.
    Malformed,
}

/// The caller's report on the action it was asked to perform.
pub enum Event {
    /// The latest release: its version identifier and download locator.
    Resolved(Vec<u8>, String),
    Succeeded,
    Failed(Fault),
}

/// What a directory holds, as far as the engine can tell.
pub enum Content {
    /// Whatever the install directory held before the operation.
    Prior,
    /// A partly written or partly deleted tree.
    Partial,
    /// The complete unpacked artifact of a version.
    Unpacked(Seq<u8>),
}

/// Model of everything an operation on one channel may change.
pub struct DiskView {
    pub live: Option<Content>,
    pub staging: Option<Content>,
    pub previous: Option<Content>,
    pub manifest: ManifestView,
}

pub open spec fn start_disk(live_exists: bool, m: ManifestView) -> DiskView {
    DiskView {
        live: if live_exists {
            Some(Content::Prior)
        } else {
            None
        },
        staging: None,
        previous: None,
        manifest: m,
    }
}

pub open spec fn start_phase(verb: Verb, m: ManifestView, c: Channel) -> Phase {
    match verb {
        Verb::Remove => if m.contains_key(c) {
            Phase::Deleting
        } else {
            Phase::Failed(DvmError::NotInstalled)
        },
        _ => Phase::Resolving,
    }
}

pub open spec fn action_of(p: Phase) -> Action {
    match p {
        Phase::Resolving => Action::Resolve,
        Phase::Fetching => Action::Download,
        Phase::Staging => Action::Extract,
        Phase::SetAside => Action::MoveLiveAside,
        Phase::Committing => Action::MoveStagingIn,
        Phase::RollingBack => Action::MovePreviousBack,
        Phase::Cleaning(_) => Action::DeleteStaging,
        Phase::DroppingPrevious => Action::DeletePrevious,
        Phase::Recording => Action::WriteManifest,
        Phase::Deleting => Action::DeleteLive,
        Phase::Done(_) => Action::Finish,
        Phase::Failed(_) => Action::Finish,
    }
}

pub open spec fn succeeded(ev: &Event) -> bool {
    !(ev is Failed)
}

/// What an action does to the model, given whether it succeeded. A rename
/// and a manifest write-then-rename either happen whole or not at all.
pub open spec fn effect(
    d: DiskView,
    a: Action,
    ok: bool,
    version: Seq<u8>,
    pending: ManifestView,
) -> DiskView {
    match a {
        Action::Extract => DiskView {
            staging: if ok {
                Some(Content::Unpacked(version))
            } else {
                Some(Content::Partial)
            },
            ..d
        },
        Action::MoveLiveAside => if ok {
            DiskView { live: None, previous: d.live, ..d }
        } else {
            d
        },
        Action::MoveStagingIn => if ok {
            DiskView { live: d.staging, staging: None, ..d }
        } else {
            d
        },
        Action::MovePreviousBack => if ok {
            DiskView { live: d.previous, previous: None, ..d }
        } else {
            d
        },
        Action::DeleteStaging => if ok {
            DiskView { staging: None, ..d }
        } else {
            d
        },
        Action::DeletePrevious => if ok {
            DiskView { previous: None, ..d }
        } else {
            d
        },
        Action::DeleteLive => DiskView {
            live: if ok || d.live is None {
                None
            } else {
                Some(Content::Partial)
            },
            ..d
        },
        Action::WriteManifest => if ok {
            DiskView { manifest: pending, ..d }
        } else {
            d
        },
        _ => d,
    }
}

/// One channel operation in progress.
pub struct Operation {
    pub verb: Verb,
    pub channel: Channel,
    /// The manifest as it was when the operation began.
    pub manifest: Manifest,
    /// Whether the install directory existed when the operation began.
    pub live_exists: bool,
    /// Time recorded for a completed install.
    pub now: u64,
    /// The resolved remote version (empty until resolved).
    pub version: Vec<u8>,
    /// Where to download the resolved artifact from.
    pub locator: String,
    pub phase: Phase,
    /// Every rollback and cleanup action so far succeeded.
    pub tidy: bool,
    pub disk: Ghost<DiskView>,
    pub disk0: Ghost<DiskView>,
}

impl Operation {
    /// The manifest that a successful operation records.
    pub open spec fn pending_view(&self) -> ManifestView {
        match self.verb {
            Verb::Remove => self.manifest.view().remove(self.channel),
            _ => self.manifest.view().insert(
                self.channel,
                RecordView { version: self.version@, installed_at: self.now },
            ),
        }
    }

    pub open spec fn recorded_is(&self, v: Seq<u8>) -> bool {
        self.manifest.view().contains_key(self.channel) && self.manifest.view()[self.channel].version
            == v
    }

    /// The phase after the caller reports `ev` on the current action.
    pub open spec fn next_phase(&self, ev: &Event) -> Phase {
        let ok = succeeded(ev);
        match self.phase {
            Phase::Resolving => match ev {
                Event::Resolved(v, _) => if self.verb == Verb::Update && self.recorded_is(v@) {
                    Phase::Done(Outcome::UpToDate)
                } else {
                    Phase::Fetching
                },
                Event::Failed(Fault::Io) => Phase::Failed(DvmError::NetworkError),
                _ => Phase::Failed(DvmError::ParseError),
            },
            Phase::Fetching => if ok {
                Phase::Staging
            } else {
                Phase::Failed(DvmError::NetworkError)
            },
            Phase::Staging => if !ok {
                Phase::Cleaning(DvmError::ExtractError)
            } else if self.live_exists {
                Phase::SetAside
            } else {
                Phase::Committing
            },
            Phase::SetAside => if ok {
                Phase::Committing
            } else {
                Phase::Cleaning(DvmError::SwapError)
            },
            Phase::Committing => if ok {
                if self.live_exists {
                    Phase::DroppingPrevious
                } else {
                    Phase::Recording
                }
            } else if self.live_exists {
                Phase::RollingBack
            } else {
                Phase::Cleaning(DvmError::SwapError)
            },
            Phase::RollingBack => Phase::Cleaning(DvmError::SwapError),
            Phase::Cleaning(e) => Phase::Failed(e),
            Phase::DroppingPrevious => Phase::Recording,
            Phase::Recording => if !ok {
                Phase::Failed(DvmError::PartialRecordWrite)
            } else if self.verb == Verb::Remove {
                Phase::Done(Outcome::Removed)
            } else {
                Phase::Done(Outcome::Installed)
            },
            Phase::Deleting => if ok {
                Phase::Recording
            } else {
                Phase::Failed(DvmError::RemoveError)
            },
            Phase::Done(o) => Phase::Done(o),
            Phase::Failed(e) => Phase::Failed(e),
        }
    }

    /// Whether all rollbacks and cleanups still stand succeeded after `ev`.
    pub open spec fn next_tidy(&self, ev: &Event) -> bool {
        self.tidy && (succeeded(ev) || !(self.phase is RollingBack || self.phase is Cleaning
            || self.phase is DroppingPrevious))
    }

    pub open spec fn next_version(&self, ev: &Event) -> Seq<u8> {
        match ev {
            Event::Resolved(v, _) => if self.phase is Resolving {
                v@
            } else {
                self.version@
            },
            _ => self.version@,
        }
    }

    /// The model after the caller reports `ev` on the current action.
    pub open spec fn next_disk(&self, ev: &Event) -> DiskView {
        effect(
            self.disk@,
            action_of(self.phase),
            succeeded(ev),
            self.version@,
            self.pending_view(),
        )
    }

    /// The invariant of an operation: for each phase, the state of the
    /// channel's directories and manifest relative to where it began.
    pub open spec fn inv(&self) -> bool {
        let d = self.disk@;
        let d0 = self.disk0@;
        let m0 = self.manifest.view();
        let fresh = Some(Content::Unpacked(self.version@));
        let installing = self.verb != Verb::Remove;
        &&& d0 == start_disk(self.live_exists, m0)
        &&& match self.phase {
            Phase::Resolving | Phase::Fetching | Phase::Staging => installing && d == d0
                && self.tidy,
            Phase::SetAside => installing && self.live_exists && d == DiskView {
                staging: fresh,
                ..d0
            } && self.tidy,
            Phase::Committing => installing && d == DiskView {
                live: None,
                staging: fresh,
                previous: d0.live,
                manifest: m0,
            } && self.tidy,
            Phase::RollingBack => installing && self.live_exists && d == DiskView {
                live: None,
                staging: fresh,
                previous: d0.live,
                manifest: m0,
            } && self.tidy,
            Phase::Cleaning(e) => installing && (e == DvmError::ExtractError || e
                == DvmError::SwapError) && d.staging is Some && d.manifest == m0 && (self.tidy
                ==> d.live == d0.live && d.previous is None),
            Phase::DroppingPrevious => installing && self.live_exists && d == DiskView {
                live: fresh,
                staging: None,
                previous: Some(Content::Prior),
                manifest: m0,
            } && self.tidy,
            Phase::Recording => if installing {
                d.live == fresh && d.staging is None && d.manifest == m0 && (self.tidy
                    ==> d.previous is None)
            } else {
                d == DiskView { live: None, staging: None, previous: None, manifest: m0 }
                    && self.tidy
            },
            Phase::Deleting => !installing && d == d0 && m0.contains_key(self.channel)
                && self.tidy,
            Phase::Done(o) => match o {
                Outcome::Installed => installing && d.live == fresh && d.staging is None
                    && d.manifest == self.pending_view() && (self.tidy ==> d.previous is None),
                Outcome::UpToDate => self.verb == Verb::Update && d == d0 && self.recorded_is(
                    self.version@,
                ) && self.tidy,
                Outcome::Removed => !installing && d.live is None && d.staging is None
                    && d.previous is None && d.manifest == self.pending_view(),
            },
            Phase::Failed(e) => d.manifest == m0 && match e {
                DvmError::PartialRecordWrite => d.staging is None && if installing {
                    d.live == fresh
                } else {
                    d.live is None
                },
                DvmError::NotInstalled => !installing && d == d0 && !m0.contains_key(
                    self.channel,
                ),
                DvmError::RemoveError => !installing && d.staging is None && d.previous is None,
                _ => self.tidy ==> d == d0,
            },
        }
    }

    /// Begins an operation on a channel, given the manifest as loaded,
    /// whether the channel's install directory exists, and the current time.
    /// Removing a channel that has no record fails at once with
    /// `NotInstalled`, before any action.
    pub fn start(verb: Verb, channel: Channel, manifest: Manifest, live_exists: bool, now: u64) -> (r:
        Operation)
        ensures
            r.inv(),
            r.verb == verb,
            r.channel == channel,
            r.manifest.view() == manifest.view(),
            r.live_exists == live_exists,
            r.now == now,
            r.phase == start_phase(verb, manifest.view(), channel),
            r.tidy,
            r.disk@ == r.disk0@,
            r.disk0@ == start_disk(live_exists, manifest.view()),
    {
        let phase = match verb {
            Verb::Remove => if manifest.get(channel).is_some() {
                Phase::Deleting
            } else {
                Phase::Failed(DvmError::NotInstalled)
            },
            _ => Phase::Resolving,
        };
        let ghost d0 = start_disk(live_exists, manifest.view());
        Operation {
            verb,
            channel,
            manifest,
            live_exists,
            now,
            version: Vec::new(),
            locator: String::new(),
            phase,
            tidy: true,
            disk: Ghost(d0),
            disk0: Ghost(d0),
        }
    }

    /// The action the caller is to perform next.
    pub fn action(&self) -> (r: Action)
        ensures
            r == action_of(self.phase),
    {
        match self.phase {
            Phase::Resolving => Action::Resolve,
            Phase::Fetching => Action::Download,
            Phase::Staging => Action::Extract,
            Phase::SetAside => Action::MoveLiveAside,
            Phase::Committing => Action::MoveStagingIn,
            Phase::RollingBack => Action::MovePreviousBack,
            Phase::Cleaning(_) => Action::DeleteStaging,
            Phase::DroppingPrevious => Action::DeletePrevious,
            Phase::Recording => Action::WriteManifest,
            Phase::Deleting => Action::DeleteLive,
            Phase::Done(_) => Action::Finish,
            Phase::Failed(_) => Action::Finish,
        }
    }

    /// The manifest to persist when the action is `WriteManifest`.
    pub fn pending_manifest(&self) -> (r: Manifest)
        ensures
            r.view() == self.pending_view(),
    {
        let mut m = self.manifest.duplicate();
        match self.verb {
            Verb::Remove => m.delete(self.channel),
            _ => {
                let rec = Record { version: crate::manifest::copy_bytes(&self.version), installed_at: self.now };
                m.put(self.channel, rec);
            },
        }
        m
    }

    /// Whether the recorded version of the channel equals `v`.
    fn recorded_equals(&self, v: &Vec<u8>) -> (r: bool)
        ensures
            r == self.recorded_is(v@),
    {
        match self.manifest.get(self.channel) {
            Some(rec) => same_bytes(&rec.version, v),
            None => false,
        }
    }

    /// Takes the caller's report on the current action and moves on.
    pub fn step(&mut self, ev: Event)
        requires
            old(self).inv(),
        ensures
            final(self).inv(),
            final(self).verb == old(self).verb,
            final(self).channel == old(self).channel,
            final(self).manifest.view() == old(self).manifest.view(),
            final(self).live_exists == old(self).live_exists,
            final(self).now == old(self).now,
            final(self).disk0 == old(self).disk0,
            final(self).phase == old(self).next_phase(&ev),
            final(self).tidy == old(self).next_tidy(&ev),
            final(self).version@ == old(self).next_version(&ev),
            final(self).disk@ == old(self).next_disk(&ev),
    {
        let ghost nd = self.next_disk(&ev);
        let ok = match &ev {
            Event::Failed(_) => false,
            _ => true,
        };
        let phase = self.phase;
        match phase {
            Phase::Resolving => match ev {
                Event::Resolved(v, loc) => {
                    let current = self.recorded_equals(&v);
                    self.phase = if self.verb == Verb::Update && current {
                        Phase::Done(Outcome::UpToDate)
                    } else {
                        Phase::Fetching
                    };
                    self.version = v;
                    self.locator = loc;
                },
                Event::Failed(Fault::Io) => self.phase = Phase::Failed(DvmError::NetworkError),
                _ => self.phase = Phase::Failed(DvmError::ParseError),
            },
            Phase::Fetching => {
                self.phase = if ok {
                    Phase::Staging
                } else {
                    Phase::Failed(DvmError::NetworkError)
                };
            },
            Phase::Staging => {
                self.phase = if !ok {
                    Phase::Cleaning(DvmError::ExtractError)
                } else if self.live_exists {
                    Phase::SetAside
                } else {
                    Phase::Committing
                };
            },
            Phase::SetAside => {
                self.phase = if ok {
                    Phase::Committing
                } else {
                    Phase::Cleaning(DvmError::SwapError)
                };
            },
            Phase::Committing => {
                self.phase = if ok {
                    if self.live_exists {
                        Phase::DroppingPrevious
                    } else {
                        Phase::Recording
                    }
                } else if self.live_exists {
                    Phase::RollingBack
                } else {
                    Phase::Cleaning(DvmError::SwapError)
                };
            },
            Phase::RollingBack => {
                self.tidy = self.tidy && ok;
                self.phase = Phase::Cleaning(DvmError::SwapError);
            },
            Phase::Cleaning(e) => {
                self.tidy = self.tidy && ok;
                self.phase = Phase::Failed(e);
            },
            Phase::DroppingPrevious => {
                self.tidy = self.tidy && ok;
                self.phase = Phase::Recording;
            },
            Phase::Recording => {
                self.phase = if !ok {
                    Phase::Failed(DvmError::PartialRecordWrite)
                } else if self.verb == Verb::Remove {
                    Phase::Done(Outcome::Removed)
                } else {
                    Phase::Done(Outcome::Installed)
                };
            },
            Phase::Deleting => {
                self.phase = if ok {
                    Phase::Recording
                } else {
                    Phase::Failed(DvmError::RemoveError)
                };
            },
            Phase::Done(_) => {},
            Phase::Failed(_) => {},
        }
        self.disk = Ghost(nd);
    }
}

} // verus!
