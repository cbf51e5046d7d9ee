use vstd::prelude::*;

use crate::channel::{channel_at, index_of, Channel};

verus! {

/// What the manifest holds for one installed channel.
pub struct Record {
    /// Opaque, vendor-defined version identifier.
    pub version: Vec<u8>,
    /// When the install completed, in seconds since the Unix epoch.
    pub installed_at: u64,
}

/// Mathematical value of a `Record`.
pub struct RecordView {
    pub version: Seq<u8>,
    pub installed_at: u64,
}

impl View for Record {
    type V = RecordView;

    open spec fn view(&self) -> RecordView {
        RecordView { version: self.version@, installed_at: self.installed_at }
    }
}

/// The mathematical manifest: the installed record of each channel.
pub type ManifestView = Map<Channel, RecordView>;

pub open spec fn opt_view(o: Option<Record>) -> Option<RecordView> {
    match o {
        Some(r) => Some(r@),
        None => None,
    }
}

/// The entry of a channel in a manifest, `None` when it is not installed.
pub open spec fn entry_of(m: ManifestView, c: Channel) -> Option<RecordView> {
    if m.contains_key(c) {
        Some(m[c])
    } else {
        None
    }
}

/// `m` with the entry of `c` set to `o`.
pub open spec fn with_entry(m: ManifestView, c: Channel, o: Option<RecordView>) -> ManifestView {
    match o {
        Some(r) => m.insert(c, r),
        None => m.remove(c),
    }
}

/// The persisted record of which version of each channel is installed.
pub struct Manifest {
    pub stable: Option<Record>,
    pub canary: Option<Record>,
    pub ptb: Option<Record>,
    pub development: Option<Record>,
}

impl Manifest {
    pub open spec fn slot(&self, c: Channel) -> Option<Record> {
        match c {
            Channel::Stable => self.stable,
            Channel::Canary => self.canary,
            Channel::Ptb => self.ptb,
            Channel::Development => self.development,
        }
    }

    pub open spec fn view(&self) -> ManifestView {
        Map::new(|c: Channel| self.slot(c) is Some, |c: Channel| self.slot(c)->Some_0@)
    }

    pub proof fn lemma_entry(&self, c: Channel)
        ensures
            entry_of(self.view(), c) == opt_view(self.slot(c)),
    {
    }

    /// The manifest of a fresh environment: nothing installed.
    pub fn empty() -> (r: Manifest)
        ensures
            r.view() == Map::<Channel, RecordView>::empty(),
    {
        let r = Manifest { stable: None, canary: None, ptb: None, development: None };
        assert(r.view() =~= Map::<Channel, RecordView>::empty());
        r
    }

    /// The record of a channel; `None` means the channel is not installed.
    pub fn get(&self, c: Channel) -> (r: Option<&Record>)
        ensures
            r is Some <==> self.view().contains_key(c),
            r is Some ==> r->Some_0@ == self.view()[c],
    {
        match c {
            Channel::Stable => self.stable.as_ref(),
            Channel::Canary => self.canary.as_ref(),
            Channel::Ptb => self.ptb.as_ref(),
            Channel::Development => self.development.as_ref(),
        }
    }

    /// Inserts or overwrites the record of a channel.
    pub fn put(&mut self, c: Channel, rec: Record)
        ensures
            final(self).view() == old(self).view().insert(c, rec@),
    {
        match c {
            Channel::Stable => self.stable = Some(rec),
            Channel::Canary => self.canary = Some(rec),
            Channel::Ptb => self.ptb = Some(rec),
            Channel::Development => self.development = Some(rec),
        }
        assert(final(self).view() =~= old(self).view().insert(c, rec@));
    }

    /// Removes the record of a channel; nothing happens when there is none.
    pub fn delete(&mut self, c: Channel)
        ensures
            final(self).view() == old(self).view().remove(c),
    {
        match c {
            Channel::Stable => self.stable = None,
            Channel::Canary => self.canary = None,
            Channel::Ptb => self.ptb = None,
            Channel::Development => self.development = None,
        }
        assert(final(self).view() =~= old(self).view().remove(c));
    }

    /// A copy of the manifest.
    pub fn duplicate(&self) -> (r: Manifest)
        ensures
            r.view() == self.view(),
    {
        let r = Manifest {
            stable: copy_record(&self.stable),
            canary: copy_record(&self.canary),
            ptb: copy_record(&self.ptb),
            development: copy_record(&self.development),
        };
        assert(r.view() =~= self.view());
        r
    }
}

/// A copy of a byte string.
pub fn copy_bytes(b: &Vec<u8>) -> (r: Vec<u8>)
    ensures
        r@ == b@,
{
    let mut r: Vec<u8> = Vec::new();
    let mut i: usize = 0;
    while i < b.len()
        invariant
            i <= b.len(),
            r@ == b@.subrange(0, i as int),
        decreases b.len() - i,
    {
        r.push(b[i]);
        i = i + 1;
    }
    assert(r@ =~= b@);
    r
}

/// Whether two byte strings are equal.
pub fn same_bytes(a: &Vec<u8>, b: &Vec<u8>) -> (r: bool)
    ensures
        r == (a@ == b@),
{
    if a.len() != b.len() {
        return false;
    }
    let mut i: usize = 0;
    while i < a.len()
        invariant
            a.len() == b.len(),
            i <= a.len(),
            a@.subrange(0, i as int) == b@.subrange(0, i as int),
        decreases a.len() - i,
    {
        if a[i] != b[i] {
            assert(a@[i as int] != b@[i as int]);
            return false;
        }
        assert(a@.subrange(0, i + 1) =~= a@.subrange(0, i as int).push(a@[i as int]));
        assert(b@.subrange(0, i + 1) =~= b@.subrange(0, i as int).push(b@[i as int]));
        i = i + 1;
    }
    assert(a@ =~= a@.subrange(0, a.len() as int));
    assert(b@ =~= b@.subrange(0, b.len() as int));
    true
}

fn copy_record(o: &Option<Record>) -> (r: Option<Record>)
    ensures
        opt_view(r) == opt_view(*o),
{
    match o {
        Some(rec) => Some(Record { version: copy_bytes(&rec.version), installed_at: rec.installed_at }),
        None => None,
    }
}

/// What `show` reports for one channel: the installed version, or `None`
/// for "not installed".
pub open spec fn status_spec(m: ManifestView, c: Channel) -> Option<Seq<u8>> {
    if m.contains_key(c) {
        Some(m[c].version)
    } else {
        None
    }
}

/// One line of the listing: a channel and its installed version, if any.
pub struct ChannelStatus {
    pub channel: Channel,
    pub version: Option<Vec<u8>>,
}

pub open spec fn opt_bytes(o: Option<Vec<u8>>) -> Option<Seq<u8>> {
    match o {
        Some(v) => Some(v@),
        None => None,
    }
}

fn status_of(m: &Manifest, c: Channel) -> (r: ChannelStatus)
    ensures
        r.channel == c,
        opt_bytes(r.version) == status_spec(m.view(), c),
{
    match m.get(c) {
        Some(rec) => ChannelStatus { channel: c, version: Some(copy_bytes(&rec.version)) },
        None => ChannelStatus { channel: c, version: None },
    }
}

/// Every channel of the catalog, in catalog order, with its installed
/// version or none.
pub fn show(m: &Manifest) -> (r: Vec<ChannelStatus>)
    ensures
        r.len() == 4,
        forall|i: int|
            0 <= i < 4 ==> #[trigger] r[i].channel == channel_at(i) && index_of(r[i].channel) == i
                && opt_bytes(r[i].version) == status_spec(m.view(), channel_at(i)),
{
    let mut r: Vec<ChannelStatus> = Vec::new();
    r.push(status_of(m, Channel::Stable));
    r.push(status_of(m, Channel::Canary));
    r.push(status_of(m, Channel::Ptb));
    r.push(status_of(m, Channel::Development));
    r
}

} // verus!
