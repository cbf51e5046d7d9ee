//! The on-disk form of the manifest. For each channel, in catalog order, one
//! tag byte: 0 when the channel is not installed; 1 when it is, followed by
//! the length of the version as 8 big-endian bytes, the version bytes, and the
//! install time as 8 big-endian bytes. An empty file is the empty manifest.
use vstd::prelude::*;

use crate::channel::Channel;
use crate::error::DvmError;
use crate::manifest::{
    entry_of, opt_view, with_entry, Manifest, ManifestView, Record, RecordView,
};

verus! {

/// The eight big-endian bytes of `x`.
pub open spec fn be8(x: u64) -> Seq<u8> {
    seq![
        ((x >> 56u64) & 0xffu64) as u8,
        ((x >> 48u64) & 0xffu64) as u8,
        ((x >> 40u64) & 0xffu64) as u8,
        ((x >> 32u64) & 0xffu64) as u8,
        ((x >> 24u64) & 0xffu64) as u8,
        ((x >> 16u64) & 0xffu64) as u8,
        ((x >> 8u64) & 0xffu64) as u8,
        (x & 0xffu64) as u8,
    ]
}

/// The integer that the eight big-endian bytes of `b` at `p` spell.
pub open spec fn read_be(b: Seq<u8>, p: int) -> u64 {
    ((b[p] as u64) << 56u64) | ((b[p + 1] as u64) << 48u64) | ((b[p + 2] as u64) << 40u64) | ((
    b[p + 3] as u64) << 32u64) | ((b[p + 4] as u64) << 24u64) | ((b[p + 5] as u64) << 16u64) | ((
    b[p + 6] as u64) << 8u64) | (b[p + 7] as u64)
}

/// The bytes that stand for one channel's entry.
pub open spec fn encode_entry(o: Option<RecordView>) -> Seq<u8> {
    match o {
        None => seq![0u8],
        Some(r) => seq![1u8] + be8(r.version.len() as u64) + r.version + be8(r.installed_at),
    }
}

/// The bytes that stand for a manifest.
pub open spec fn encode_spec(m: ManifestView) -> Seq<u8> {
    encode_entry(entry_of(m, Channel::Stable)) + encode_entry(entry_of(m, Channel::Canary))
        + encode_entry(entry_of(m, Channel::Ptb)) + encode_entry(entry_of(m, Channel::Development))
}

/// Reads one entry at `p`: the entry and the position after it, or `None`
/// when the bytes there are no entry.
#[verifier::opaque]
pub open spec fn parse_entry(b: Seq<u8>, p: int) -> Option<(Option<RecordView>, int)> {
    if p < 0 || p >= b.len() {
        None
    } else if b[p] == 0 {
        Some((None, p + 1))
    } else if b[p] == 1 && p + 9 <= b.len() {
        let n = read_be(b, p + 1) as int;
        if p + 9 + n + 8 <= b.len() {
            Some(
                (
                    Some(
                        RecordView {
                            version: b.subrange(p + 9, p + 9 + n),
                            installed_at: read_be(b, p + 9 + n),
                        },
                    ),
                    p + 17 + n,
                ),
            )
        } else {
            None
        }
    } else {
        None
    }
}

/// The manifest that four entries make.
pub open spec fn from_entries(
    e0: Option<RecordView>,
    e1: Option<RecordView>,
    e2: Option<RecordView>,
    e3: Option<RecordView>,
) -> ManifestView {
    with_entry(
        with_entry(
            with_entry(with_entry(Map::empty(), Channel::Stable, e0), Channel::Canary, e1),
            Channel::Ptb,
            e2,
        ),
        Channel::Development,
        e3,
    )
}

/// The manifest that the bytes `b` stand for; `None` when they are corrupt.
pub open spec fn decode_spec(b: Seq<u8>) -> Option<ManifestView> {
    if b.len() == 0 {
        Some(Map::empty())
    } else {
        match parse_entry(b, 0) {
            None => None,
            Some((e0, after0)) => match parse_entry(b, after0) {
                None => None,
                Some((e1, after1)) => match parse_entry(b, after1) {
                    None => None,
                    Some((e2, after2)) => match parse_entry(b, after2) {
                        None => None,
                        Some((e3, after3)) => if after3 == b.len() {
                            Some(from_entries(e0, e1, e2, e3))
                        } else {
                            None
                        },
                    },
                },
            },
        }
    }
}

/// A manifest can be written when each version's length fits the length field.
pub open spec fn writable(m: ManifestView) -> bool {
    forall|c: Channel| #[trigger] m.contains_key(c) ==> m[c].version.len() <= u64::MAX
}

proof fn lemma_be8(b: Seq<u8>, p: int, x: u64)
    requires
        0 <= p,
        p + 8 <= b.len(),
        b.subrange(p, p + 8) == be8(x),
    ensures
        read_be(b, p) == x,
{
    let s = b.subrange(p, p + 8);
    assert(b[p] == s[0] && b[p + 1] == s[1] && b[p + 2] == s[2] && b[p + 3] == s[3]);
    assert(b[p + 4] == s[4] && b[p + 5] == s[5] && b[p + 6] == s[6] && b[p + 7] == s[7]);
    assert(((((x >> 56u64) & 0xffu64) as u8 as u64) << 56u64) | ((((x >> 48u64) & 0xffu64) as u8
        as u64) << 48u64) | ((((x >> 40u64) & 0xffu64) as u8 as u64) << 40u64) | ((((x >> 32u64)
        & 0xffu64) as u8 as u64) << 32u64) | ((((x >> 24u64) & 0xffu64) as u8 as u64) << 24u64) | ((
    ((x >> 16u64) & 0xffu64) as u8 as u64) << 16u64) | ((((x >> 8u64) & 0xffu64) as u8 as u64)
        << 8u64) | ((x & 0xffu64) as u8 as u64) == x) by (bit_vector);
}

proof fn lemma_parse_encoded(pre: Seq<u8>, o: Option<RecordView>, post: Seq<u8>)
    requires
        o is Some ==> o->Some_0.version.len() <= u64::MAX,
    ensures
        parse_entry(pre + encode_entry(o) + post, pre.len() as int) == Some(
            (o, (pre.len() + encode_entry(o).len()) as int),
        ),
{
    reveal(parse_entry);
    let b = pre + encode_entry(o) + post;
    let p = pre.len() as int;
    match o {
        None => {
            assert(b[p] == 0);
        },
        Some(r) => {
            let n = r.version.len();
            assert(b[p] == 1);
            assert(b.subrange(p + 1, p + 9) =~= be8(n as u64));
            lemma_be8(b, p + 1, n as u64);
            assert(b.subrange(p + 9, p + 9 + n) =~= r.version);
            assert(b.subrange(p + 9 + n, p + 17 + n) =~= be8(r.installed_at));
            lemma_be8(b, p + 9 + n, r.installed_at);
        },
    }
}

proof fn lemma_from_entries(m: ManifestView)
    ensures
        from_entries(
            entry_of(m, Channel::Stable),
            entry_of(m, Channel::Canary),
            entry_of(m, Channel::Ptb),
            entry_of(m, Channel::Development),
        ) == m,
{
    let r = from_entries(
        entry_of(m, Channel::Stable),
        entry_of(m, Channel::Canary),
        entry_of(m, Channel::Ptb),
        entry_of(m, Channel::Development),
    );
    assert forall|c: Channel| #[trigger] r.contains_key(c) == m.contains_key(c) by {}
    assert forall|c: Channel| r.contains_key(c) implies #[trigger] r[c] == m[c] by {}
    assert(r =~= m);
}

/// Writing a manifest and loading the bytes gives the same manifest back.
#[verifier::rlimit(30)]
pub proof fn lemma_decode_encode(m: ManifestView)
    requires
        writable(m),
    ensures
        decode_spec(encode_spec(m)) == Some(m),
{
    let e0 = entry_of(m, Channel::Stable);
    let e1 = entry_of(m, Channel::Canary);
    let e2 = entry_of(m, Channel::Ptb);
    let e3 = entry_of(m, Channel::Development);
    let s0 = encode_entry(e0);
    let s1 = encode_entry(e1);
    let s2 = encode_entry(e2);
    let s3 = encode_entry(e3);
    let b = encode_spec(m);
    let after0 = s0.len() as int;
    let after1 = after0 + s1.len();
    let after2 = after1 + s2.len();
    let after3 = after2 + s3.len();
    assert(b.len() == after3);
    assert(b =~= seq![] + s0 + (s1 + s2 + s3));
    lemma_parse_encoded(seq![], e0, s1 + s2 + s3);
    assert(parse_entry(b, 0) == Some((e0, after0)));
    assert(b =~= s0 + s1 + (s2 + s3));
    lemma_parse_encoded(s0, e1, s2 + s3);
    assert(parse_entry(b, after0) == Some((e1, after1)));
    assert(b =~= (s0 + s1) + s2 + s3);
    lemma_parse_encoded(s0 + s1, e2, s3);
    assert(parse_entry(b, after1) == Some((e2, after2)));
    assert(b =~= (s0 + s1 + s2) + s3 + seq![]);
    lemma_parse_encoded(s0 + s1 + s2, e3, seq![]);
    assert(parse_entry(b, after2) == Some((e3, after3)));
    lemma_from_entries(m);
}

/// What a successful load gives can be written, and writing it then loading
/// again gives the same manifest: `load(write(load(b))) == load(b)`.
pub proof fn lemma_load_write_load(b: Seq<u8>)
    requires
        decode_spec(b) is Some,
    ensures
        writable(decode_spec(b)->Some_0),
        decode_spec(encode_spec(decode_spec(b)->Some_0)) == decode_spec(b),
{
    let m = decode_spec(b)->Some_0;
    assert forall|c: Channel| #[trigger] m.contains_key(c) implies m[c].version.len()
        <= u64::MAX by {
        reveal(parse_entry);
        if b.len() != 0 {
            let (e0, after0) = parse_entry(b, 0)->Some_0;
            let (e1, after1) = parse_entry(b, after0)->Some_0;
            let (e2, after2) = parse_entry(b, after1)->Some_0;
            let (e3, after3) = parse_entry(b, after2)->Some_0;
        }
    }
    lemma_decode_encode(m);
}

fn push_be(out: &mut Vec<u8>, x: u64)
    ensures
        final(out)@ == old(out)@ + be8(x),
{
    out.push(((x >> 56u64) & 0xffu64) as u8);
    out.push(((x >> 48u64) & 0xffu64) as u8);
    out.push(((x >> 40u64) & 0xffu64) as u8);
    out.push(((x >> 32u64) & 0xffu64) as u8);
    out.push(((x >> 24u64) & 0xffu64) as u8);
    out.push(((x >> 16u64) & 0xffu64) as u8);
    out.push(((x >> 8u64) & 0xffu64) as u8);
    out.push((x & 0xffu64) as u8);
    assert(final(out)@ =~= old(out)@ + be8(x));
}

fn push_bytes(out: &mut Vec<u8>, b: &Vec<u8>)
    ensures
        final(out)@ == old(out)@ + b@,
{
    let mut i: usize = 0;
    while i < b.len()
        invariant
            i <= b.len(),
            out@ == old(out)@ + b@.subrange(0, i as int),
        decreases b.len() - i,
    {
        out.push(b[i]);
        i = i + 1;
        assert(out@ =~= old(out)@ + b@.subrange(0, i as int));
    }
    assert(b@.subrange(0, b.len() as int) =~= b@);
}

fn push_entry(out: &mut Vec<u8>, o: &Option<Record>)
    ensures
        final(out)@ == old(out)@ + encode_entry(opt_view(*o)),
{
    match o {
        None => {
            out.push(0u8);
            assert(final(out)@ =~= old(out)@ + encode_entry(opt_view(*o)));
        },
        Some(r) => {
            out.push(1u8);
            push_be(out, r.version.len() as u64);
            push_bytes(out, &r.version);
            push_be(out, r.installed_at);
            assert(final(out)@ =~= old(out)@ + encode_entry(opt_view(*o)));
        },
    }
}

fn read_be_at(b: &Vec<u8>, p: usize) -> (r: u64)
    requires
        p + 8 <= b.len(),
    ensures
        r == read_be(b@, p as int),
{
    ((b[p] as u64) << 56u64) | ((b[p + 1] as u64) << 48u64) | ((b[p + 2] as u64) << 40u64) | ((
    b[p + 3] as u64) << 32u64) | ((b[p + 4] as u64) << 24u64) | ((b[p + 5] as u64) << 16u64) | ((
    b[p + 6] as u64) << 8u64) | (b[p + 7] as u64)
}

fn copy_range(b: &Vec<u8>, start: usize, end: usize) -> (r: Vec<u8>)
    requires
        start <= end <= b.len(),
    ensures
        r@ == b@.subrange(start as int, end as int),
{
    let mut r: Vec<u8> = Vec::new();
    let mut i: usize = start;
    while i < end
        invariant
            start <= i <= end <= b.len(),
            r@ == b@.subrange(start as int, i as int),
        decreases end - i,
    {
        r.push(b[i]);
        i = i + 1;
        assert(r@ =~= b@.subrange(start as int, i as int));
    }
    r
}

fn read_entry(b: &Vec<u8>, p: usize) -> (r: Option<(Option<Record>, usize)>)
    ensures
        match parse_entry(b@, p as int) {
            None => r is None,
            Some((e, q)) => r is Some && opt_view(r->Some_0.0) == e && r->Some_0.1 == q,
        },
{
    reveal(parse_entry);
    if p >= b.len() {
        None
    } else if b[p] == 0 {
        Some((None, p + 1))
    } else if b[p] == 1 && b.len() - p >= 9 {
        let n = read_be_at(b, p + 1);
        let rest = b.len() - (p + 9);
        if rest >= 8 && n <= (rest - 8) as u64 {
            let n = n as usize;
            let version = copy_range(b, p + 9, p + 9 + n);
            let installed_at = read_be_at(b, p + 9 + n);
            Some((Some(Record { version, installed_at }), p + 17 + n))
        } else {
            None
        }
    } else {
        None
    }
}

impl Manifest {
    /// The bytes that persist this manifest.
    pub fn write(&self) -> (r: Vec<u8>)
        ensures
            r@ == encode_spec(self.view()),
    {
        let mut out: Vec<u8> = Vec::new();
        push_entry(&mut out, &self.stable);
        push_entry(&mut out, &self.canary);
        push_entry(&mut out, &self.ptb);
        push_entry(&mut out, &self.development);
        proof {
            self.lemma_entry(Channel::Stable);
            self.lemma_entry(Channel::Canary);
            self.lemma_entry(Channel::Ptb);
            self.lemma_entry(Channel::Development);
            assert(out@ =~= encode_spec(self.view()));
        }
        out
    }

    /// Reads a manifest from its persisted bytes; an empty file is the empty
    /// manifest, and bytes that are no manifest give `CorruptManifest`.
    pub fn load(b: &Vec<u8>) -> (r: Result<Manifest, DvmError>)
        ensures
            match decode_spec(b@) {
                Some(m) => r is Ok && r->Ok_0.view() == m,
                None => r == Err::<Manifest, DvmError>(DvmError::CorruptManifest),
            },
    {
        if b.len() == 0 {
            return Ok(Manifest::empty());
        }
        let (e0, after0) = match read_entry(b, 0) {
            Some(x) => x,
            None => return Err(DvmError::CorruptManifest),
        };
        let (e1, after1) = match read_entry(b, after0) {
            Some(x) => x,
            None => return Err(DvmError::CorruptManifest),
        };
        let (e2, after2) = match read_entry(b, after1) {
            Some(x) => x,
            None => return Err(DvmError::CorruptManifest),
        };
        let (e3, after3) = match read_entry(b, after2) {
            Some(x) => x,
            None => return Err(DvmError::CorruptManifest),
        };
        if after3 != b.len() {
            return Err(DvmError::CorruptManifest);
        }
        let m = Manifest { stable: e0, canary: e1, ptb: e2, development: e3 };
        assert(m.view() =~= from_entries(opt_view(e0), opt_view(e1), opt_view(e2), opt_view(e3)));
        Ok(m)
    }
}

} // verus!
