//! What the engine needs from the remote source's answer. The endpoint of a
//! channel redirects to the artifact of its latest release, at a locator of
//! the form `<prefix>/<version>/<file>`; the version is read from there.
use vstd::prelude::*;

verus! {

/// The position of the last `/` in `s` before `end`, or -1 when there is none.
pub open spec fn last_slash_before(s: Seq<u8>, end: int) -> int
    decreases end,
{
    if end <= 0 || end > s.len() {
        -1
    } else if s[end - 1] == 0x2fu8 {
        end - 1
    } else {
        last_slash_before(s, end - 1)
    }
}

/// The version in a download locator: the path segment before the file
/// name. `None` when the locator has no such non-empty segment or no file
/// name.
pub open spec fn version_spec(s: Seq<u8>) -> Option<Seq<u8>> {
    let j = last_slash_before(s, s.len() as int);
    let i = last_slash_before(s, j);
    if j < 0 || j + 1 == s.len() || i < 0 || i + 1 == j {
        None
    } else {
        Some(s.subrange(i + 1, j))
    }
}

fn last_slash(s: &Vec<u8>, end: usize) -> (r: Option<usize>)
    requires
        end <= s.len(),
    ensures
        match r {
            Some(k) => k < end && k as int == last_slash_before(s@, end as int),
            None => last_slash_before(s@, end as int) == -1,
        },
{
    let mut k: usize = end;
    while k > 0
        invariant
            k <= end <= s.len(),
            last_slash_before(s@, end as int) == last_slash_before(s@, k as int),
        decreases k,
    {
        if s[k - 1] == 0x2fu8 {
            return Some(k - 1);
        }
        k = k - 1;
    }
    None
}

/// Reads the version out of the locator the remote source redirected to;
/// `None` means the answer is malformed.
pub fn version_from_locator(s: &Vec<u8>) -> (r: Option<Vec<u8>>)
    ensures
        match version_spec(s@) {
            Some(v) => r is Some && r->Some_0@ == v,
            None => r is None,
        },
{
    let j = match last_slash(s, s.len()) {
        Some(j) => j,
        None => return None,
    };
    if j + 1 == s.len() {
        return None;
    }
    let i = match last_slash(s, j) {
        Some(i) => i,
        None => return None,
    };
    if i + 1 == j {
        return None;
    }
    let mut v: Vec<u8> = Vec::new();
    let mut k: usize = i + 1;
    while k < j
        invariant
            i + 1 <= k <= j < s.len(),
            v@ == s@.subrange(i + 1, k as int),
        decreases j - k,
    {
        v.push(s[k]);
        k = k + 1;
        assert(v@ =~= s@.subrange(i + 1, k as int));
    }
    Some(v)
}

} // verus!
