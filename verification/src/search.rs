use vstd::prelude::*;
use vstd::string::StringSliceAdditionalSpecFns;

verus! {

/// `needle` occurs in `hay` starting at byte position `i`.
pub open spec fn match_at(hay: Seq<u8>, needle: Seq<u8>, i: int) -> bool {
    &&& 0 <= i
    &&& i + needle.len() <= hay.len()
    &&& hay.subrange(i, i + needle.len()) == needle
}

/// `i` is the first byte position at which `needle` occurs in `hay`.
pub open spec fn found_index(hay: Seq<u8>, needle: Seq<u8>, i: int) -> bool {
    &&& match_at(hay, needle, i)
    &&& forall|j: int| 0 <= j < i ==> !match_at(hay, needle, j)
}

/// There is at most one first occurrence.
pub proof fn lemma_found_index_unique(hay: Seq<u8>, needle: Seq<u8>, i1: int, i2: int)
    requires
        found_index(hay, needle, i1),
        found_index(hay, needle, i2),
    ensures
        i1 == i2,
{
    if i1 < i2 {
        assert(!match_at(hay, needle, i1));
    } else if i2 < i1 {
        assert(!match_at(hay, needle, i2));
    }
}

/// Does `needle` occur in `hay` starting exactly at position `i`?
fn matches_at(hay: &[u8], needle: &[u8], i: usize) -> (b: bool)
    requires
        i + needle@.len() <= hay@.len(),
    ensures
        b == match_at(hay@, needle@, i as int),
{
    let n = hay.len();
    let m = needle.len();
    let mut k: usize = 0;
    while k < m
        invariant
            i + m <= n,
            n == hay@.len(),
            m == needle@.len(),
            k <= m,
            forall|t: int| 0 <= t < k ==> hay@[i + t] == needle@[t],
        decreases m - k,
    {
        if hay[i + k] != needle[k] {
            assert(hay@.subrange(i as int, i + m) != needle@) by {
                assert(hay@.subrange(i as int, i + m)[k as int] == hay@[i + k]);
            }
            return false;
        }
        k += 1;
    }
    assert(hay@.subrange(i as int, i + m) =~= needle@);
    true
}

/// First occurrence of `needle` in `hay`, as a byte offset; `None` when
/// `needle` occurs nowhere in `hay`.
pub fn find_subslice(hay: &[u8], needle: &[u8]) -> (r: Option<usize>)
    ensures
        match r {
            Some(i) => found_index(hay@, needle@, i as int),
            None => forall|j: int| !match_at(hay@, needle@, j),
        },
{
    let n = hay.len();
    let m = needle.len();
    if m > n {
        return None;
    }
    if m == 0 {
        assert(hay@.subrange(0, 0) =~= needle@);
        return Some(0);
    }
    let mut i: usize = 0;
    while i <= n - m
        invariant
            1 <= m <= n,
            n == hay@.len(),
            m == needle@.len(),
            i <= n - m + 1,
            forall|j: int| 0 <= j < i ==> !match_at(hay@, needle@, j),
        decreases n - m + 1 - i,
    {
        if matches_at(hay, needle, i) {
            return Some(i);
        }
        i += 1;
    }
    None
}

/// First occurrence of `needle` in `hay`, as a byte offset into the UTF-8
/// encoding of `hay`, exactly as the standard substring search reports it.
pub fn find_in_str(hay: &str, needle: &str) -> (r: Option<usize>)
    ensures
        match r {
            Some(i) => found_index(hay.spec_bytes(), needle.spec_bytes(), i as int),
            None => forall|j: int| !match_at(hay.spec_bytes(), needle.spec_bytes(), j),
        },
{
    find_subslice(hay.as_bytes(), needle.as_bytes())
}

} // verus!
