//! Byte-string primitives shared by the pipeline: prefix extraction,
//! ASCII trimming, equality and substring search. Process names, paths and
//! configuration values are modelled as byte strings throughout the crate.

use vstd::prelude::*;

verus! {

/// The ASCII whitespace bytes: space, tab, line feed, form feed,
/// carriage return.
pub open spec fn is_ascii_space(b: u8) -> bool {
    b == 32 || b == 9 || b == 10 || b == 12 || b == 13
}

/// Index of the first occurrence of `b` in `s`, or `s.len()` if absent.
pub open spec fn index_of_byte(s: Seq<u8>, b: u8) -> int
    decreases s.len(),
{
    if s.len() == 0 {
        0
    } else if s[0] == b {
        0
    } else {
        1 + index_of_byte(s.drop_first(), b)
    }
}

/// What `index_of_byte` returns: the position of the first `b`, clamped to
/// the length.
pub proof fn lemma_index_of_byte(s: Seq<u8>, b: u8)
    ensures
        0 <= index_of_byte(s, b) <= s.len(),
        forall|j: int| 0 <= j < index_of_byte(s, b) ==> s[j] != b,
        index_of_byte(s, b) < s.len() ==> s[index_of_byte(s, b)] == b,
    decreases s.len(),
{
    if s.len() == 0 {
    } else if s[0] == b {
    } else {
        lemma_index_of_byte(s.drop_first(), b);
        assert forall|j: int| 0 <= j < index_of_byte(s, b) implies s[j] != b by {
            if j > 0 {
                assert(s.drop_first()[j - 1] == s[j]);
            }
        }
        if index_of_byte(s, b) < s.len() {
            assert(s.drop_first()[index_of_byte(s.drop_first(), b)] == s[index_of_byte(s, b)]);
        }
    }
}

/// The prefix of `s` that precedes the first occurrence of `b`
/// (all of `s` when `b` does not occur).
pub open spec fn prefix_to_byte(s: Seq<u8>, b: u8) -> Seq<u8> {
    s.subrange(0, index_of_byte(s, b))
}

/// The first line of a text: everything before the first line feed.
pub open spec fn first_line(s: Seq<u8>) -> Seq<u8> {
    prefix_to_byte(s, 10)
}

/// `s` without its leading ASCII whitespace.
pub open spec fn drop_leading_space(s: Seq<u8>) -> Seq<u8>
    decreases s.len(),
{
    if s.len() > 0 && is_ascii_space(s[0]) {
        drop_leading_space(s.drop_first())
    } else {
        s
    }
}

/// `s` without its trailing ASCII whitespace.
pub open spec fn drop_trailing_space(s: Seq<u8>) -> Seq<u8>
    decreases s.len(),
{
    if s.len() > 0 && is_ascii_space(s.last()) {
        drop_trailing_space(s.drop_last())
    } else {
        s
    }
}

/// `s` with both leading and trailing ASCII whitespace removed.
pub open spec fn trimmed(s: Seq<u8>) -> Seq<u8> {
    drop_trailing_space(drop_leading_space(s))
}

/// Dropping leading whitespace keeps exactly the suffix that starts at the
/// first non-whitespace byte.
proof fn lemma_drop_leading_is_suffix(s: Seq<u8>, i: int)
    requires
        0 <= i <= s.len(),
        forall|j: int| 0 <= j < i ==> is_ascii_space(s[j]),
        i < s.len() ==> !is_ascii_space(s[i]),
    ensures
        drop_leading_space(s) == s.subrange(i, s.len() as int),
    decreases i,
{
    if i == 0 {
        assert(s.subrange(0, s.len() as int) =~= s);
    } else {
        lemma_drop_leading_is_suffix(s.drop_first(), i - 1);
        assert(s.drop_first().subrange(i - 1, s.len() - 1) =~= s.subrange(i, s.len() as int));
    }
}

/// Dropping trailing whitespace keeps exactly the prefix that ends at the
/// last non-whitespace byte.
proof fn lemma_drop_trailing_is_prefix(s: Seq<u8>, k: int)
    requires
        0 <= k <= s.len(),
        forall|j: int| k <= j < s.len() ==> is_ascii_space(s[j]),
        k > 0 ==> !is_ascii_space(s[k - 1]),
    ensures
        drop_trailing_space(s) == s.subrange(0, k),
    decreases s.len() - k,
{
    if k == s.len() {
        assert(s.subrange(0, s.len() as int) =~= s);
    } else {
        lemma_drop_trailing_is_prefix(s.drop_last(), k);
        assert(s.drop_last().subrange(0, k) =~= s.subrange(0, k));
    }
}

/// `v` with leading and trailing ASCII whitespace removed.
pub fn trim_ascii_space(v: &Vec<u8>) -> (r: Vec<u8>)
    ensures
        r@ == trimmed(v@),
{
    let len = v.len();
    let mut start: usize = 0;
    while start < len && is_space_byte(v[start])
        invariant
            len == v@.len(),
            start <= len,
            forall|j: int| 0 <= j < start ==> is_ascii_space(v@[j]),
        decreases len - start,
    {
        start = start + 1;
    }
    let mut end: usize = len;
    while end > start && is_space_byte(v[end - 1])
        invariant
            len == v@.len(),
            start <= end <= len,
            forall|j: int| end <= j < len ==> is_ascii_space(v@[j]),
        decreases end,
    {
        end = end - 1;
    }
    proof {
        lemma_drop_leading_is_suffix(v@, start as int);
        let tail = v@.subrange(start as int, len as int);
        lemma_drop_trailing_is_prefix(tail, end - start);
        assert(tail.subrange(0, end - start) =~= v@.subrange(start as int, end as int));
    }
    subvec(v, start, end)
}

/// Executable twin of `is_ascii_space`.
pub fn is_space_byte(b: u8) -> (r: bool)
    ensures
        r == is_ascii_space(b),
{
    b == 32 || b == 9 || b == 10 || b == 12 || b == 13
}

/// `needle` occurs in `hay` starting at position `i`.
pub open spec fn match_at(hay: Seq<u8>, needle: Seq<u8>, i: int) -> bool {
    &&& 0 <= i
    &&& i + needle.len() <= hay.len()
    &&& hay.subrange(i, i + needle.len() as int) == needle
}

/// `needle` occurs somewhere in `hay` (every sequence contains the empty
/// sequence).
pub open spec fn contains_seq(hay: Seq<u8>, needle: Seq<u8>) -> bool {
    exists|i: int| match_at(hay, needle, i)
}

/// Index of the first occurrence of `b` in `v`, or `v.len()` if absent.
pub fn find_byte(v: &Vec<u8>, b: u8) -> (r: usize)
    ensures
        r == index_of_byte(v@, b),
{
    proof {
        lemma_index_of_byte(v@, b);
    }
    let mut i: usize = 0;
    while i < v.len()
        invariant
            i <= v@.len(),
            forall|j: int| 0 <= j < i ==> v@[j] != b,
            0 <= index_of_byte(v@, b) <= v@.len(),
            forall|j: int| 0 <= j < index_of_byte(v@, b) ==> v@[j] != b,
            index_of_byte(v@, b) < v@.len() ==> v@[index_of_byte(v@, b)] == b,
        decreases v@.len() - i,
    {
        if v[i] == b {
            return i;
        }
        i = i + 1;
    }
    i
}

/// Copy of `v[start..end]`.
pub fn subvec(v: &Vec<u8>, start: usize, end: usize) -> (r: Vec<u8>)
    requires
        start <= end <= v@.len(),
    ensures
        r@ == v@.subrange(start as int, end as int),
{
    let mut r: Vec<u8> = Vec::new();
    let mut i: usize = start;
    while i < end
        invariant
            start <= i <= end <= v@.len(),
            r@ == v@.subrange(start as int, i as int),
        decreases end - i,
    {
        r.push(v[i]);
        proof {
            assert(v@.subrange(start as int, i + 1 as int) =~= v@.subrange(
                start as int,
                i as int,
            ).push(v@[i as int]));
        }
        i = i + 1;
    }
    r
}

/// Copy of the whole of `v`.
pub fn clone_bytes(v: &Vec<u8>) -> (r: Vec<u8>)
    ensures
        r@ == v@,
{
    let r = subvec(v, 0, v.len());
    proof {
        assert(v@.subrange(0, v@.len() as int) =~= v@);
    }
    r
}

/// Byte-for-byte equality of two byte strings.
pub fn bytes_eq(a: &Vec<u8>, b: &Vec<u8>) -> (r: bool)
    ensures
        r == (a@ == b@),
{
    if a.len() != b.len() {
        return false;
    }
    let mut i: usize = 0;
    while i < a.len()
        invariant
            a@.len() == b@.len(),
            i <= a@.len(),
            forall|j: int| 0 <= j < i ==> a@[j] == b@[j],
        decreases a@.len() - i,
    {
        if a[i] != b[i] {
            return false;
        }
        i = i + 1;
    }
    proof {
        assert(a@ =~= b@);
    }
    true
}

/// `needle` matches `hay` at position `i`.
fn eq_at(hay: &Vec<u8>, needle: &Vec<u8>, i: usize) -> (r: bool)
    requires
        i + needle@.len() <= hay@.len(),
    ensures
        r == match_at(hay@, needle@, i as int),
{
    let n = needle.len();
    let h = hay.len();
    let mut j: usize = 0;
    while j < n
        invariant
            n == needle@.len(),
            h == hay@.len(),
            i + n <= h,
            j <= n,
            forall|k: int| 0 <= k < j ==> hay@[i + k] == needle@[k],
        decreases n - j,
    {
        if hay[i + j] != needle[j] {
            proof {
                assert(hay@.subrange(i as int, i + n as int)[j as int] == hay@[i + j]);
            }
            return false;
        }
        j = j + 1;
    }
    proof {
        assert(hay@.subrange(i as int, i + n as int) =~= needle@);
    }
    true
}

/// Substring search: does `needle` occur anywhere in `hay`?
pub fn contains_bytes(hay: &Vec<u8>, needle: &Vec<u8>) -> (r: bool)
    ensures
        r == contains_seq(hay@, needle@),
{
    if needle.len() > hay.len() {
        return false;
    }
    let last = hay.len() - needle.len();
    let mut i: usize = 0;
    loop
        invariant
            needle@.len() <= hay@.len(),
            last == hay@.len() - needle@.len(),
            i <= last,
            forall|k: int| 0 <= k < i ==> !match_at(hay@, needle@, k),
        ensures
            forall|k: int| 0 <= k <= last ==> !match_at(hay@, needle@, k),
        decreases last - i,
    {
        if eq_at(hay, needle, i) {
            return true;
        }
        if i == last {
            break;
        }
        i = i + 1;
    }
    false
}

} // verus!
