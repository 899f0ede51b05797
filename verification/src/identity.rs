//! Resolution of the current process's logical identity.
//!
//! The fast path reads the process nickname directly from the specialization
//! arguments through the managed runtime; that read happens in the unverified
//! shell and its result is handed in here as plain bytes (empty when
//! unavailable). The fallback derives an approximate package name from the
//! process's private data directory: path segments are scanned from the end,
//! skipping empty segments and the literal `cache` segment, and the first
//! remaining segment is the inferred name. Identity resolution is total: it
//! returns an empty name rather than an error, because a resolution failure
//! must never abort specialization.

use vstd::prelude::*;

use crate::bytes::{clone_bytes, find_byte, lemma_index_of_byte, prefix_to_byte, subvec};

verus! {

/// The process name recorded in a kernel command-line record: the bytes
/// before the first NUL.
pub open spec fn cmdline_name(raw: Seq<u8>) -> Seq<u8> {
    prefix_to_byte(raw, 0)
}

/// Extract the process name from the raw bytes of a kernel command-line
/// record.
pub fn process_name_from_cmdline(raw: &Vec<u8>) -> (r: Vec<u8>)
    ensures
        r@ == cmdline_name(raw@),
{
    proof {
        lemma_index_of_byte(raw@, 0);
    }
    let cut = find_byte(raw, 0);
    subvec(raw, 0, cut)
}

/// The literal path segment `cache`, which the fallback skips.
pub open spec fn cache_segment() -> Seq<u8> {
    seq![99u8, 97u8, 99u8, 104u8, 101u8]
}

/// A path segment that can serve as an inferred package name: non-empty and
/// not the cache directory itself.
pub open spec fn usable_segment(c: Seq<u8>) -> bool {
    c.len() > 0 && c != cache_segment()
}

/// Start of the last path segment of `s`: the index right after the last
/// `/`, or 0 when `s` holds no `/`.
pub open spec fn last_segment_start(s: Seq<u8>) -> int
    decreases s.len(),
{
    if s.len() == 0 {
        0
    } else if s.last() == 47 {
        s.len() as int
    } else {
        last_segment_start(s.drop_last())
    }
}

/// What `last_segment_start` returns: the unique cut with no `/` at or
/// after it and a `/` (or the start of `s`) right before it.
pub proof fn lemma_last_segment_start(s: Seq<u8>)
    ensures
        0 <= last_segment_start(s) <= s.len(),
        forall|j: int| last_segment_start(s) <= j < s.len() ==> s[j] != 47,
        last_segment_start(s) > 0 ==> s[last_segment_start(s) - 1] == 47,
    decreases s.len(),
{
    if s.len() == 0 {
    } else if s.last() == 47 {
    } else {
        lemma_last_segment_start(s.drop_last());
        assert forall|j: int| last_segment_start(s) <= j < s.len() implies s[j] != 47 by {
            if j < s.len() - 1 {
                assert(s.drop_last()[j] == s[j]);
            }
        }
        if last_segment_start(s) > 0 {
            assert(s.drop_last()[last_segment_start(s) - 1] == s[last_segment_start(s) - 1]);
        }
    }
}

/// The cut characterized by `lemma_last_segment_start` is unique.
proof fn lemma_last_segment_start_unique(s: Seq<u8>, c: int)
    requires
        0 <= c <= s.len(),
        forall|j: int| c <= j < s.len() ==> s[j] != 47,
        c > 0 ==> s[c - 1] == 47,
    ensures
        last_segment_start(s) == c,
    decreases s.len(),
{
    if s.len() == 0 {
    } else if s.last() == 47 {
        assert(c == s.len());
    } else {
        assert(c < s.len());
        lemma_last_segment_start_unique(s.drop_last(), c);
    }
}

/// The package name inferred from a data-directory path: the last path
/// segment that is neither empty nor the literal `cache`, or empty when no
/// such segment exists.
pub open spec fn inferred_package(s: Seq<u8>) -> Seq<u8>
    decreases s.len(),
    via inferred_package_decreases
{
    if s.len() == 0 {
        Seq::empty()
    } else {
        let cut = last_segment_start(s);
        let comp = s.subrange(cut, s.len() as int);
        if usable_segment(comp) {
            comp
        } else if cut == 0 {
            Seq::empty()
        } else {
            inferred_package(s.subrange(0, cut - 1))
        }
    }
}

#[via_fn]
proof fn inferred_package_decreases(s: Seq<u8>) {
    lemma_last_segment_start(s);
}

/// Is `v` the literal segment `cache`?
fn is_cache_segment(v: &Vec<u8>) -> (r: bool)
    ensures
        r == (v@ == cache_segment()),
{
    if v.len() != 5 {
        return false;
    }
    let r = v[0] == 99 && v[1] == 97 && v[2] == 99 && v[3] == 104 && v[4] == 101;
    proof {
        if r {
            assert(v@ =~= cache_segment());
        }
    }
    r
}

/// Infer a package name from a data-directory path.
pub fn infer_package_from_dir(dir: &Vec<u8>) -> (r: Vec<u8>)
    ensures
        r@ == inferred_package(dir@),
{
    let mut end: usize = dir.len();
    proof {
        assert(dir@.subrange(0, end as int) =~= dir@);
    }
    loop
        invariant
            end <= dir@.len(),
            inferred_package(dir@) == inferred_package(dir@.subrange(0, end as int)),
        decreases end,
    {
        let ghost s = dir@.subrange(0, end as int);
        if end == 0 {
            proof {
                assert(s =~= Seq::<u8>::empty());
            }
            return Vec::new();
        }
        let mut start: usize = end;
        while start > 0 && dir[start - 1] != 47
            invariant
                start <= end <= dir@.len(),
                forall|j: int| start <= j < end ==> dir@[j] != 47,
            decreases start,
        {
            start = start - 1;
        }
        proof {
            assert forall|j: int| start <= j < s.len() implies s[j] != 47 by {
                assert(s[j] == dir@[j]);
            }
            lemma_last_segment_start_unique(s, start as int);
        }
        let comp = subvec(dir, start, end);
        proof {
            assert(comp@ =~= s.subrange(start as int, s.len() as int));
        }
        if comp.len() > 0 && !is_cache_segment(&comp) {
            return comp;
        }
        if start == 0 {
            return Vec::new();
        }
        proof {
            assert(s.subrange(0, start - 1) =~= dir@.subrange(0, start - 1));
        }
        end = start - 1;
    }
}

/// The resolved process name: the runtime-supplied name when available,
/// otherwise the name inferred from the data-directory path.
pub open spec fn resolved_name(runtime_name: Seq<u8>, data_dir: Seq<u8>) -> Seq<u8> {
    if runtime_name.len() > 0 {
        runtime_name
    } else {
        inferred_package(data_dir)
    }
}

/// Resolve the current process's name from the runtime-supplied name (empty
/// when the fast path failed) and the data-directory path fallback.
pub fn resolve_process_name(runtime_name: &Vec<u8>, data_dir: &Vec<u8>) -> (r: Vec<u8>)
    ensures
        r@ == resolved_name(runtime_name@, data_dir@),
{
    if runtime_name.len() > 0 {
        clone_bytes(runtime_name)
    } else {
        infer_package_from_dir(data_dir)
    }
}

} // verus!
