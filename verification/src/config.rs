//! Parsing of the operator-supplied configuration value.
//!
//! The configuration is a plain-text file whose first line, trimmed of
//! surrounding whitespace, names the target process identifier. Reading the
//! file is input handled by the unverified shell; this module turns the raw
//! bytes into the target identifier. An empty result means "no target
//! configured" and is interpreted by the caller, not treated as an error.

use vstd::prelude::*;

use crate::bytes::{find_byte, first_line, lemma_index_of_byte, subvec, trim_ascii_space, trimmed};

verus! {

/// The target identifier denoted by a raw configuration text: its first
/// line with surrounding ASCII whitespace removed.
pub open spec fn target_of_config(raw: Seq<u8>) -> Seq<u8> {
    trimmed(first_line(raw))
}

/// Extract the target identifier from the raw bytes of the configuration
/// file.
pub fn parse_target_config(raw: &Vec<u8>) -> (r: Vec<u8>)
    ensures
        r@ == target_of_config(raw@),
{
    proof {
        lemma_index_of_byte(raw@, 10);
    }
    let cut = find_byte(raw, 10);
    let line = subvec(raw, 0, cut);
    trim_ascii_space(&line)
}

} // verus!
