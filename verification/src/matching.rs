//! The target-matching policy.
//!
//! Whether a resolved process name counts as the configured target is a
//! policy choice, not an implementation detail: substring containment treats
//! every variant process of a package (separated service and child processes
//! included) as the target, while exact equality restricts the match to the
//! main process. The policy is therefore explicit and chosen by the caller;
//! the default pipeline uses substring containment. An empty target never
//! matches under either policy.

use vstd::prelude::*;

use crate::bytes::{bytes_eq, contains_bytes, contains_seq};

verus! {

/// How a resolved process name is compared against the configured target.
#[derive(Clone, Copy, Debug, PartialEq, Eq, Structural)]
pub enum MatchPolicy {
    /// The name contains the target as a substring.
    Substring,
    /// The name equals the target byte for byte.
    Exact,
}

/// The match decision: the target is non-empty and the name matches it
/// under the chosen policy.
pub open spec fn match_decision(policy: MatchPolicy, name: Seq<u8>, target: Seq<u8>) -> bool {
    target.len() > 0 && (match policy {
        MatchPolicy::Substring => contains_seq(name, target),
        MatchPolicy::Exact => name == target,
    })
}

/// Decide whether `name` matches `target` under `policy`.
pub fn matches_target(policy: MatchPolicy, name: &Vec<u8>, target: &Vec<u8>) -> (r: bool)
    ensures
        r == match_decision(policy, name@, target@),
{
    if target.len() == 0 {
        return false;
    }
    match policy {
        MatchPolicy::Substring => contains_bytes(name, target),
        MatchPolicy::Exact => bytes_eq(name, target),
    }
}

} // verus!
