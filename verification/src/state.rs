//! Cross-phase, write-once state.
//!
//! The privileged and the sandboxed hook are two independent callbacks with
//! no call path between them; the findings of the first (match decision,
//! configuration value, payload bytes) reach the second through this record.
//! Each cell accepts exactly one successful write per process: the first
//! writer wins and later writes are no-ops, so a reader observes either
//! "unset" or the single value that was written first — never an overwritten
//! one.

use vstd::prelude::*;

verus! {

/// Mathematical image of the write-once record: each cell is either unset
/// or holds the single value written first.
#[verifier::ext_equal]
pub struct StateModel {
    pub matched: Option<bool>,
    pub target: Option<Seq<u8>>,
    pub payload: Option<Seq<u8>>,
}

/// First-writer-wins update of a write-once cell: a write lands only on an
/// unset cell.
pub open spec fn cell_write<T>(cell: Option<T>, v: T) -> Option<T> {
    if cell is Some {
        cell
    } else {
        Some(v)
    }
}

/// A cell written twice keeps the value of the first write, whatever the
/// second writer offered.
pub proof fn lemma_cell_write_once<T>(cell: Option<T>, v1: T, v2: T)
    ensures
        cell_write(cell_write(cell, v1), v2) == cell_write(cell, v1),
{
}

/// The set-once record that carries the privileged phase's findings into
/// the sandboxed phase of the same process.
pub struct InjectionState {
    matched: Option<bool>,
    target: Option<Vec<u8>>,
    payload: Option<Vec<u8>>,
}

impl View for InjectionState {
    type V = StateModel;

    closed spec fn view(&self) -> StateModel {
        StateModel {
            matched: self.matched,
            target: match self.target {
                Some(t) => Some(t@),
                None => None,
            },
            payload: match self.payload {
                Some(p) => Some(p@),
                None => None,
            },
        }
    }
}

impl InjectionState {
    /// Fresh state: every cell unset.
    pub fn new() -> (s: InjectionState)
        ensures
            s@ == (StateModel { matched: None, target: None, payload: None }),
    {
        InjectionState { matched: None, target: None, payload: None }
    }

    /// Record the match decision. Only the first write lands.
    pub fn set_matched(&mut self, v: bool)
        ensures
            final(self)@ == (StateModel {
                matched: cell_write(old(self)@.matched, v),
                ..old(self)@
            }),
    {
        if self.matched.is_none() {
            self.matched = Some(v);
        }
    }

    /// Record the configuration value. Only the first write lands.
    pub fn set_target(&mut self, v: Vec<u8>)
        ensures
            final(self)@ == (StateModel { target: cell_write(old(self)@.target, v@), ..old(self)@ }),
    {
        if self.target.is_none() {
            self.target = Some(v);
        }
    }

    /// Record the buffered payload. Only the first write lands.
    pub fn set_payload(&mut self, v: Vec<u8>)
        ensures
            final(self)@ == (StateModel {
                payload: cell_write(old(self)@.payload, v@),
                ..old(self)@
            }),
    {
        if self.payload.is_none() {
            self.payload = Some(v);
        }
    }

    /// The recorded match decision, or `None` when not yet decided.
    pub fn matched(&self) -> (r: Option<bool>)
        ensures
            r == self@.matched,
    {
        self.matched
    }

    /// The recorded configuration value.
    pub fn target_ref(&self) -> (r: Option<&Vec<u8>>)
        ensures
            match r {
                Some(t) => self@.target == Some(t@),
                None => self@.target is None,
            },
    {
        self.target.as_ref()
    }

    /// The buffered payload.
    pub fn payload_ref(&self) -> (r: Option<&Vec<u8>>)
        ensures
            match r {
                Some(p) => self@.payload == Some(p@),
                None => self@.payload is None,
            },
    {
        self.payload.as_ref()
    }
}

} // verus!
