//! Consensus-level evidence of validator misbehavior.

use vstd::prelude::*;

verus! {

#[derive(Clone, Debug)]
pub enum EvidenceKind {
    DuplicateVote(String),
    LightClientAttack(String),
}

impl EvidenceKind {
    /// The misbehaving validator's address.
    pub open spec fn spec_address(&self) -> Seq<char> {
        match self {
            EvidenceKind::DuplicateVote(addr) => addr@,
            EvidenceKind::LightClientAttack(addr) => addr@,
        }
    }
}

} // verus!
