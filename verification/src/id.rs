//! Chain-level identifiers: account addresses and hex hashes, carried as
//! text.

use vstd::prelude::*;

verus! {

#[derive(Clone, Debug)]
pub enum Id {
    Account(String),
    Hash(String),
}

impl Id {
    /// The identifier's text, whichever form it takes.
    pub open spec fn text(&self) -> Seq<char> {
        match self {
            Id::Account(s) => s@,
            Id::Hash(s) => s@,
        }
    }

    pub fn to_string(&self) -> (r: String)
        ensures
            r@ == self.text(),
    {
        match self {
            Id::Account(s) => s.clone(),
            Id::Hash(s) => s.clone(),
        }
    }
}

} // verus!
