//! Per-block execution results, as the consensus layer reports them.

use vstd::prelude::*;

use crate::id::Id;

verus! {

#[derive(Clone, Copy, Debug, PartialEq, Eq, Structural)]
pub enum TxEventStatusCode {
    Success,
    Fail,
}

/// The attributes of one transaction's result event.
#[derive(Clone, Debug)]
pub struct TxAttributes {
    pub hash: String,
    pub code: TxEventStatusCode,
    pub gas: u64,
}

#[derive(Clone, Debug)]
pub struct Event {
    pub kind: String,
    pub attributes: Vec<(String, String)>,
}

#[derive(Clone, Debug)]
pub struct BlockResult {
    pub height: u32,
    pub begin_events: Vec<Event>,
    pub end_events: Vec<Event>,
    pub tx_attributes: Vec<TxAttributes>,
}

/// Position of the first recorded result for the given hash.
pub open spec fn spec_find_tx_result(attributes: Seq<TxAttributes>, hash: Seq<char>) -> Option<int>
    decreases attributes.len(),
{
    if attributes.len() == 0 {
        None
    } else if attributes.first().hash@ == hash {
        Some(0)
    } else {
        match spec_find_tx_result(attributes.drop_first(), hash) {
            Some(i) => Some(i + 1),
            None => None,
        }
    }
}

pub proof fn lemma_find_tx_result_props(attributes: Seq<TxAttributes>, hash: Seq<char>)
    ensures
        match spec_find_tx_result(attributes, hash) {
            Some(i) => 0 <= i < attributes.len() && attributes[i].hash@ == hash && forall|j: int|
                0 <= j < i ==> attributes[j].hash@ != hash,
            None => forall|j: int| 0 <= j < attributes.len() ==> attributes[j].hash@ != hash,
        },
    decreases attributes.len(),
{
    if attributes.len() > 0 && attributes.first().hash@ != hash {
        let t = attributes.drop_first();
        lemma_find_tx_result_props(t, hash);
        match spec_find_tx_result(t, hash) {
            Some(i) => {
                assert(attributes[i + 1] == t[i]);
                assert forall|j: int| 0 <= j < i + 1 implies attributes[j].hash@ != hash by {
                    if j > 0 {
                        assert(attributes[j] == t[j - 1]);
                    }
                }
            },
            None => {
                assert forall|j: int| 0 <= j < attributes.len() implies attributes[j].hash@
                    != hash by {
                    if j > 0 {
                        assert(attributes[j] == t[j - 1]);
                    }
                }
            },
        }
    }
}

impl BlockResult {
    pub open spec fn has_tx_hash_result(&self, hash: Seq<char>) -> bool {
        spec_find_tx_result(self.tx_attributes@, hash) is Some
    }

    /// The position of the first recorded result whose hash is `id`, if any.
    pub fn find_tx_hash_result(&self, id: &Id) -> (r: Option<usize>)
        ensures
            match r {
                Some(i) => spec_find_tx_result(self.tx_attributes@, id.text()) == Some(i as int)
                    && i < self.tx_attributes@.len(),
                None => spec_find_tx_result(self.tx_attributes@, id.text()) is None,
            },
    {
        let hash = id.to_string();
        let n = self.tx_attributes.len();
        let mut i: usize = 0;
        while i < n
            invariant
                n == self.tx_attributes@.len(),
                0 <= i <= n,
                forall|j: int| 0 <= j < i ==> self.tx_attributes@[j].hash@ != hash@,
                hash@ == id.text(),
            decreases n - i,
        {
            if self.tx_attributes[i].hash == hash {
                proof {
                    lemma_find_tx_result_props(self.tx_attributes@, id.text());
                }
                return Some(i);
            }
            i += 1;
        }
        proof {
            lemma_find_tx_result_props(self.tx_attributes@, id.text());
        }
        None
    }
}

} // verus!
