//! The map from transaction code hashes to transaction code names.

use vstd::prelude::*;

verus! {

/// Code-hash to code-name entries, as shipped with the chain.
pub struct Checksums {
    pub entries: Vec<(String, String)>,
}

/// Position of the first entry for `id`.
pub open spec fn spec_name_index(entries: Seq<(String, String)>, id: Seq<char>) -> Option<int>
    decreases entries.len(),
{
    if entries.len() == 0 {
        None
    } else if entries.first().0@ == id {
        Some(0)
    } else {
        match spec_name_index(entries.drop_first(), id) {
            Some(i) => Some(i + 1),
            None => None,
        }
    }
}

pub proof fn lemma_name_index_props(entries: Seq<(String, String)>, id: Seq<char>)
    ensures
        match spec_name_index(entries, id) {
            Some(i) => 0 <= i < entries.len() && entries[i].0@ == id && forall|j: int|
                0 <= j < i ==> entries[j].0@ != id,
            None => forall|j: int| 0 <= j < entries.len() ==> entries[j].0@ != id,
        },
    decreases entries.len(),
{
    if entries.len() > 0 && entries.first().0@ != id {
        let t = entries.drop_first();
        lemma_name_index_props(t, id);
        match spec_name_index(t, id) {
            Some(i) => {
                assert(entries[i + 1] == t[i]);
                assert forall|j: int| 0 <= j < i + 1 implies entries[j].0@ != id by {
                    if j > 0 {
                        assert(entries[j] == t[j - 1]);
                    }
                }
            },
            None => {
                assert forall|j: int| 0 <= j < entries.len() implies entries[j].0@ != id by {
                    if j > 0 {
                        assert(entries[j] == t[j - 1]);
                    }
                }
            },
        }
    }
}

impl Checksums {
    /// The code name recorded for a code hash, if any.
    pub fn get_name_by_id(&self, id: &String) -> (r: Option<String>)
        ensures
            match r {
                Some(name) => spec_name_index(self.entries@, id@) matches Some(i) && name
                    == self.entries@[i].1,
                None => spec_name_index(self.entries@, id@) is None,
            },
    {
        let n = self.entries.len();
        let mut i: usize = 0;
        while i < n
            invariant
                n == self.entries@.len(),
                0 <= i <= n,
                forall|j: int| 0 <= j < i ==> self.entries@[j].0@ != id@,
            decreases n - i,
        {
            if self.entries[i].0 == *id {
                proof {
                    lemma_name_index_props(self.entries@, id@);
                }
                return Some(self.entries[i].1.clone());
            }
            i += 1;
        }
        proof {
            lemma_name_index_props(self.entries@, id@);
        }
        None
    }
}

} // verus!
