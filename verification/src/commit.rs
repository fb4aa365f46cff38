//! Block commits: one signature per validator that signed the block.

use vstd::prelude::*;

use crate::id::Id;
use crate::orm::CommitInsertDb;

verus! {

#[derive(Clone, Copy, Debug, PartialEq, Eq, Structural)]
pub enum CommitSignatureKind {
    Empty,
    Commit,
    Nil,
}

#[derive(Clone, Debug)]
pub struct CommitSignature {
    pub kind: CommitSignatureKind,
    pub address: Id,
    pub signature: Option<String>,
}

#[derive(Clone, Debug)]
pub struct Commit {
    pub height: u64,
    pub round: u32,
    pub signatures: Vec<CommitSignature>,
}

/// The positions of the signatures that are real commit votes, in order.
pub open spec fn spec_commit_sig_indices(sigs: Seq<CommitSignature>) -> Seq<int>
    decreases sigs.len(),
{
    if sigs.len() == 0 {
        Seq::empty()
    } else {
        let r = spec_commit_sig_indices(sigs.drop_last());
        if sigs.last().kind is Commit {
            r.push(sigs.len() - 1)
        } else {
            r
        }
    }
}

pub proof fn lemma_commit_sig_indices_props(sigs: Seq<CommitSignature>)
    ensures
        forall|k: int|
            0 <= k < spec_commit_sig_indices(sigs).len() ==> 0 <= (
            #[trigger] spec_commit_sig_indices(sigs)[k]) < sigs.len(),
    decreases sigs.len(),
{
    if sigs.len() > 0 {
        lemma_commit_sig_indices_props(sigs.drop_last());
        let r = spec_commit_sig_indices(sigs.drop_last());
        if sigs.last().kind is Commit {
            assert forall|k: int|
                0 <= k < spec_commit_sig_indices(sigs).len() implies 0 <= (
            #[trigger] spec_commit_sig_indices(sigs)[k]) < sigs.len() by {
                if k < r.len() {
                    assert(spec_commit_sig_indices(sigs)[k] == r[k]);
                }
            }
        }
    }
}

proof fn lemma_commit_sig_indices_step(sigs: Seq<CommitSignature>, i: int)
    requires
        0 <= i < sigs.len(),
    ensures
        spec_commit_sig_indices(sigs.take(i + 1)) == if sigs[i].kind is Commit {
            spec_commit_sig_indices(sigs.take(i)).push(i)
        } else {
            spec_commit_sig_indices(sigs.take(i))
        },
{
    assert(sigs.take(i + 1).drop_last() =~= sigs.take(i));
    assert(sigs.take(i + 1).last() == sigs[i]);
}

impl Commit {
    /// One stored row per commit vote; absent and nil votes are skipped.
    pub fn to_commits_db(&self, block_id: &str) -> (r: Vec<CommitInsertDb>)
        ensures
            r@.len() == spec_commit_sig_indices(self.signatures@).len(),
            forall|k: int|
                0 <= k < r@.len() ==> {
                    let si = spec_commit_sig_indices(self.signatures@)[k];
                    &&& (#[trigger] r@[k]).address@ == self.signatures@[si].address.text()
                    &&& match (self.signatures@[si].signature, r@[k].signature) {
                        (None, None) => true,
                        (Some(a), Some(b)) => a@ == b@,
                        _ => false,
                    }
                    &&& r@[k].block_id@ == block_id@
                },
    {
        let n = self.signatures.len();
        let mut out: Vec<CommitInsertDb> = Vec::new();
        let mut i: usize = 0;
        while i < n
            invariant
                n == self.signatures@.len(),
                0 <= i <= n,
                out@.len() == spec_commit_sig_indices(self.signatures@.take(i as int)).len(),
                forall|k: int|
                    0 <= k < out@.len() ==> {
                        let si = spec_commit_sig_indices(self.signatures@.take(i as int))[k];
                        &&& 0 <= si < i
                        &&& (#[trigger] out@[k]).address@ == self.signatures@[si].address.text()
                        &&& match (self.signatures@[si].signature, out@[k].signature) {
                            (None, None) => true,
                            (Some(a), Some(b)) => a@ == b@,
                            _ => false,
                        }
                        &&& out@[k].block_id@ == block_id@
                    },
            decreases n - i,
        {
            proof {
                lemma_commit_sig_indices_step(self.signatures@, i as int);
                lemma_commit_sig_indices_props(self.signatures@.take(i as int));
            }
            match self.signatures[i].kind {
                CommitSignatureKind::Commit => {
                    out.push(
                        CommitInsertDb {
                            signature: match &self.signatures[i].signature {
                                Some(s) => Some(s.clone()),
                                None => None,
                            },
                            address: self.signatures[i].address.to_string(),
                            block_id: block_id.to_owned(),
                        },
                    );
                },
                _ => {},
            }
            i += 1;
        }
        proof {
            assert(self.signatures@.take(n as int) =~= self.signatures@);
        }
        out
    }
}

} // verus!
