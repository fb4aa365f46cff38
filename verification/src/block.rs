//! A decoded block with its transactions, commit and evidence, and the
//! stored rows it yields.

use vstd::prelude::*;

use crate::block_result::BlockResult;
use crate::block_result::Event;
use crate::commit::Commit;
use crate::evidence::EvidenceKind;
use crate::id::Id;
use crate::orm::EvidenceInsertDb;
use crate::orm::EvidenceKindDb;
use crate::orm::TransactionDb;
use crate::transaction::RawMemo;
use crate::transaction::Transaction;
use crate::transaction::spec_tx_row_matches;

verus! {

pub type Epoch = u32;

pub type BlockHeight = u32;

#[derive(Clone, Debug)]
pub struct BlockHeader {
    pub height: BlockHeight,
    pub proposer_address: String,
    pub timestamp: String,
    pub app_hash: Id,
}

pub struct Block {
    pub hash: Id,
    pub header: BlockHeader,
    pub evidences: Vec<EvidenceKind>,
    pub commit: Option<Commit>,
    pub transactions: Vec<Transaction<RawMemo>>,
    pub begin_events: Vec<Event>,
    pub end_events: Vec<Event>,
    pub epoch: Epoch,
}

/// The positions of the transactions a block stores: every one whose kind is
/// known.
pub open spec fn spec_storable_tx_indices(txs: Seq<Transaction<RawMemo>>) -> Seq<int>
    decreases txs.len(),
{
    if txs.len() == 0 {
        Seq::empty()
    } else {
        let r = spec_storable_tx_indices(txs.drop_last());
        if txs.last().kind is Unknown {
            r
        } else {
            r.push(txs.len() - 1)
        }
    }
}

pub proof fn lemma_storable_tx_indices_props(txs: Seq<Transaction<RawMemo>>)
    ensures
        forall|k: int|
            0 <= k < spec_storable_tx_indices(txs).len() ==> 0 <= (
            #[trigger] spec_storable_tx_indices(txs)[k]) < txs.len(),
    decreases txs.len(),
{
    if txs.len() > 0 {
        lemma_storable_tx_indices_props(txs.drop_last());
        let r = spec_storable_tx_indices(txs.drop_last());
        if !(txs.last().kind is Unknown) {
            assert forall|k: int|
                0 <= k < spec_storable_tx_indices(txs).len() implies 0 <= (
            #[trigger] spec_storable_tx_indices(txs)[k]) < txs.len() by {
                if k < r.len() {
                    assert(spec_storable_tx_indices(txs)[k] == r[k]);
                }
            }
        }
    }
}

proof fn lemma_storable_tx_indices_step(txs: Seq<Transaction<RawMemo>>, i: int)
    requires
        0 <= i < txs.len(),
    ensures
        spec_storable_tx_indices(txs.take(i + 1)) == if txs[i].kind is Unknown {
            spec_storable_tx_indices(txs.take(i))
        } else {
            spec_storable_tx_indices(txs.take(i)).push(i)
        },
{
    assert(txs.take(i + 1).drop_last() =~= txs.take(i));
    assert(txs.take(i + 1).last() == txs[i]);
}

fn clone_event(e: &Event) -> (r: Event)
    ensures
        r.kind@ == e.kind@,
        r.attributes@.len() == e.attributes@.len(),
        forall|i: int|
            0 <= i < e.attributes@.len() ==> (#[trigger] r.attributes@[i]).0@ == e.attributes@[i].0@
                && r.attributes@[i].1@ == e.attributes@[i].1@,
{
    let n = e.attributes.len();
    let mut attributes: Vec<(String, String)> = Vec::new();
    let mut i: usize = 0;
    while i < n
        invariant
            n == e.attributes@.len(),
            0 <= i <= n,
            attributes@.len() == i,
            forall|j: int|
                0 <= j < i ==> (#[trigger] attributes@[j]).0@ == e.attributes@[j].0@
                    && attributes@[j].1@ == e.attributes@[j].1@,
        decreases n - i,
    {
        attributes.push((e.attributes[i].0.clone(), e.attributes[i].1.clone()));
        i += 1;
    }
    Event { kind: e.kind.clone(), attributes }
}

/// Pointwise view equality between event lists.
pub open spec fn events_match(a: Seq<Event>, b: Seq<Event>) -> bool {
    &&& a.len() == b.len()
    &&& forall|i: int|
        0 <= i < a.len() ==> {
            &&& (#[trigger] a[i]).kind@ == b[i].kind@
            &&& a[i].attributes@.len() == b[i].attributes@.len()
            &&& forall|j: int|
                0 <= j < a[i].attributes@.len() ==> (#[trigger] a[i].attributes@[j]).0@
                    == b[i].attributes@[j].0@ && a[i].attributes@[j].1@ == b[i].attributes@[j].1@
        }
}

fn clone_events(events: &Vec<Event>) -> (r: Vec<Event>)
    ensures
        events_match(r@, events@),
{
    let n = events.len();
    let mut out: Vec<Event> = Vec::new();
    let mut i: usize = 0;
    while i < n
        invariant
            n == events@.len(),
            0 <= i <= n,
            out@.len() == i,
            events_match(out@, events@.take(i as int)),
        decreases n - i,
    {
        out.push(clone_event(&events[i]));
        i += 1;
    }
    proof {
        assert(events@.take(n as int) =~= events@);
    }
    out
}

impl Block {
    /// Replaces the block's transactions.
    pub fn set_transactions(&mut self, transactions: Vec<Transaction<RawMemo>>)
        ensures
            final(self).transactions == transactions,
            final(self).hash == old(self).hash,
            final(self).header == old(self).header,
            final(self).evidences == old(self).evidences,
            final(self).commit == old(self).commit,
            final(self).begin_events == old(self).begin_events,
            final(self).end_events == old(self).end_events,
            final(self).epoch == old(self).epoch,
    {
        self.transactions = transactions;
    }

    /// Copies the block's begin and end events out of its execution results.
    pub fn set_block_events(&mut self, block_result: &BlockResult)
        ensures
            events_match(final(self).begin_events@, block_result.begin_events@),
            events_match(final(self).end_events@, block_result.end_events@),
            final(self).transactions == old(self).transactions,
            final(self).hash == old(self).hash,
            final(self).header == old(self).header,
            final(self).evidences == old(self).evidences,
            final(self).commit == old(self).commit,
            final(self).epoch == old(self).epoch,
    {
        self.begin_events = clone_events(&block_result.begin_events);
        self.end_events = clone_events(&block_result.end_events);
    }

    pub fn set_epoch(&mut self, epoch: Epoch)
        ensures
            final(self).epoch == epoch,
            final(self).transactions == old(self).transactions,
            final(self).hash == old(self).hash,
            final(self).header == old(self).header,
            final(self).evidences == old(self).evidences,
            final(self).commit == old(self).commit,
            final(self).begin_events == old(self).begin_events,
            final(self).end_events == old(self).end_events,
    {
        self.epoch = epoch;
    }

    /// The stored rows for the block's transactions of known kind.
    pub fn to_transactions_db(&self) -> (r: Vec<TransactionDb>)
        ensures
            r@.len() == spec_storable_tx_indices(self.transactions@).len(),
            forall|k: int|
                0 <= k < r@.len() ==> spec_tx_row_matches(
                    self.transactions@[spec_storable_tx_indices(self.transactions@)[k]],
                    #[trigger] r@[k],
                    self.hash.text(),
                ),
    {
        let block_id = self.hash.to_string();
        let n = self.transactions.len();
        let mut out: Vec<TransactionDb> = Vec::new();
        let mut i: usize = 0;
        while i < n
            invariant
                n == self.transactions@.len(),
                0 <= i <= n,
                block_id@ == self.hash.text(),
                out@.len() == spec_storable_tx_indices(self.transactions@.take(i as int)).len(),
                forall|k: int|
                    0 <= k < out@.len() ==> {
                        let si = spec_storable_tx_indices(self.transactions@.take(i as int))[k];
                        &&& 0 <= si < i
                        &&& spec_tx_row_matches(
                            self.transactions@[si],
                            #[trigger] out@[k],
                            self.hash.text(),
                        )
                    },
            decreases n - i,
        {
            proof {
                lemma_storable_tx_indices_step(self.transactions@, i as int);
                lemma_storable_tx_indices_props(self.transactions@.take(i as int));
            }
            match self.transactions[i].to_transaction_db(block_id.as_str()) {
                Some(t) => {
                    out.push(t);
                },
                None => {},
            }
            i += 1;
        }
        proof {
            assert(self.transactions@.take(n as int) =~= self.transactions@);
        }
        out
    }

    /// The stored commit rows of the block, or none without a commit.
    pub fn to_commits_db(&self) -> (r: Vec<crate::orm::CommitInsertDb>)
        ensures
            match self.commit {
                None => r@.len() == 0,
                Some(c) => {
                    &&& r@.len() == crate::commit::spec_commit_sig_indices(c.signatures@).len()
                    &&& forall|k: int|
                        0 <= k < r@.len() ==> {
                            let si = crate::commit::spec_commit_sig_indices(c.signatures@)[k];
                            &&& (#[trigger] r@[k]).address@ == c.signatures@[si].address.text()
                            &&& match (c.signatures@[si].signature, r@[k].signature) {
                                (None, None) => true,
                                (Some(a), Some(b)) => a@ == b@,
                                _ => false,
                            }
                            &&& r@[k].block_id@ == self.hash.text()
                        }
                },
            },
    {
        let block_id = self.hash.to_string();
        match &self.commit {
            Some(commit) => commit.to_commits_db(block_id.as_str()),
            None => Vec::new(),
        }
    }

    /// One stored evidence row per piece of evidence.
    pub fn to_evidence_db(&self) -> (r: Vec<EvidenceInsertDb>)
        ensures
            r@.len() == self.evidences@.len(),
            forall|i: int|
                0 <= i < r@.len() ==> {
                    &&& (#[trigger] r@[i]).kind == match self.evidences@[i] {
                        EvidenceKind::DuplicateVote(_) => EvidenceKindDb::DuplicateVote,
                        EvidenceKind::LightClientAttack(_) => EvidenceKindDb::LightClientAttack,
                    }
                    &&& r@[i].validator_address@ == self.evidences@[i].spec_address()
                    &&& r@[i].block_id@ == self.hash.text()
                },
    {
        let block_id = self.hash.to_string();
        let n = self.evidences.len();
        let mut out: Vec<EvidenceInsertDb> = Vec::new();
        let mut i: usize = 0;
        while i < n
            invariant
                n == self.evidences@.len(),
                0 <= i <= n,
                block_id@ == self.hash.text(),
                out@.len() == i,
                forall|j: int|
                    0 <= j < i ==> {
                        &&& (#[trigger] out@[j]).kind == match self.evidences@[j] {
                            EvidenceKind::DuplicateVote(_) => EvidenceKindDb::DuplicateVote,
                            EvidenceKind::LightClientAttack(_) => EvidenceKindDb::LightClientAttack,
                        }
                        &&& out@[j].validator_address@ == self.evidences@[j].spec_address()
                        &&& out@[j].block_id@ == self.hash.text()
                    },
            decreases n - i,
        {
            let row = match &self.evidences[i] {
                EvidenceKind::DuplicateVote(address) => EvidenceInsertDb {
                    kind: EvidenceKindDb::DuplicateVote,
                    validator_address: address.clone(),
                    block_id: block_id.clone(),
                },
                EvidenceKind::LightClientAttack(address) => EvidenceInsertDb {
                    kind: EvidenceKindDb::LightClientAttack,
                    validator_address: address.clone(),
                    block_id: block_id.clone(),
                },
            };
            out.push(row);
            i += 1;
        }
        out
    }
}

} // verus!
