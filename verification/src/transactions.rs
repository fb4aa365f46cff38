//! The transaction-ingestion phase: reads the next window of indexed
//! transactions, classifies each, records the resulting tasks, evaluates the
//! non-transactional tasks, and advances the checkpoint.

use vstd::prelude::*;

use crate::context::Context;
use crate::db::Db;
use crate::db::ingest_writes_only;
use crate::db::spec_checkpoint_height;
use crate::last_state::compute_task_heights_to_process;
use crate::last_state::spec_crawler_max;
use crate::last_state::update_last_processed_tasks_block;
use crate::orm::TransactionDb;
use crate::seq_util::copy_bytes;
use crate::db::spec_find_block_by_id;
use crate::orm::BlockDb;
use crate::orm::TaskDb;
use crate::orm::UnidentifiedTaskDb;
use crate::tasks::TaskInput;
use crate::tasks::TaskInsertion;
use crate::tasks::lemma_classify_row;
use crate::tasks::spec_classify_row;
use crate::tasks::spec_insert_task;
use crate::tasks::spec_insert_unidentified;
use crate::laws::lemma_classifier_deterministic;
use crate::tasks::TransferDecode;
use crate::tasks::TxPayloads;
use crate::tasks::VoteDecode;
use crate::tasks::update_task_statuses;
use crate::transaction::Transaction;

verus! {

/// Each ingest pass covers at most this many block heights.
pub const MAX_HEIGHTS_PER_PASS: i64 = 1000;

/// The decoded payload facts for the transactions of a window, keyed by
/// transaction id.  The chain's own codec computes them from the stored
/// payload bytes, outside this library; a transaction without an entry reads
/// as undecodable.
pub struct PayloadOracle {
    pub entries: Vec<(String, TxPayloads)>,
}

/// The decode outcome the oracle records for a transaction: the first entry
/// under its id, or undecodable without one.
pub open spec fn spec_oracle_lookup(entries: Seq<(String, TxPayloads)>, id: Seq<char>) -> TxPayloads
    decreases entries.len(),
{
    if entries.len() == 0 {
        TxPayloads { transfer: TransferDecode::Undecodable, vote: VoteDecode::Undecodable }
    } else if entries.first().0@ == id {
        entries.first().1
    } else {
        spec_oracle_lookup(entries.drop_first(), id)
    }
}

proof fn lemma_oracle_lookup_found(entries: Seq<(String, TxPayloads)>, id: Seq<char>, i: int)
    requires
        0 <= i < entries.len(),
        entries[i].0@ == id,
        forall|j: int| 0 <= j < i ==> entries[j].0@ != id,
    ensures
        spec_oracle_lookup(entries, id) == entries[i].1,
    decreases entries.len(),
{
    if i > 0 {
        let t = entries.drop_first();
        assert(t[i - 1] == entries[i]);
        assert forall|j: int| 0 <= j < i - 1 implies t[j].0@ != id by {
            assert(t[j] == entries[j + 1]);
        }
        lemma_oracle_lookup_found(t, id, i - 1);
    }
}

proof fn lemma_oracle_lookup_none(entries: Seq<(String, TxPayloads)>, id: Seq<char>)
    requires
        forall|j: int| 0 <= j < entries.len() ==> entries[j].0@ != id,
    ensures
        spec_oracle_lookup(entries, id) == (TxPayloads {
            transfer: TransferDecode::Undecodable,
            vote: VoteDecode::Undecodable,
        }),
    decreases entries.len(),
{
    if entries.len() > 0 {
        let t = entries.drop_first();
        assert forall|j: int| 0 <= j < t.len() implies t[j].0@ != id by {
            assert(t[j] == entries[j + 1]);
        }
        lemma_oracle_lookup_none(t, id);
    }
}

impl PayloadOracle {
    /// The decode outcome recorded for a transaction, or undecodable.
    pub fn get(&self, tx_id: &String) -> (r: TxPayloads)
        ensures
            r == spec_oracle_lookup(self.entries@, tx_id@),
    {
        let n = self.entries.len();
        let mut i: usize = 0;
        while i < n
            invariant
                n == self.entries@.len(),
                0 <= i <= n,
                forall|j: int| 0 <= j < i ==> self.entries@[j].0@ != tx_id@,
            decreases n - i,
        {
            if self.entries[i].0 == *tx_id {
                proof {
                    lemma_oracle_lookup_found(self.entries@, tx_id@, i as int);
                }
                return clone_payloads(&self.entries[i].1);
            }
            i += 1;
        }
        proof {
            lemma_oracle_lookup_none(self.entries@, tx_id@);
        }
        TxPayloads { transfer: TransferDecode::Undecodable, vote: VoteDecode::Undecodable }
    }
}

fn clone_payloads(p: &TxPayloads) -> (r: TxPayloads)
    ensures
        r == *p,
{
    TxPayloads {
        transfer: match &p.transfer {
            TransferDecode::Transfer { source, target } => TransferDecode::Transfer {
                source: source.clone(),
                target: target.clone(),
            },
            TransferDecode::Undecodable => TransferDecode::Undecodable,
        },
        vote: p.vote,
    }
}

fn clone_transaction_db(t: &TransactionDb) -> (r: TransactionDb)
    ensures
        r.id == t.id,
        match (&t.inner_hash, &r.inner_hash) {
            (None, None) => true,
            (Some(a), Some(b)) => a == b,
            _ => false,
        },
        r.index == t.index,
        r.kind == t.kind,
        match (&t.associated_data, &r.associated_data) {
            (None, None) => true,
            (Some(a), Some(b)) => a@ == b@,
            _ => false,
        },
        r.exit_status == t.exit_status,
        r.gas_used == t.gas_used,
        r.block_id == t.block_id,
        match (&t.memo, &r.memo) {
            (None, None) => true,
            (Some(a), Some(b)) => a@ == b@,
            _ => false,
        },
{
    TransactionDb {
        id: t.id.clone(),
        inner_hash: match &t.inner_hash {
            Some(h) => Some(h.clone()),
            None => None,
        },
        index: t.index,
        kind: t.kind,
        associated_data: match &t.associated_data {
            Some(v) => Some(copy_bytes(v.as_slice())),
            None => None,
        },
        exit_status: t.exit_status,
        gas_used: t.gas_used,
        block_id: t.block_id.clone(),
        memo: match &t.memo {
            Some(v) => Some(copy_bytes(v.as_slice())),
            None => None,
        },
    }
}

/// Whether a stored transaction sits in a block of the height window.
pub open spec fn spec_tx_in_window(
    blocks: Seq<BlockDb>,
    row: TransactionDb,
    start: int,
    end: int,
) -> bool {
    match spec_find_block_by_id(blocks, row.block_id@) {
        Some(bi) => start <= blocks[bi].height && blocks[bi].height <= end,
        None => false,
    }
}

/// The task ledgers after classifying a prefix of the transactions table:
/// every transaction in a block of the window is classified against the
/// snapshot and its decoded payloads, and the resulting task recorded.
pub open spec fn spec_ingest_ledgers(
    db: Db,
    cx: Context,
    oracle: Seq<(String, TxPayloads)>,
    prefix: Seq<TransactionDb>,
    start: int,
    end: int,
    tasks: Seq<TaskDb>,
    unidentified: Seq<UnidentifiedTaskDb>,
) -> (Seq<TaskDb>, Seq<UnidentifiedTaskDb>)
    decreases prefix.len(),
{
    if prefix.len() == 0 {
        (tasks, unidentified)
    } else {
        let acc = spec_ingest_ledgers(
            db,
            cx,
            oracle,
            prefix.drop_last(),
            start,
            end,
            tasks,
            unidentified,
        );
        let row = prefix.last();
        if spec_tx_in_window(db.blocks@, row, start, end) {
            match spec_classify_row(db, cx, row, spec_oracle_lookup(oracle, row.id@)) {
                None => acc,
                Some(TaskInsertion::Identified(t)) => (spec_insert_task(acc.0, t), acc.1),
                Some(TaskInsertion::Unidentified(u)) => (
                    acc.0,
                    spec_insert_unidentified(acc.1, u),
                ),
            }
        } else {
            acc
        }
    }
}

proof fn lemma_ingest_ledgers_step(
    db: Db,
    cx: Context,
    oracle: Seq<(String, TxPayloads)>,
    src: Seq<TransactionDb>,
    start: int,
    end: int,
    tasks: Seq<TaskDb>,
    unidentified: Seq<UnidentifiedTaskDb>,
    i: int,
)
    requires
        0 <= i < src.len(),
    ensures
        spec_ingest_ledgers(db, cx, oracle, src.take(i + 1), start, end, tasks, unidentified) == ({
            let acc = spec_ingest_ledgers(db, cx, oracle, src.take(i), start, end, tasks, unidentified);
            let row = src[i];
            if spec_tx_in_window(db.blocks@, row, start, end) {
                match spec_classify_row(db, cx, row, spec_oracle_lookup(oracle, row.id@)) {
                    None => acc,
                    Some(TaskInsertion::Identified(t)) => (spec_insert_task(acc.0, t), acc.1),
                    Some(TaskInsertion::Unidentified(u)) => (
                        acc.0,
                        spec_insert_unidentified(acc.1, u),
                    ),
                }
            } else {
                acc
            }
        }),
{
    assert(src.take(i + 1).drop_last() =~= src.take(i));
    assert(src.take(i + 1).last() == src[i]);
}

/// The top of the window an ingest pass covers, holding each pass to at most
/// `MAX_HEIGHTS_PER_PASS` heights.
pub open spec fn spec_capped_end(start: int, end: int) -> int {
    if end - start > MAX_HEIGHTS_PER_PASS {
        start + MAX_HEIGHTS_PER_PASS
    } else {
        end
    }
}

/// Processes the next window of indexed transactions: every transaction in a
/// block of the window is classified and its task recorded.  Returns the
/// height the checkpoint should advance to, or nothing when the indexer has
/// not moved.  The ledgers only ever grow.
#[verifier::loop_isolation(false)]
pub fn process_last_transactions(db: &mut Db, cx: &mut Context, payloads: &PayloadOracle) -> (r:
    Option<i32>)
    requires
        old(db).wf(),
        old(cx).player_kinds.coherent(old(db).players@),
    ensures
        final(db).wf(),
        final(cx).player_kinds.coherent(final(db).players@),
        old(cx).config_eq(&*final(cx)),
        ingest_writes_only(*old(db), *final(db)),
        final(db).task_completion_state == old(db).task_completion_state,
        old(db).tasks@.is_prefix_of(final(db).tasks@),
        old(db).unidentified_tasks@.is_prefix_of(final(db).unidentified_tasks@),
        match r {
            Some(end) => {
                let start = spec_checkpoint_height(*old(db)) + 1;
                let ledgers = spec_ingest_ledgers(
                    *old(db),
                    *old(cx),
                    payloads.entries@,
                    old(db).transactions@,
                    start,
                    end as int,
                    old(db).tasks@,
                    old(db).unidentified_tasks@,
                );
                &&& spec_crawler_max(old(db).crawler_state@) > spec_checkpoint_height(*old(db))
                &&& end as int == spec_capped_end(
                    start,
                    spec_crawler_max(old(db).crawler_state@) as int,
                )
                &&& final(db).tasks@ == ledgers.0
                &&& final(db).unidentified_tasks@ == ledgers.1
            },
            None => spec_crawler_max(old(db).crawler_state@) <= spec_checkpoint_height(*old(db))
                && final(db).tasks@ == old(db).tasks@ && final(db).unidentified_tasks@ == old(
                db,
            ).unidentified_tasks@,
        },
{
    let (starting_height, mut ending_height) = match compute_task_heights_to_process(&*db) {
        Some(w) => w,
        None => {
            return None;
        },
    };

    if (ending_height as i64) - (starting_height as i64) > MAX_HEIGHTS_PER_PASS {
        ending_height = starting_height + (MAX_HEIGHTS_PER_PASS as i32);
    }

    let n = db.transactions.len();
    let mut i: usize = 0;
    while i < n
        invariant
            n == db.transactions@.len(),
            0 <= i <= n,
            db.wf(),
            cx.player_kinds.coherent(db.players@),
            old(cx).config_eq(&*cx),
            ingest_writes_only(*old(db), *db),
            db.task_completion_state == old(db).task_completion_state,
            old(db).tasks@.is_prefix_of(db.tasks@),
            old(db).unidentified_tasks@.is_prefix_of(db.unidentified_tasks@),
            ({
                let ledgers = spec_ingest_ledgers(
                    *old(db),
                    *old(cx),
                    payloads.entries@,
                    old(db).transactions@.take(i as int),
                    starting_height as int,
                    ending_height as int,
                    old(db).tasks@,
                    old(db).unidentified_tasks@,
                );
                db.tasks@ == ledgers.0 && db.unidentified_tasks@ == ledgers.1
            }),
        decreases n - i,
    {
        proof {
            lemma_ingest_ledgers_step(
                *old(db),
                *old(cx),
                payloads.entries@,
                old(db).transactions@,
                starting_height as int,
                ending_height as int,
                old(db).tasks@,
                old(db).unidentified_tasks@,
                i as int,
            );
        }
        let in_range = match db.find_block_by_id(db.transactions[i].block_id.as_str()) {
            Some(bi) => db.blocks[bi].height >= starting_height && db.blocks[bi].height
                <= ending_height,
            None => false,
        };
        if in_range {
            let row = clone_transaction_db(&db.transactions[i]);
            let tx_id = row.id.clone();
            let tx = Transaction::from(row);
            match tx.try_parse_memo() {
                Err(_) => {
                    proof {
                        assert(spec_classify_row(
                            *old(db),
                            *old(cx),
                            old(db).transactions@[i as int],
                            spec_oracle_lookup(
                                payloads.entries@,
                                old(db).transactions@[i as int].id@,
                            ),
                        ) is None);
                    }
                },
                Ok(tx) => {
                    let tx_payloads = payloads.get(&tx_id);
                    let ghost tx_value = tx;
                    let ghost payloads_value = tx_payloads;
                    let ghost db_before = *db;
                    let ghost cx_before = *cx;
                    update_task_statuses(
                        db,
                        cx,
                        TaskInput::Transaction { tx, payloads: tx_payloads },
                    );
                    proof {
                        lemma_classifier_deterministic(
                            db_before,
                            *old(db),
                            cx_before,
                            *old(cx),
                            tx_value,
                            payloads_value,
                        );
                        lemma_classify_row(
                            *old(db),
                            *old(cx),
                            old(db).transactions@[i as int],
                            tx_value,
                            payloads_value,
                        );
                        assert(old(db).tasks@.is_prefix_of(db.tasks@));
                        assert(old(db).unidentified_tasks@.is_prefix_of(db.unidentified_tasks@));
                    }
                },
            }
        }
        i += 1;
    }
    proof {
        assert(old(db).transactions@.take(n as int) =~= old(db).transactions@);
    }

    Some(ending_height)
}

/// One whole task-ingestion pass: the transaction window, the pilot tasks,
/// the manual-task copy-through, and the checkpoint.  The checkpoint height
/// never decreases.
pub fn process_new_tasks(db: &mut Db, cx: &mut Context, payloads: &PayloadOracle, now: i64)
    requires
        old(db).wf(),
        old(cx).player_kinds.coherent(old(db).players@),
    ensures
        final(db).wf(),
        final(cx).player_kinds.coherent(final(db).players@),
        old(cx).config_eq(&*final(cx)),
        ingest_writes_only(*old(db), *final(db)),
        old(db).tasks@.is_prefix_of(final(db).tasks@),
        old(db).unidentified_tasks@.is_prefix_of(final(db).unidentified_tasks@),
        spec_checkpoint_height(*final(db)) >= spec_checkpoint_height(*old(db)),
        ({
            let chk = spec_checkpoint_height(*old(db));
            let crawler = spec_crawler_max(old(db).crawler_state@) as int;
            let ledgers = if crawler > chk {
                spec_ingest_ledgers(
                    *old(db),
                    *old(cx),
                    payloads.entries@,
                    old(db).transactions@,
                    chk + 1,
                    spec_capped_end(chk + 1, crawler),
                    old(db).tasks@,
                    old(db).unidentified_tasks@,
                )
            } else {
                (old(db).tasks@, old(db).unidentified_tasks@)
            };
            let after_pilots = crate::tasks::spec_pilot_marks_on(
                old(db).players@,
                old(db).tm_addresses@,
                old(db).commits@,
                old(db).blocks@,
                old(cx).genesis_time,
                old(cx).epochs.v1_to_v2,
                ledgers.0,
            );
            &&& final(db).tasks@ == crate::tasks::spec_tasks_after_manual(
                after_pilots,
                old(db).manual_tasks@,
            )
            &&& final(db).unidentified_tasks@ == ledgers.1
            &&& if crawler > chk {
                final(db).task_completion_state matches Some(st) && st.id == 0
                    && st.last_processed_time == now && st.last_processed_height as int
                    == spec_capped_end(chk + 1, crawler)
            } else {
                final(db).task_completion_state == old(db).task_completion_state
            }
        }),
{
    let new_block_height = process_last_transactions(db, cx, payloads);

    let ghost db_mid = *db;
    let ghost cx_mid = *cx;
    update_task_statuses(db, cx, TaskInput::Pilot);
    proof {
        crate::tasks::lemma_pilot_marks_prefix(db_mid, cx_mid);
        assert(old(db).tasks@.is_prefix_of(db.tasks@));
    }
    let ghost tasks_mid2 = db.tasks@;
    update_task_statuses(db, cx, TaskInput::SpecialTasks);
    proof {
        crate::tasks::lemma_manual_tasks_prefix(tasks_mid2, db_mid.manual_tasks@);
        assert(old(db).tasks@.is_prefix_of(db.tasks@));
    }

    match new_block_height {
        Some(block) => {
            update_last_processed_tasks_block(db, block, now);
        },
        None => {},
    }
}

} // verus!
