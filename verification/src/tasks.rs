//! Transaction classification and task bookkeeping: mapping each ingested
//! transaction to at most one identified or unidentified task, evaluating the
//! pilot tasks that are not tied to a transaction, and copying the curated
//! manual tasks through.

use vstd::prelude::*;

use crate::context::Context;
use crate::db::Db;
use crate::db::has_player;
use crate::db::has_task;
use crate::db::has_unidentified;
use crate::db::ingest_writes_only;
use crate::db::lemma_find_player_props;
use crate::db::lemma_player_witness;
use crate::db::player_kind_of;
use crate::db::spec_find_block_by_height;
use crate::db::spec_find_block_by_id;
use crate::db::spec_find_proposal;
use crate::db::spec_find_transaction;
use crate::db::spec_is_banned;
use crate::db::spec_next_row_id;
use crate::orm::BlockDb;
use crate::orm::CommitDb;
use crate::orm::PlayerDb;
use crate::orm::TaskDb;
use crate::orm::TmAddressDb;
use crate::orm::GovernanceProposalKindDb;
use crate::orm::PlayerKindDb;
use crate::orm::TaskInsertDb;
use crate::orm::TaskTypeDb;
use crate::orm::TransactionDb;
use crate::orm::TransactionKindDb;
use crate::orm::UnidentifiedTaskDb;
use crate::orm::UnidentifiedTaskInsertDb;
use crate::player::PlayerId;
use crate::transaction::Transaction;
use crate::transaction::TransactionKind;
use crate::transaction::spec_kind_to_db;

verus! {

/// Proposal ids whose votes count as votes for the first upgrade regardless
/// of what the proposals table holds.
pub const FIRST_UPGRADE_VOTE_PROPOSAL_ID: u64 = 316;

pub const SECOND_UPGRADE_VOTE_PROPOSAL_ID: u64 = 385;

/// Which class of player can complete a task or transaction kind.
#[derive(Clone, Copy, Debug, PartialEq, Eq, Structural)]
pub enum CompletableBy {
    NoOne,
    OnlyCrew,
    OnlyPilots,
    DependsOnPlayerKind,
}

/// A task-catalog entry or a raw transaction kind, whichever a classification
/// lands on.
#[derive(Clone, Copy, Debug, PartialEq, Eq, Structural)]
pub enum TaskOrTxKind {
    Tx(TransactionKindDb),
    Task(TaskTypeDb),
}

/// The row a classified transaction asks to insert.
#[derive(Clone, Debug)]
pub enum TaskInsertion {
    Unidentified(UnidentifiedTaskInsertDb),
    Identified(TaskInsertDb),
}

/// What the chain's own codec read out of a transaction's payload bytes.
/// Decoding runs through the chain's libraries outside this crate; the
/// classifier only consumes the outcome.
#[derive(Clone, Debug)]
pub enum TransferDecode {
    Transfer { source: String, target: String },
    Undecodable,
}

#[derive(Clone, Copy, Debug, PartialEq, Eq, Structural)]
pub enum VoteDecode {
    Vote { proposal_id: u64 },
    Undecodable,
}

/// The decoded payload facts for one transaction.
#[derive(Clone, Debug)]
pub struct TxPayloads {
    pub transfer: TransferDecode,
    pub vote: VoteDecode,
}

pub open spec fn spec_completable_by(kind: TaskOrTxKind) -> CompletableBy {
    match kind {
        TaskOrTxKind::Tx(tx_type) => match tx_type {
            TransactionKindDb::Unknown => CompletableBy::NoOne,
            _ => CompletableBy::DependsOnPlayerKind,
        },
        TaskOrTxKind::Task(task_type) => match task_type {
            TaskTypeDb::DelegateStakeOnV0
            | TaskTypeDb::DelegateStakeOnV1
            | TaskTypeDb::ClaimPosRewards
            | TaskTypeDb::ShieldNaan
            | TaskTypeDb::UnshieldNaan
            | TaskTypeDb::ShieldToShielded
            | TaskTypeDb::ShieldAssetOverIbc => CompletableBy::OnlyCrew,
            TaskTypeDb::SubmitPreGenesisBondTx
            | TaskTypeDb::StartNode5MinFromGenesis
            | TaskTypeDb::InitPostGenesisValidator
            | TaskTypeDb::InValidatorSetFor1Epoch
            | TaskTypeDb::VotePgfStewardProposal
            | TaskTypeDb::VoteUpgradeV0ToV1
            | TaskTypeDb::VoteUpgradeV1ToV2
            | TaskTypeDb::SignFirstBlockOfUpgradeToV2
            | TaskTypeDb::Keep99PerCentUptime
            | TaskTypeDb::Keep95PerCentUptime
            | TaskTypeDb::Keep99PerCentGovParticipationRate
            | TaskTypeDb::Keep90PerCentGovParticipationRate => CompletableBy::OnlyPilots,
            _ => CompletableBy::DependsOnPlayerKind,
        },
    }
}

impl CompletableBy {
    /// The eligibility class of a task or transaction kind.
    pub fn check(task_type: TaskOrTxKind) -> (r: Self)
        ensures
            r == spec_completable_by(task_type),
    {
        match task_type {
            TaskOrTxKind::Tx(tx_type) => match tx_type {
                TransactionKindDb::Unknown => CompletableBy::NoOne,
                _ => CompletableBy::DependsOnPlayerKind,
            },
            TaskOrTxKind::Task(task_type) => match task_type {
                TaskTypeDb::DelegateStakeOnV0
                | TaskTypeDb::DelegateStakeOnV1
                | TaskTypeDb::ClaimPosRewards
                | TaskTypeDb::ShieldNaan
                | TaskTypeDb::UnshieldNaan
                | TaskTypeDb::ShieldToShielded
                | TaskTypeDb::ShieldAssetOverIbc => CompletableBy::OnlyCrew,
                TaskTypeDb::SubmitPreGenesisBondTx
                | TaskTypeDb::StartNode5MinFromGenesis
                | TaskTypeDb::InitPostGenesisValidator
                | TaskTypeDb::InValidatorSetFor1Epoch
                | TaskTypeDb::VotePgfStewardProposal
                | TaskTypeDb::VoteUpgradeV0ToV1
                | TaskTypeDb::VoteUpgradeV1ToV2
                | TaskTypeDb::SignFirstBlockOfUpgradeToV2
                | TaskTypeDb::Keep99PerCentUptime
                | TaskTypeDb::Keep95PerCentUptime
                | TaskTypeDb::Keep99PerCentGovParticipationRate
                | TaskTypeDb::Keep90PerCentGovParticipationRate => CompletableBy::OnlyPilots,
                _ => CompletableBy::DependsOnPlayerKind,
            },
        }
    }
}

/// The kind a transaction classifies to before the eligibility check, or
/// `None` where the transaction is skipped: an undecodable payload, a bond
/// whose block is unknown, or a vote for an unknown proposal.
pub open spec fn spec_classify_kind(
    db: Db,
    cx: Context,
    tx: Transaction<PlayerId>,
    payloads: TxPayloads,
) -> Option<TaskOrTxKind> {
    match tx.kind {
        TransactionKind::Bond(_) => match spec_find_transaction(db.transactions@, tx.hash.text()) {
            None => None,
            Some(ti) => match spec_find_block_by_id(db.blocks@, db.transactions@[ti].block_id@) {
                None => None,
                Some(bi) => {
                    let epoch = db.blocks@[bi].epoch;
                    if (epoch as int) < (cx.epochs.v0_to_v1 as int) {
                        Some(TaskOrTxKind::Task(TaskTypeDb::DelegateStakeOnV0))
                    } else if (epoch as int) < (cx.epochs.v1_to_v2 as int) {
                        Some(TaskOrTxKind::Task(TaskTypeDb::DelegateStakeOnV1))
                    } else {
                        Some(TaskOrTxKind::Tx(TransactionKindDb::Bond))
                    }
                },
            },
        },
        TransactionKind::IbcShieldedTransfer(_) => Some(
            TaskOrTxKind::Task(TaskTypeDb::ShieldAssetOverIbc),
        ),
        TransactionKind::ShieldedTransfer(_) => match payloads.transfer {
            TransferDecode::Undecodable => None,
            TransferDecode::Transfer { source, target } => {
                let masp = cx.address_book.inner.masp@;
                let naan = cx.address_book.inner.naan@;
                if source@ == masp && target@ == masp {
                    Some(TaskOrTxKind::Task(TaskTypeDb::ShieldToShielded))
                } else if target@ == masp && source@ == naan {
                    Some(TaskOrTxKind::Task(TaskTypeDb::ShieldNaan))
                } else if source@ == masp && target@ == naan {
                    Some(TaskOrTxKind::Task(TaskTypeDb::UnshieldNaan))
                } else {
                    Some(TaskOrTxKind::Tx(TransactionKindDb::ShieldedTransfer))
                }
            },
        },
        TransactionKind::BecomeValidator(_) => Some(
            TaskOrTxKind::Task(TaskTypeDb::InitPostGenesisValidator),
        ),
        TransactionKind::ClaimRewards(_) => Some(TaskOrTxKind::Task(TaskTypeDb::ClaimPosRewards)),
        TransactionKind::ProposalVote(_) => match payloads.vote {
            VoteDecode::Undecodable => None,
            VoteDecode::Vote { proposal_id } => {
                if proposal_id == FIRST_UPGRADE_VOTE_PROPOSAL_ID || proposal_id
                    == SECOND_UPGRADE_VOTE_PROPOSAL_ID {
                    Some(TaskOrTxKind::Task(TaskTypeDb::VoteUpgradeV0ToV1))
                } else {
                    match spec_find_proposal(db.governance_proposals@, proposal_id) {
                        None => None,
                        Some(gi) => {
                            let g = db.governance_proposals@[gi];
                            if g.kind == GovernanceProposalKindDb::PgfSteward {
                                Some(TaskOrTxKind::Task(TaskTypeDb::VotePgfStewardProposal))
                            } else if g.author@ != cx.address_book.inner.upgrade_proposer@ {
                                Some(TaskOrTxKind::Tx(TransactionKindDb::ProposalVote))
                            } else if (g.grace_epoch as int) == (cx.epochs.v0_to_v1 as int) {
                                Some(TaskOrTxKind::Task(TaskTypeDb::VoteUpgradeV0ToV1))
                            } else if (g.grace_epoch as int) == (cx.epochs.v1_to_v2 as int) {
                                Some(TaskOrTxKind::Task(TaskTypeDb::VoteUpgradeV1ToV2))
                            } else {
                                Some(TaskOrTxKind::Tx(TransactionKindDb::ProposalVote))
                            }
                        },
                    }
                }
            },
        },
        _ => Some(TaskOrTxKind::Tx(spec_kind_to_db(&tx.kind))),
    }
}

pub open spec fn spec_make_insertion(kind: TaskOrTxKind, player_id: String) -> TaskInsertion {
    match kind {
        TaskOrTxKind::Task(task) => TaskInsertion::Identified(TaskInsertDb { task, player_id }),
        TaskOrTxKind::Tx(tx_kind) => TaskInsertion::Unidentified(
            UnidentifiedTaskInsertDb { tx_kind, player_id },
        ),
    }
}

/// What the classifier produces for a transaction against a store snapshot:
/// a function of the snapshot, the pass configuration, the transaction and
/// its decoded payloads, and nothing else.
pub open spec fn spec_classify(
    db: Db,
    cx: Context,
    tx: Transaction<PlayerId>,
    payloads: TxPayloads,
) -> Option<TaskInsertion> {
    match tx.memo {
        None => None,
        Some(pid) => {
            if !has_player(db.players@, pid.0@) {
                None
            } else {
                match spec_classify_kind(db, cx, tx, payloads) {
                    None => None,
                    Some(chosen) => {
                        let pk = player_kind_of(db.players@, pid.0@);
                        match spec_completable_by(chosen) {
                            CompletableBy::NoOne => None,
                            CompletableBy::DependsOnPlayerKind => Some(
                                spec_make_insertion(chosen, pid.0),
                            ),
                            CompletableBy::OnlyCrew => {
                                if pk == Some(PlayerKindDb::Crew) {
                                    Some(spec_make_insertion(chosen, pid.0))
                                } else {
                                    Some(
                                        TaskInsertion::Unidentified(
                                            UnidentifiedTaskInsertDb {
                                                tx_kind: spec_kind_to_db(&tx.kind),
                                                player_id: pid.0,
                                            },
                                        ),
                                    )
                                }
                            },
                            CompletableBy::OnlyPilots => {
                                if pk == Some(PlayerKindDb::Pilot) {
                                    Some(spec_make_insertion(chosen, pid.0))
                                } else {
                                    Some(
                                        TaskInsertion::Unidentified(
                                            UnidentifiedTaskInsertDb {
                                                tx_kind: spec_kind_to_db(&tx.kind),
                                                player_id: pid.0,
                                            },
                                        ),
                                    )
                                }
                            },
                        }
                    },
                }
            }
        },
    }
}

/// Classifies one transaction: the memo must name an enrolled player, the
/// kind is resolved against the snapshot, and class eligibility can downgrade
/// the result to an unidentified task.
pub fn compute_insertable_task_from_tx(
    db: &Db,
    cx: &mut Context,
    transaction: &Transaction<PlayerId>,
    payloads: &TxPayloads,
) -> (r: Option<TaskInsertion>)
    requires
        old(cx).player_kinds.coherent(db.players@),
    ensures
        final(cx).player_kinds.coherent(db.players@),
        old(cx).config_eq(&*final(cx)),
        r == spec_classify(*db, *old(cx), *transaction, *payloads),
{
    let player_id: &String = match &transaction.memo {
        Some(PlayerId(player_id)) => player_id,
        None => {
            return None;
        },
    };

    if db.find_player(player_id.as_str()).is_none() {
        return None;
    }

    let chosen: TaskOrTxKind = match &transaction.kind {
        TransactionKind::Bond(_) => {
            let tx_id = transaction.hash.to_string();
            let ti = match db.find_transaction_by_id(tx_id.as_str()) {
                Some(ti) => ti,
                None => {
                    return None;
                },
            };
            let bi = match db.find_block_by_id(db.transactions[ti].block_id.as_str()) {
                Some(bi) => bi,
                None => {
                    return None;
                },
            };
            let epoch = db.blocks[bi].epoch;
            if (epoch as i64) < (cx.epochs.v0_to_v1 as i64) {
                TaskOrTxKind::Task(TaskTypeDb::DelegateStakeOnV0)
            } else if (epoch as i64) < (cx.epochs.v1_to_v2 as i64) {
                TaskOrTxKind::Task(TaskTypeDb::DelegateStakeOnV1)
            } else {
                TaskOrTxKind::Tx(TransactionKindDb::Bond)
            }
        },
        TransactionKind::IbcShieldedTransfer(_) => TaskOrTxKind::Task(
            TaskTypeDb::ShieldAssetOverIbc,
        ),
        TransactionKind::ShieldedTransfer(_) => match &payloads.transfer {
            TransferDecode::Undecodable => {
                return None;
            },
            TransferDecode::Transfer { source, target } => {
                let masp = &cx.address_book.inner.masp;
                let naan = &cx.address_book.inner.naan;
                if *source == *masp && *target == *masp {
                    TaskOrTxKind::Task(TaskTypeDb::ShieldToShielded)
                } else if *target == *masp && *source == *naan {
                    TaskOrTxKind::Task(TaskTypeDb::ShieldNaan)
                } else if *source == *masp && *target == *naan {
                    TaskOrTxKind::Task(TaskTypeDb::UnshieldNaan)
                } else {
                    TaskOrTxKind::Tx(TransactionKindDb::ShieldedTransfer)
                }
            },
        },
        TransactionKind::BecomeValidator(_) => TaskOrTxKind::Task(
            TaskTypeDb::InitPostGenesisValidator,
        ),
        TransactionKind::ClaimRewards(_) => TaskOrTxKind::Task(TaskTypeDb::ClaimPosRewards),
        TransactionKind::ProposalVote(_) => match &payloads.vote {
            VoteDecode::Undecodable => {
                return None;
            },
            VoteDecode::Vote { proposal_id } => {
                let proposal_id = *proposal_id;
                if proposal_id == FIRST_UPGRADE_VOTE_PROPOSAL_ID || proposal_id
                    == SECOND_UPGRADE_VOTE_PROPOSAL_ID {
                    TaskOrTxKind::Task(TaskTypeDb::VoteUpgradeV0ToV1)
                } else {
                    let gi = match db.find_proposal(proposal_id) {
                        Some(gi) => gi,
                        None => {
                            return None;
                        },
                    };
                    let proposal = &db.governance_proposals[gi];
                    if proposal.kind == GovernanceProposalKindDb::PgfSteward {
                        TaskOrTxKind::Task(TaskTypeDb::VotePgfStewardProposal)
                    } else if proposal.author != cx.address_book.inner.upgrade_proposer {
                        TaskOrTxKind::Tx(TransactionKindDb::ProposalVote)
                    } else if (proposal.grace_epoch as i64) == (cx.epochs.v0_to_v1 as i64) {
                        TaskOrTxKind::Task(TaskTypeDb::VoteUpgradeV0ToV1)
                    } else if (proposal.grace_epoch as i64) == (cx.epochs.v1_to_v2 as i64) {
                        TaskOrTxKind::Task(TaskTypeDb::VoteUpgradeV1ToV2)
                    } else {
                        TaskOrTxKind::Tx(TransactionKindDb::ProposalVote)
                    }
                }
            },
        },
        _ => TaskOrTxKind::Tx(TransactionKindDb::from(&transaction.kind)),
    };

    match CompletableBy::check(chosen) {
        CompletableBy::DependsOnPlayerKind => {},
        CompletableBy::NoOne => {
            return None;
        },
        CompletableBy::OnlyCrew => {
            let player_kind = match cx.player_kinds.get_or_update(player_id.as_str(), db) {
                Ok(k) => k,
                Err(_) => {
                    return None;
                },
            };
            if player_kind != PlayerKindDb::Crew {
                return Some(
                    TaskInsertion::Unidentified(
                        UnidentifiedTaskInsertDb {
                            player_id: player_id.clone(),
                            tx_kind: TransactionKindDb::from(&transaction.kind),
                        },
                    ),
                );
            }
        },
        CompletableBy::OnlyPilots => {
            let player_kind = match cx.player_kinds.get_or_update(player_id.as_str(), db) {
                Ok(k) => k,
                Err(_) => {
                    return None;
                },
            };
            if player_kind != PlayerKindDb::Pilot {
                return Some(
                    TaskInsertion::Unidentified(
                        UnidentifiedTaskInsertDb {
                            player_id: player_id.clone(),
                            tx_kind: TransactionKindDb::from(&transaction.kind),
                        },
                    ),
                );
            }
        },
    }

    Some(
        match chosen {
            TaskOrTxKind::Task(task) => TaskInsertion::Identified(
                TaskInsertDb { task, player_id: player_id.clone() },
            ),
            TaskOrTxKind::Tx(tx_kind) => TaskInsertion::Unidentified(
                UnidentifiedTaskInsertDb { tx_kind, player_id: player_id.clone() },
            ),
        },
    )
}


/// The ledger with `(player, task)` recorded, if it was not already.
pub open spec fn spec_insert_task(tasks: Seq<TaskDb>, t: TaskInsertDb) -> Seq<TaskDb> {
    if has_task(tasks, t.player_id@, t.task) {
        tasks
    } else {
        tasks.push(TaskDb { id: spec_next_row_id(tasks.len() as int), task: t.task, player_id: t.player_id })
    }
}

pub open spec fn spec_insert_unidentified(
    rows: Seq<UnidentifiedTaskDb>,
    u: UnidentifiedTaskInsertDb,
) -> Seq<UnidentifiedTaskDb> {
    if has_unidentified(rows, u.player_id@, u.tx_kind) {
        rows
    } else {
        rows.push(
            UnidentifiedTaskDb {
                id: spec_next_row_id(rows.len() as int),
                tx_kind: u.tx_kind,
                player_id: u.player_id,
            },
        )
    }
}

/// What recording one classified transaction does to the store.
pub open spec fn tx_mark_post(
    old_db: Db,
    new_db: Db,
    cx: Context,
    tx: Transaction<PlayerId>,
    payloads: TxPayloads,
) -> bool {
    &&& ingest_writes_only(old_db, new_db)
    &&& new_db.task_completion_state == old_db.task_completion_state
    &&& match spec_classify(old_db, cx, tx, payloads) {
        None => new_db.tasks@ == old_db.tasks@ && new_db.unidentified_tasks@
            == old_db.unidentified_tasks@,
        Some(TaskInsertion::Identified(t)) => new_db.unidentified_tasks@
            == old_db.unidentified_tasks@ && new_db.tasks@ == spec_insert_task(old_db.tasks@, t),
        Some(TaskInsertion::Unidentified(u)) => new_db.tasks@ == old_db.tasks@
            && new_db.unidentified_tasks@ == spec_insert_unidentified(
            old_db.unidentified_tasks@,
            u,
        ),
    }
}

/// A classification result always names an enrolled player.
pub proof fn lemma_classify_names_player(
    db: Db,
    cx: Context,
    tx: Transaction<PlayerId>,
    payloads: TxPayloads,
)
    ensures
        match spec_classify(db, cx, tx, payloads) {
            Some(TaskInsertion::Identified(t)) => has_player(db.players@, t.player_id@),
            Some(TaskInsertion::Unidentified(u)) => has_player(db.players@, u.player_id@),
            None => true,
        },
{
    match tx.memo {
        None => {},
        Some(pid) => {
            if has_player(db.players@, pid.0@) {
                match spec_classify_kind(db, cx, tx, payloads) {
                    None => {},
                    Some(chosen) => {
                        assert(match spec_make_insertion(chosen, pid.0) {
                            TaskInsertion::Identified(t) => t.player_id == pid.0,
                            TaskInsertion::Unidentified(u) => u.player_id == pid.0,
                        });
                    },
                }
            }
        },
    }
}

/// The fresh id for a row appended to a ledger of the given size.
fn next_row_id(len: usize) -> (r: i32)
    ensures
        r == spec_next_row_id(len as int),
{
    if len <= (i32::MAX as usize) - 1 {
        (len + 1) as i32
    } else {
        i32::MAX
    }
}

/// Classifies one transaction and records the resulting task, ignoring the
/// insert when the pair is already in the ledger.
pub fn mark_task_completed_from_tx(
    db: &mut Db,
    cx: &mut Context,
    input: &Transaction<PlayerId>,
    payloads: &TxPayloads,
)
    requires
        old(db).wf(),
        old(cx).player_kinds.coherent(old(db).players@),
    ensures
        final(db).wf(),
        final(cx).player_kinds.coherent(final(db).players@),
        old(cx).config_eq(&*final(cx)),
        tx_mark_post(*old(db), *final(db), *old(cx), *input, *payloads),
{
    let task_insertion = compute_insertable_task_from_tx(&*db, cx, input, payloads);
    proof {
        lemma_classify_names_player(*old(db), *old(cx), *input, *payloads);
    }
    match task_insertion {
        None => {},
        Some(TaskInsertion::Identified(t)) => {
            if !db.has_task_row(t.player_id.as_str(), t.task) {
                let id = next_row_id(db.tasks.len());
                let row = TaskDb { id, task: t.task, player_id: t.player_id };
                proof {
                    let tasks0 = db.tasks@;
                    assert forall|i: int, j: int|
                        0 <= i < j < tasks0.push(row).len() implies !(tasks0.push(
                        row,
                    )[i].player_id@ == tasks0.push(row)[j].player_id@ && tasks0.push(row)[i].task
                        == tasks0.push(row)[j].task) by {
                        if j == tasks0.len() {
                            assert(!has_task(tasks0, row.player_id@, row.task));
                            assert(!(tasks0[i].player_id@ == row.player_id@ && tasks0[i].task
                                == row.task));
                        }
                    }
                }
                db.tasks.push(row);
            }
        },
        Some(TaskInsertion::Unidentified(u)) => {
            if !db.has_unidentified_row(u.player_id.as_str(), u.tx_kind) {
                let id = next_row_id(db.unidentified_tasks.len());
                let row = UnidentifiedTaskDb { id, tx_kind: u.tx_kind, player_id: u.player_id };
                proof {
                    let rows0 = db.unidentified_tasks@;
                    assert forall|i: int, j: int|
                        0 <= i < j < rows0.push(row).len() implies !(rows0.push(
                        row,
                    )[i].player_id@ == rows0.push(row)[j].player_id@ && rows0.push(row)[i].tx_kind
                        == rows0.push(row)[j].tx_kind) by {
                        if j == rows0.len() {
                            assert(!has_unidentified(rows0, row.player_id@, row.tx_kind));
                            assert(!(rows0[i].player_id@ == row.player_id@ && rows0[i].tx_kind
                                == row.tx_kind));
                        }
                    }
                }
                db.unidentified_tasks.push(row);
            }
        },
    }
}


/// The identified-task ledger after copying the curated manual tasks in,
/// front to back, skipping pairs already present.
pub open spec fn spec_tasks_after_manual(tasks: Seq<TaskDb>, manual: Seq<TaskInsertDb>) -> Seq<
    TaskDb,
>
    decreases manual.len(),
{
    if manual.len() == 0 {
        tasks
    } else {
        spec_insert_task(spec_tasks_after_manual(tasks, manual.drop_last()), manual.last())
    }
}

pub open spec fn special_mark_post(old_db: Db, new_db: Db) -> bool {
    &&& ingest_writes_only(old_db, new_db)
    &&& new_db.task_completion_state == old_db.task_completion_state
    &&& new_db.unidentified_tasks@ == old_db.unidentified_tasks@
    &&& new_db.tasks@ == spec_tasks_after_manual(old_db.tasks@, old_db.manual_tasks@)
}

/// Copies every externally curated manual task into the identified-task
/// ledger, ignoring pairs that are already recorded.
pub fn mark_completed_special_tasks(db: &mut Db)
    requires
        old(db).wf(),
    ensures
        final(db).wf(),
        special_mark_post(*old(db), *final(db)),
{
    let n = db.manual_tasks.len();
    let mut i: usize = 0;
    while i < n
        invariant
            n == db.manual_tasks@.len(),
            0 <= i <= n,
            db.wf(),
            ingest_writes_only(*old(db), *db),
            db.task_completion_state == old(db).task_completion_state,
            db.unidentified_tasks@ == old(db).unidentified_tasks@,
            db.manual_tasks@ == old(db).manual_tasks@,
            db.tasks@ == spec_tasks_after_manual(old(db).tasks@, old(db).manual_tasks@.take(i as int)),
        decreases n - i,
    {
        proof {
            assert(old(db).manual_tasks@.take(i + 1).drop_last() =~= old(db).manual_tasks@.take(
                i as int,
            ));
            assert(old(db).manual_tasks@.take(i + 1).last() == old(db).manual_tasks@[i as int]);
        }
        let task = db.manual_tasks[i].task;
        let player_id = db.manual_tasks[i].player_id.clone();
        if !db.has_task_row(player_id.as_str(), task) {
            let id = next_row_id(db.tasks.len());
            let row = TaskDb { id, task, player_id };
            proof {
                let tasks0 = db.tasks@;
                assert forall|a: int, b: int|
                    0 <= a < b < tasks0.push(row).len() implies !(tasks0.push(row)[a].player_id@
                    == tasks0.push(row)[b].player_id@ && tasks0.push(row)[a].task == tasks0.push(
                    row,
                )[b].task) by {
                    if b == tasks0.len() {
                        assert(!has_task(tasks0, row.player_id@, row.task));
                        assert(!(tasks0[a].player_id@ == row.player_id@ && tasks0[a].task
                            == row.task));
                    }
                }
            }
            db.tasks.push(row);
        }
        i += 1;
    }
    proof {
        assert(old(db).manual_tasks@.take(n as int) =~= old(db).manual_tasks@);
    }
}


/// Five minutes past genesis, capped at the largest representable time.
pub open spec fn spec_plus_5min(genesis: i64) -> int {
    if genesis <= i64::MAX - 300 {
        genesis + 300
    } else {
        i64::MAX as int
    }
}

/// The links that make a commit count for a pilot: the player row is a pilot
/// with a validator address, a consensus-address row maps that address to the
/// commit's signer.
pub open spec fn player_links(
    p: PlayerDb,
    tm: TmAddressDb,
    c: CommitDb,
    player_id: Seq<char>,
) -> bool {
    &&& p.id@ == player_id
    &&& p.kind == PlayerKindDb::Pilot
    &&& match p.namada_validator_address {
        Some(addr) => tm.validator_namada_address@ == addr@,
        None => false,
    }
    &&& c.address@ == tm.tm_address@
}

pub open spec fn spec_commit_by_pilot(
    players: Seq<PlayerDb>,
    tm_addresses: Seq<TmAddressDb>,
    c: CommitDb,
    player_id: Seq<char>,
) -> bool {
    exists|pi: int, ti: int|
        0 <= pi < players.len() && 0 <= ti < tm_addresses.len() && player_links(
            players[pi],
            tm_addresses[ti],
            c,
            player_id,
        )
}

pub open spec fn spec_block_within(blocks: Seq<BlockDb>, block_id: Seq<char>, limit: int) -> bool {
    exists|bi: int|
        0 <= bi < blocks.len() && blocks[bi].id@ == block_id && blocks[bi].included_at <= limit
}

pub open spec fn spec_block_id_has_height(
    blocks: Seq<BlockDb>,
    block_id: Seq<char>,
    height: i32,
) -> bool {
    exists|bi: int| 0 <= bi < blocks.len() && blocks[bi].id@ == block_id && blocks[bi].height == height
}

/// The pilot signed some block committed within five minutes of genesis.
pub open spec fn spec_signed_block_5min(
    players: Seq<PlayerDb>,
    tm_addresses: Seq<TmAddressDb>,
    commits: Seq<CommitDb>,
    blocks: Seq<BlockDb>,
    genesis: i64,
    player_id: Seq<char>,
) -> bool {
    exists|ci: int|
        0 <= ci < commits.len() && spec_commit_by_pilot(players, tm_addresses, commits[ci], player_id)
            && spec_block_within(blocks, commits[ci].block_id@, spec_plus_5min(genesis))
}

/// The pilot signed at least one block, ever.
pub open spec fn spec_signed_any_block(
    players: Seq<PlayerDb>,
    tm_addresses: Seq<TmAddressDb>,
    commits: Seq<CommitDb>,
    player_id: Seq<char>,
) -> bool {
    exists|ci: int|
        0 <= ci < commits.len() && spec_commit_by_pilot(players, tm_addresses, commits[ci], player_id)
}

/// `height` is the lowest height among blocks of the given epoch.
pub open spec fn spec_is_min_epoch_height(blocks: Seq<BlockDb>, epoch: u32, height: i32) -> bool {
    &&& exists|bi: int|
        0 <= bi < blocks.len() && (blocks[bi].epoch as int) == (epoch as int) && blocks[bi].height
            == height
    &&& forall|bj: int|
        0 <= bj < blocks.len() && (#[trigger] blocks[bj].epoch as int) == (epoch as int)
            ==> blocks[bj].height >= height
}

/// The pilot signed a block at the first height of the second upgrade's
/// epoch.
pub open spec fn spec_signed_first_v2_block(
    players: Seq<PlayerDb>,
    tm_addresses: Seq<TmAddressDb>,
    commits: Seq<CommitDb>,
    blocks: Seq<BlockDb>,
    v2_epoch: u32,
    player_id: Seq<char>,
) -> bool {
    exists|ci: int|
        0 <= ci < commits.len() && spec_commit_by_pilot(players, tm_addresses, commits[ci], player_id)
            && exists|bi: int|
            0 <= bi < blocks.len() && blocks[bi].id@ == commits[ci].block_id@
                && spec_is_min_epoch_height(blocks, v2_epoch, blocks[bi].height)
}

/// Whether a commit counts for the pilot named `player_id`.
fn commit_signed_by(db: &Db, ci: usize, player_id: &str) -> (r: bool)
    requires
        db.players_unique(),
        ci < db.commits@.len(),
    ensures
        r == spec_commit_by_pilot(
            db.players@,
            db.tm_addresses@,
            db.commits@[ci as int],
            player_id@,
        ),
{
    let pidx = match db.find_player(player_id) {
        Some(pidx) => pidx,
        None => {
            proof {
                lemma_find_player_props(db.players@, player_id@);
            }
            return false;
        },
    };
    proof {
        lemma_find_player_props(db.players@, player_id@);
        assert forall|pi: int|
            0 <= pi < db.players@.len() && db.players@[pi].id@ == player_id@ implies pi
            == pidx as int by {
            lemma_player_witness(db.players@, player_id@, pi);
        }
    }
    if !(db.players[pidx].kind == PlayerKindDb::Pilot) {
        return false;
    }
    let addr = match &db.players[pidx].namada_validator_address {
        Some(addr) => addr,
        None => {
            return false;
        },
    };
    let n = db.tm_addresses.len();
    let mut i: usize = 0;
    while i < n
        invariant
            n == db.tm_addresses@.len(),
            0 <= i <= n,
            ci < db.commits@.len(),
            (pidx as int) < db.players@.len(),
            db.players@[pidx as int].id@ == player_id@,
            db.players@[pidx as int].kind == PlayerKindDb::Pilot,
            db.players@[pidx as int].namada_validator_address matches Some(a) && a@ == addr@,
            forall|pi: int|
                0 <= pi < db.players@.len() && db.players@[pi].id@ == player_id@ ==> pi
                    == pidx as int,
            forall|ti: int|
                0 <= ti < i ==> !player_links(
                    db.players@[pidx as int],
                    db.tm_addresses@[ti],
                    db.commits@[ci as int],
                    player_id@,
                ),
        decreases n - i,
    {
        if db.tm_addresses[i].validator_namada_address == *addr && db.tm_addresses[i].tm_address
            == db.commits[ci].address {
            assert(player_links(
                db.players@[pidx as int],
                db.tm_addresses@[i as int],
                db.commits@[ci as int],
                player_id@,
            ));
            return true;
        }
        i += 1;
    }
    false
}

/// Whether the named block was committed at or before `limit`.
fn block_within_limit(db: &Db, block_id: &String, limit: i64) -> (r: bool)
    ensures
        r == spec_block_within(db.blocks@, block_id@, limit as int),
{
    let n = db.blocks.len();
    let mut i: usize = 0;
    while i < n
        invariant
            n == db.blocks@.len(),
            0 <= i <= n,
            forall|j: int|
                0 <= j < i ==> !(db.blocks@[j].id@ == block_id@ && db.blocks@[j].included_at
                    <= limit),
        decreases n - i,
    {
        if db.blocks[i].id == *block_id && db.blocks[i].included_at <= limit {
            return true;
        }
        i += 1;
    }
    false
}

/// Whether the named block sits at the given height.
fn block_id_has_height(db: &Db, block_id: &String, height: i32) -> (r: bool)
    ensures
        r == spec_block_id_has_height(db.blocks@, block_id@, height),
{
    let n = db.blocks.len();
    let mut i: usize = 0;
    while i < n
        invariant
            n == db.blocks@.len(),
            0 <= i <= n,
            forall|j: int|
                0 <= j < i ==> !(db.blocks@[j].id@ == block_id@ && db.blocks@[j].height == height),
        decreases n - i,
    {
        if db.blocks[i].id == *block_id && db.blocks[i].height == height {
            return true;
        }
        i += 1;
    }
    false
}

/// The lowest block height of the given epoch, if the epoch has blocks.
fn min_epoch_height(db: &Db, epoch: u32) -> (r: Option<i32>)
    ensures
        match r {
            Some(h) => spec_is_min_epoch_height(db.blocks@, epoch, h),
            None => forall|bi: int|
                0 <= bi < db.blocks@.len() ==> (#[trigger] db.blocks@[bi].epoch as int) != (
                epoch as int),
        },
{
    let n = db.blocks.len();
    let mut acc: Option<i32> = None;
    let mut i: usize = 0;
    while i < n
        invariant
            n == db.blocks@.len(),
            0 <= i <= n,
            match acc {
                Some(h) => (exists|bi: int|
                    0 <= bi < i && (#[trigger] db.blocks@[bi].epoch as int) == (epoch as int)
                        && db.blocks@[bi].height == h) && forall|bj: int|
                    0 <= bj < i && (#[trigger] db.blocks@[bj].epoch as int) == (epoch as int)
                        ==> db.blocks@[bj].height >= h,
                None => forall|bi: int|
                    0 <= bi < i ==> (#[trigger] db.blocks@[bi].epoch as int) != (epoch as int),
            },
        decreases n - i,
    {
        if (db.blocks[i].epoch as i64) == (epoch as i64) {
            acc = match acc {
                Some(h) => if db.blocks[i].height < h {
                    Some(db.blocks[i].height)
                } else {
                    Some(h)
                },
                None => Some(db.blocks[i].height),
            };
        }
        i += 1;
    }
    acc
}

/// The pilot signed a block committed within five minutes of genesis.
fn signed_block_5min_after_genesis(db: &Db, genesis_time: i64, player_id: &str) -> (r: bool)
    requires
        db.players_unique(),
    ensures
        r == spec_signed_block_5min(
            db.players@,
            db.tm_addresses@,
            db.commits@,
            db.blocks@,
            genesis_time,
            player_id@,
        ),
{
    let limit: i64 = if genesis_time <= i64::MAX - 300 {
        genesis_time + 300
    } else {
        i64::MAX
    };
    let n = db.commits.len();
    let mut i: usize = 0;
    while i < n
        invariant
            n == db.commits@.len(),
            0 <= i <= n,
            limit as int == spec_plus_5min(genesis_time),
            db.players_unique(),
            forall|ci: int|
                0 <= ci < i ==> !(spec_commit_by_pilot(
                    db.players@,
                    db.tm_addresses@,
                    db.commits@[ci],
                    player_id@,
                ) && spec_block_within(
                    db.blocks@,
                    db.commits@[ci].block_id@,
                    spec_plus_5min(genesis_time),
                )),
        decreases n - i,
    {
        if commit_signed_by(db, i, player_id) && block_within_limit(
            db,
            &db.commits[i].block_id,
            limit,
        ) {
            return true;
        }
        i += 1;
    }
    false
}

/// The pilot signed at least one block.
fn signed_at_least_one_block(db: &Db, player_id: &str) -> (r: bool)
    requires
        db.players_unique(),
    ensures
        r == spec_signed_any_block(db.players@, db.tm_addresses@, db.commits@, player_id@),
{
    let n = db.commits.len();
    let mut i: usize = 0;
    while i < n
        invariant
            n == db.commits@.len(),
            0 <= i <= n,
            db.players_unique(),
            forall|ci: int|
                0 <= ci < i ==> !spec_commit_by_pilot(
                    db.players@,
                    db.tm_addresses@,
                    db.commits@[ci],
                    player_id@,
                ),
        decreases n - i,
    {
        if commit_signed_by(db, i, player_id) {
            return true;
        }
        i += 1;
    }
    false
}

/// The pilot signed a block at the first height of the second upgrade epoch.
fn signed_first_block_of_upgrade_to_v2(db: &Db, v2_grace_epoch: u32, player_id: &str) -> (r: bool)
    requires
        db.players_unique(),
    ensures
        r == spec_signed_first_v2_block(
            db.players@,
            db.tm_addresses@,
            db.commits@,
            db.blocks@,
            v2_grace_epoch,
            player_id@,
        ),
{
    let min_height = match min_epoch_height(db, v2_grace_epoch) {
        Some(h) => h,
        None => {
            return false;
        },
    };
    let n = db.commits.len();
    let mut i: usize = 0;
    while i < n
        invariant
            n == db.commits@.len(),
            0 <= i <= n,
            db.players_unique(),
            spec_is_min_epoch_height(db.blocks@, v2_grace_epoch, min_height),
            forall|ci: int|
                0 <= ci < i ==> !(spec_commit_by_pilot(
                    db.players@,
                    db.tm_addresses@,
                    db.commits@[ci],
                    player_id@,
                ) && spec_block_id_has_height(db.blocks@, db.commits@[ci].block_id@, min_height)),
        decreases n - i,
    {
        if commit_signed_by(db, i, player_id) && block_id_has_height(
            db,
            &db.commits[i].block_id,
            min_height,
        ) {
            proof {
                lemma_min_height_unique(db.blocks@, v2_grace_epoch, min_height);
            }
            return true;
        }
        i += 1;
    }
    proof {
        lemma_min_height_unique(db.blocks@, v2_grace_epoch, min_height);
    }
    false
}

/// A block of the epoch sits at the minimum height exactly when its height is
/// that minimum.
proof fn lemma_min_height_unique(blocks: Seq<BlockDb>, epoch: u32, h: i32)
    requires
        spec_is_min_epoch_height(blocks, epoch, h),
    ensures
        forall|h2: i32| spec_is_min_epoch_height(blocks, epoch, h2) ==> h2 == h,
{
    assert forall|h2: i32| spec_is_min_epoch_height(blocks, epoch, h2) implies h2 == h by {
        let bi = choose|bi: int|
            0 <= bi < blocks.len() && (blocks[bi].epoch as int) == (epoch as int)
                && blocks[bi].height == h2;
        let bj = choose|bj: int|
            0 <= bj < blocks.len() && (blocks[bj].epoch as int) == (epoch as int)
                && blocks[bj].height == h;
        assert(blocks[bi].height >= h);
        assert(blocks[bj].height >= h2);
    }
}


/// The pilots a non-transactional task sweep considers: unbanned pilots with
/// a positive score that do not hold the task yet.
pub open spec fn spec_pilot_needs(p: PlayerDb, tasks: Seq<TaskDb>, task: TaskTypeDb) -> bool {
    &&& p.kind == PlayerKindDb::Pilot
    &&& p.score > 0
    &&& !spec_is_banned(p)
    &&& !has_task(tasks, p.id@, task)
}

pub open spec fn spec_sweep_5min(
    players: Seq<PlayerDb>,
    tm_addresses: Seq<TmAddressDb>,
    commits: Seq<CommitDb>,
    blocks: Seq<BlockDb>,
    genesis: i64,
    prefix: Seq<PlayerDb>,
    tasks: Seq<TaskDb>,
) -> Seq<TaskDb>
    decreases prefix.len(),
{
    if prefix.len() == 0 {
        tasks
    } else {
        let ts = spec_sweep_5min(
            players,
            tm_addresses,
            commits,
            blocks,
            genesis,
            prefix.drop_last(),
            tasks,
        );
        let p = prefix.last();
        if spec_pilot_needs(p, ts, TaskTypeDb::StartNode5MinFromGenesis) && spec_signed_block_5min(
            players,
            tm_addresses,
            commits,
            blocks,
            genesis,
            p.id@,
        ) {
            ts.push(
                TaskDb {
                    id: spec_next_row_id(ts.len() as int),
                    task: TaskTypeDb::StartNode5MinFromGenesis,
                    player_id: p.id,
                },
            )
        } else {
            ts
        }
    }
}

pub open spec fn spec_sweep_first_v2(
    players: Seq<PlayerDb>,
    tm_addresses: Seq<TmAddressDb>,
    commits: Seq<CommitDb>,
    blocks: Seq<BlockDb>,
    v2_epoch: u32,
    prefix: Seq<PlayerDb>,
    tasks: Seq<TaskDb>,
) -> Seq<TaskDb>
    decreases prefix.len(),
{
    if prefix.len() == 0 {
        tasks
    } else {
        let ts = spec_sweep_first_v2(
            players,
            tm_addresses,
            commits,
            blocks,
            v2_epoch,
            prefix.drop_last(),
            tasks,
        );
        let p = prefix.last();
        if spec_pilot_needs(p, ts, TaskTypeDb::SignFirstBlockOfUpgradeToV2)
            && spec_signed_first_v2_block(players, tm_addresses, commits, blocks, v2_epoch, p.id@) {
            ts.push(
                TaskDb {
                    id: spec_next_row_id(ts.len() as int),
                    task: TaskTypeDb::SignFirstBlockOfUpgradeToV2,
                    player_id: p.id,
                },
            )
        } else {
            ts
        }
    }
}

pub open spec fn spec_sweep_any_block(
    players: Seq<PlayerDb>,
    tm_addresses: Seq<TmAddressDb>,
    commits: Seq<CommitDb>,
    prefix: Seq<PlayerDb>,
    tasks: Seq<TaskDb>,
) -> Seq<TaskDb>
    decreases prefix.len(),
{
    if prefix.len() == 0 {
        tasks
    } else {
        let ts = spec_sweep_any_block(
            players,
            tm_addresses,
            commits,
            prefix.drop_last(),
            tasks,
        );
        let p = prefix.last();
        if spec_pilot_needs(p, ts, TaskTypeDb::InValidatorSetFor1Epoch) && spec_signed_any_block(
            players,
            tm_addresses,
            commits,
            p.id@,
        ) {
            ts.push(
                TaskDb {
                    id: spec_next_row_id(ts.len() as int),
                    task: TaskTypeDb::InValidatorSetFor1Epoch,
                    player_id: p.id,
                },
            )
        } else {
            ts
        }
    }
}

/// Genesis time: the configured value, or the commit time of the block at
/// height one when none was configured.
pub open spec fn spec_genesis_resolved(blocks: Seq<BlockDb>, configured: Option<i64>) -> Option<
    i64,
> {
    match configured {
        Some(t) => Some(t),
        None => match spec_find_block_by_height(blocks, 1) {
            Some(i) => Some(blocks[i].included_at),
            None => None,
        },
    }
}

pub open spec fn spec_genesis_time(db: Db, cx: Context) -> Option<i64> {
    spec_genesis_resolved(db.blocks@, cx.genesis_time)
}

/// The identified-task ledger after the three pilot sweeps over the given
/// tables.  With no genesis time available nothing is evaluated.
pub open spec fn spec_pilot_marks_on(
    players: Seq<PlayerDb>,
    tm_addresses: Seq<TmAddressDb>,
    commits: Seq<CommitDb>,
    blocks: Seq<BlockDb>,
    configured_genesis: Option<i64>,
    v2_epoch: u32,
    tasks: Seq<TaskDb>,
) -> Seq<TaskDb> {
    match spec_genesis_resolved(blocks, configured_genesis) {
        None => tasks,
        Some(g) => spec_sweep_any_block(
            players,
            tm_addresses,
            commits,
            players,
            spec_sweep_first_v2(
                players,
                tm_addresses,
                commits,
                blocks,
                v2_epoch,
                players,
                spec_sweep_5min(players, tm_addresses, commits, blocks, g, players, tasks),
            ),
        ),
    }
}

/// The identified-task ledger after the three pilot sweeps.
pub open spec fn spec_pilot_marks(db: Db, cx: Context) -> Seq<TaskDb> {
    spec_pilot_marks_on(
        db.players@,
        db.tm_addresses@,
        db.commits@,
        db.blocks@,
        cx.genesis_time,
        cx.epochs.v1_to_v2,
        db.tasks@,
    )
}

pub open spec fn pilot_mark_post(old_db: Db, new_db: Db, cx: Context) -> bool {
    &&& ingest_writes_only(old_db, new_db)
    &&& new_db.task_completion_state == old_db.task_completion_state
    &&& new_db.unidentified_tasks@ == old_db.unidentified_tasks@
    &&& new_db.tasks@ == spec_pilot_marks(old_db, cx)
}

proof fn lemma_sweep_5min_step(
    players: Seq<PlayerDb>,
    tm_addresses: Seq<TmAddressDb>,
    commits: Seq<CommitDb>,
    blocks: Seq<BlockDb>,
    genesis: i64,
    src: Seq<PlayerDb>,
    tasks: Seq<TaskDb>,
    i: int,
)
    requires
        0 <= i < src.len(),
    ensures
        spec_sweep_5min(players, tm_addresses, commits, blocks, genesis, src.take(i + 1), tasks)
            == ({
            let ts = spec_sweep_5min(
                players,
                tm_addresses,
                commits,
                blocks,
                genesis,
                src.take(i),
                tasks,
            );
            let p = src[i];
            if spec_pilot_needs(p, ts, TaskTypeDb::StartNode5MinFromGenesis)
                && spec_signed_block_5min(players, tm_addresses, commits, blocks, genesis, p.id@) {
                ts.push(
                    TaskDb {
                        id: spec_next_row_id(ts.len() as int),
                        task: TaskTypeDb::StartNode5MinFromGenesis,
                        player_id: p.id,
                    },
                )
            } else {
                ts
            }
        }),
{
    assert(src.take(i + 1).drop_last() =~= src.take(i));
    assert(src.take(i + 1).last() == src[i]);
}

proof fn lemma_sweep_first_v2_step(
    players: Seq<PlayerDb>,
    tm_addresses: Seq<TmAddressDb>,
    commits: Seq<CommitDb>,
    blocks: Seq<BlockDb>,
    v2_epoch: u32,
    src: Seq<PlayerDb>,
    tasks: Seq<TaskDb>,
    i: int,
)
    requires
        0 <= i < src.len(),
    ensures
        spec_sweep_first_v2(players, tm_addresses, commits, blocks, v2_epoch, src.take(i + 1), tasks)
            == ({
            let ts = spec_sweep_first_v2(
                players,
                tm_addresses,
                commits,
                blocks,
                v2_epoch,
                src.take(i),
                tasks,
            );
            let p = src[i];
            if spec_pilot_needs(p, ts, TaskTypeDb::SignFirstBlockOfUpgradeToV2)
                && spec_signed_first_v2_block(
                players,
                tm_addresses,
                commits,
                blocks,
                v2_epoch,
                p.id@,
            ) {
                ts.push(
                    TaskDb {
                        id: spec_next_row_id(ts.len() as int),
                        task: TaskTypeDb::SignFirstBlockOfUpgradeToV2,
                        player_id: p.id,
                    },
                )
            } else {
                ts
            }
        }),
{
    assert(src.take(i + 1).drop_last() =~= src.take(i));
    assert(src.take(i + 1).last() == src[i]);
}

proof fn lemma_sweep_any_block_step(
    players: Seq<PlayerDb>,
    tm_addresses: Seq<TmAddressDb>,
    commits: Seq<CommitDb>,
    src: Seq<PlayerDb>,
    tasks: Seq<TaskDb>,
    i: int,
)
    requires
        0 <= i < src.len(),
    ensures
        spec_sweep_any_block(players, tm_addresses, commits, src.take(i + 1), tasks) == ({
            let ts = spec_sweep_any_block(players, tm_addresses, commits, src.take(i), tasks);
            let p = src[i];
            if spec_pilot_needs(p, ts, TaskTypeDb::InValidatorSetFor1Epoch)
                && spec_signed_any_block(players, tm_addresses, commits, p.id@) {
                ts.push(
                    TaskDb {
                        id: spec_next_row_id(ts.len() as int),
                        task: TaskTypeDb::InValidatorSetFor1Epoch,
                        player_id: p.id,
                    },
                )
            } else {
                ts
            }
        }),
{
    assert(src.take(i + 1).drop_last() =~= src.take(i));
    assert(src.take(i + 1).last() == src[i]);
}

/// Evaluates the three non-transactional pilot tasks over every eligible
/// pilot and records the completed ones.
pub fn mark_completed_pilot_tasks(db: &mut Db, cx: &Context)
    requires
        old(db).wf(),
    ensures
        final(db).wf(),
        pilot_mark_post(*old(db), *final(db), *cx),
{
    let genesis: i64 = match cx.genesis_time {
        Some(t) => t,
        None => match db.find_block_by_height(1) {
            Some(bi) => db.blocks[bi].included_at,
            None => {
                return ;
            },
        },
    };

    let n = db.players.len();
    let mut i: usize = 0;
    while i < n
        invariant
            n == db.players@.len(),
            0 <= i <= n,
            db.wf(),
            ingest_writes_only(*old(db), *db),
            db.task_completion_state == old(db).task_completion_state,
            db.unidentified_tasks@ == old(db).unidentified_tasks@,
            spec_genesis_time(*old(db), *cx) == Some(genesis),
            db.tasks@ == spec_sweep_5min(
                old(db).players@,
                old(db).tm_addresses@,
                old(db).commits@,
                old(db).blocks@,
                genesis,
                old(db).players@.take(i as int),
                old(db).tasks@,
            ),
        decreases n - i,
    {
        proof {
            lemma_sweep_5min_step(
                old(db).players@,
                old(db).tm_addresses@,
                old(db).commits@,
                old(db).blocks@,
                genesis,
                old(db).players@,
                old(db).tasks@,
                i as int,
            );
        }
        let is_pilot = db.players[i].kind == PlayerKindDb::Pilot;
        let score_ok = db.players[i].score > 0;
        let banned = match db.players[i].is_banned {
            Some(true) => true,
            _ => false,
        };
        let pid = db.players[i].id.clone();
        if is_pilot && score_ok && !banned && !db.has_task_row(
            pid.as_str(),
            TaskTypeDb::StartNode5MinFromGenesis,
        ) && signed_block_5min_after_genesis(&*db, genesis, pid.as_str()) {
            let id = next_row_id(db.tasks.len());
            let row = TaskDb { id, task: TaskTypeDb::StartNode5MinFromGenesis, player_id: pid };
            push_task_row(db, row, Ghost(i as int));
        }
        i += 1;
    }
    proof {
        assert(old(db).players@.take(n as int) =~= old(db).players@);
    }

    let ghost tasks_after_first = db.tasks@;
    let mut i: usize = 0;
    while i < n
        invariant
            n == db.players@.len(),
            0 <= i <= n,
            db.wf(),
            ingest_writes_only(*old(db), *db),
            db.task_completion_state == old(db).task_completion_state,
            db.unidentified_tasks@ == old(db).unidentified_tasks@,
            db.tasks@ == spec_sweep_first_v2(
                old(db).players@,
                old(db).tm_addresses@,
                old(db).commits@,
                old(db).blocks@,
                cx.epochs.v1_to_v2,
                old(db).players@.take(i as int),
                tasks_after_first,
            ),
        decreases n - i,
    {
        proof {
            lemma_sweep_first_v2_step(
                old(db).players@,
                old(db).tm_addresses@,
                old(db).commits@,
                old(db).blocks@,
                cx.epochs.v1_to_v2,
                old(db).players@,
                tasks_after_first,
                i as int,
            );
        }
        let is_pilot = db.players[i].kind == PlayerKindDb::Pilot;
        let score_ok = db.players[i].score > 0;
        let banned = match db.players[i].is_banned {
            Some(true) => true,
            _ => false,
        };
        let pid = db.players[i].id.clone();
        if is_pilot && score_ok && !banned && !db.has_task_row(
            pid.as_str(),
            TaskTypeDb::SignFirstBlockOfUpgradeToV2,
        ) && signed_first_block_of_upgrade_to_v2(&*db, cx.epochs.v1_to_v2, pid.as_str()) {
            let id = next_row_id(db.tasks.len());
            let row = TaskDb { id, task: TaskTypeDb::SignFirstBlockOfUpgradeToV2, player_id: pid };
            push_task_row(db, row, Ghost(i as int));
        }
        i += 1;
    }
    proof {
        assert(old(db).players@.take(n as int) =~= old(db).players@);
    }

    let ghost tasks_after_second = db.tasks@;
    let mut i: usize = 0;
    while i < n
        invariant
            n == db.players@.len(),
            0 <= i <= n,
            db.wf(),
            ingest_writes_only(*old(db), *db),
            db.task_completion_state == old(db).task_completion_state,
            db.unidentified_tasks@ == old(db).unidentified_tasks@,
            db.tasks@ == spec_sweep_any_block(
                old(db).players@,
                old(db).tm_addresses@,
                old(db).commits@,
                old(db).players@.take(i as int),
                tasks_after_second,
            ),
        decreases n - i,
    {
        proof {
            lemma_sweep_any_block_step(
                old(db).players@,
                old(db).tm_addresses@,
                old(db).commits@,
                old(db).players@,
                tasks_after_second,
                i as int,
            );
        }
        let is_pilot = db.players[i].kind == PlayerKindDb::Pilot;
        let score_ok = db.players[i].score > 0;
        let banned = match db.players[i].is_banned {
            Some(true) => true,
            _ => false,
        };
        let pid = db.players[i].id.clone();
        if is_pilot && score_ok && !banned && !db.has_task_row(
            pid.as_str(),
            TaskTypeDb::InValidatorSetFor1Epoch,
        ) && signed_at_least_one_block(&*db, pid.as_str()) {
            let id = next_row_id(db.tasks.len());
            let row = TaskDb { id, task: TaskTypeDb::InValidatorSetFor1Epoch, player_id: pid };
            push_task_row(db, row, Ghost(i as int));
        }
        i += 1;
    }
    proof {
        assert(old(db).players@.take(n as int) =~= old(db).players@);
    }
}

/// Appends a freshly built task row whose player is the one at the given
/// position; the pair must not be recorded yet.
fn push_task_row(db: &mut Db, row: TaskDb, Ghost(pi): Ghost<int>)
    requires
        old(db).wf(),
        0 <= pi < old(db).players@.len(),
        old(db).players@[pi].id@ == row.player_id@,
        !has_task(old(db).tasks@, row.player_id@, row.task),
    ensures
        final(db).wf(),
        final(db).tasks@ == old(db).tasks@.push(row),
        final(db).players@ == old(db).players@,
        final(db).blocks@ == old(db).blocks@,
        final(db).commits@ == old(db).commits@,
        final(db).tm_addresses@ == old(db).tm_addresses@,
        final(db).transactions@ == old(db).transactions@,
        final(db).governance_proposals@ == old(db).governance_proposals@,
        final(db).governance_votes@ == old(db).governance_votes@,
        final(db).manual_tasks@ == old(db).manual_tasks@,
        final(db).unidentified_tasks@ == old(db).unidentified_tasks@,
        final(db).player_ranks@ == old(db).player_ranks@,
        final(db).task_completion_state == old(db).task_completion_state,
        final(db).crawler_state@ == old(db).crawler_state@,
{
    proof {
        lemma_player_witness(db.players@, row.player_id@, pi);
        let tasks0 = db.tasks@;
        assert forall|a: int, b: int|
            0 <= a < b < tasks0.push(row).len() implies !(tasks0.push(row)[a].player_id@
            == tasks0.push(row)[b].player_id@ && tasks0.push(row)[a].task == tasks0.push(
            row,
        )[b].task) by {
            if b == tasks0.len() {
                assert(!has_task(tasks0, row.player_id@, row.task));
                assert(!(tasks0[a].player_id@ == row.player_id@ && tasks0[a].task == row.task));
            }
        }
    }
    db.tasks.push(row);
}

/// One unit of work for the task-ingestion phase.
pub enum TaskInput {
    /// A transaction with its decoded payload facts.
    Transaction { tx: Transaction<PlayerId>, payloads: TxPayloads },
    /// Evaluate the non-transactional pilot tasks.
    Pilot,
    /// Copy the curated manual tasks through.
    SpecialTasks,
}

/// Runs one unit of task-ingestion work against the store.
pub fn update_task_statuses(db: &mut Db, cx: &mut Context, input: TaskInput)
    requires
        old(db).wf(),
        old(cx).player_kinds.coherent(old(db).players@),
    ensures
        final(db).wf(),
        final(cx).player_kinds.coherent(final(db).players@),
        old(cx).config_eq(&*final(cx)),
        match input {
            TaskInput::Transaction { tx, payloads } => tx_mark_post(
                *old(db),
                *final(db),
                *old(cx),
                tx,
                payloads,
            ),
            TaskInput::Pilot => pilot_mark_post(*old(db), *final(db), *old(cx)),
            TaskInput::SpecialTasks => special_mark_post(*old(db), *final(db)),
        },
{
    match input {
        TaskInput::Transaction { tx, payloads } => {
            mark_task_completed_from_tx(db, cx, &tx, &payloads);
        },
        TaskInput::Pilot => {
            mark_completed_pilot_tasks(db, &*cx);
        },
        TaskInput::SpecialTasks => {
            mark_completed_special_tasks(db);
        },
    }
}


/// Appending keeps every prefix a prefix.
proof fn lemma_prefix_push(a: Seq<TaskDb>, b: Seq<TaskDb>, x: TaskDb)
    requires
        a.is_prefix_of(b),
    ensures
        a.is_prefix_of(b.push(x)),
{
    assert(b.push(x).subrange(0, a.len() as int) =~= b.subrange(0, a.len() as int));
}

proof fn lemma_sweep_5min_prefix(
    players: Seq<PlayerDb>,
    tm_addresses: Seq<TmAddressDb>,
    commits: Seq<CommitDb>,
    blocks: Seq<BlockDb>,
    genesis: i64,
    prefix: Seq<PlayerDb>,
    tasks: Seq<TaskDb>,
)
    ensures
        tasks.is_prefix_of(
            spec_sweep_5min(players, tm_addresses, commits, blocks, genesis, prefix, tasks),
        ),
    decreases prefix.len(),
{
    if prefix.len() == 0 {
        assert(tasks.subrange(0, tasks.len() as int) =~= tasks);
    } else {
        lemma_sweep_5min_prefix(
            players,
            tm_addresses,
            commits,
            blocks,
            genesis,
            prefix.drop_last(),
            tasks,
        );
        let ts = spec_sweep_5min(
            players,
            tm_addresses,
            commits,
            blocks,
            genesis,
            prefix.drop_last(),
            tasks,
        );
        let p = prefix.last();
        if spec_pilot_needs(p, ts, TaskTypeDb::StartNode5MinFromGenesis) && spec_signed_block_5min(
            players,
            tm_addresses,
            commits,
            blocks,
            genesis,
            p.id@,
        ) {
            lemma_prefix_push(
                tasks,
                ts,
                TaskDb {
                    id: spec_next_row_id(ts.len() as int),
                    task: TaskTypeDb::StartNode5MinFromGenesis,
                    player_id: p.id,
                },
            );
        }
    }
}

proof fn lemma_sweep_first_v2_prefix(
    players: Seq<PlayerDb>,
    tm_addresses: Seq<TmAddressDb>,
    commits: Seq<CommitDb>,
    blocks: Seq<BlockDb>,
    v2_epoch: u32,
    prefix: Seq<PlayerDb>,
    tasks: Seq<TaskDb>,
)
    ensures
        tasks.is_prefix_of(
            spec_sweep_first_v2(players, tm_addresses, commits, blocks, v2_epoch, prefix, tasks),
        ),
    decreases prefix.len(),
{
    if prefix.len() == 0 {
        assert(tasks.subrange(0, tasks.len() as int) =~= tasks);
    } else {
        lemma_sweep_first_v2_prefix(
            players,
            tm_addresses,
            commits,
            blocks,
            v2_epoch,
            prefix.drop_last(),
            tasks,
        );
        let ts = spec_sweep_first_v2(
            players,
            tm_addresses,
            commits,
            blocks,
            v2_epoch,
            prefix.drop_last(),
            tasks,
        );
        let p = prefix.last();
        if spec_pilot_needs(p, ts, TaskTypeDb::SignFirstBlockOfUpgradeToV2)
            && spec_signed_first_v2_block(players, tm_addresses, commits, blocks, v2_epoch, p.id@) {
            lemma_prefix_push(
                tasks,
                ts,
                TaskDb {
                    id: spec_next_row_id(ts.len() as int),
                    task: TaskTypeDb::SignFirstBlockOfUpgradeToV2,
                    player_id: p.id,
                },
            );
        }
    }
}

proof fn lemma_sweep_any_block_prefix(
    players: Seq<PlayerDb>,
    tm_addresses: Seq<TmAddressDb>,
    commits: Seq<CommitDb>,
    prefix: Seq<PlayerDb>,
    tasks: Seq<TaskDb>,
)
    ensures
        tasks.is_prefix_of(spec_sweep_any_block(players, tm_addresses, commits, prefix, tasks)),
    decreases prefix.len(),
{
    if prefix.len() == 0 {
        assert(tasks.subrange(0, tasks.len() as int) =~= tasks);
    } else {
        lemma_sweep_any_block_prefix(players, tm_addresses, commits, prefix.drop_last(), tasks);
        let ts = spec_sweep_any_block(players, tm_addresses, commits, prefix.drop_last(), tasks);
        let p = prefix.last();
        if spec_pilot_needs(p, ts, TaskTypeDb::InValidatorSetFor1Epoch) && spec_signed_any_block(
            players,
            tm_addresses,
            commits,
            p.id@,
        ) {
            lemma_prefix_push(
                tasks,
                ts,
                TaskDb {
                    id: spec_next_row_id(ts.len() as int),
                    task: TaskTypeDb::InValidatorSetFor1Epoch,
                    player_id: p.id,
                },
            );
        }
    }
}

/// The pilot sweeps only ever append to the ledger.
pub proof fn lemma_pilot_marks_prefix(db: Db, cx: Context)
    ensures
        db.tasks@.is_prefix_of(spec_pilot_marks(db, cx)),
{
    match spec_genesis_time(db, cx) {
        None => {
            assert(db.tasks@.subrange(0, db.tasks@.len() as int) =~= db.tasks@);
        },
        Some(g) => {
            let t1 = spec_sweep_5min(
                db.players@,
                db.tm_addresses@,
                db.commits@,
                db.blocks@,
                g,
                db.players@,
                db.tasks@,
            );
            let t2 = spec_sweep_first_v2(
                db.players@,
                db.tm_addresses@,
                db.commits@,
                db.blocks@,
                cx.epochs.v1_to_v2,
                db.players@,
                t1,
            );
            lemma_sweep_5min_prefix(
                db.players@,
                db.tm_addresses@,
                db.commits@,
                db.blocks@,
                g,
                db.players@,
                db.tasks@,
            );
            lemma_sweep_first_v2_prefix(
                db.players@,
                db.tm_addresses@,
                db.commits@,
                db.blocks@,
                cx.epochs.v1_to_v2,
                db.players@,
                t1,
            );
            lemma_sweep_any_block_prefix(
                db.players@,
                db.tm_addresses@,
                db.commits@,
                db.players@,
                t2,
            );
        },
    }
}

/// The manual-task copy-through only ever appends to the ledger.
pub proof fn lemma_manual_tasks_prefix(tasks: Seq<TaskDb>, manual: Seq<TaskInsertDb>)
    ensures
        tasks.is_prefix_of(spec_tasks_after_manual(tasks, manual)),
    decreases manual.len(),
{
    if manual.len() == 0 {
        assert(tasks.subrange(0, tasks.len() as int) =~= tasks);
    } else {
        lemma_manual_tasks_prefix(tasks, manual.drop_last());
        let ts = spec_tasks_after_manual(tasks, manual.drop_last());
        let m = manual.last();
        if !has_task(ts, m.player_id@, m.task) {
            lemma_prefix_push(
                tasks,
                ts,
                TaskDb {
                    id: spec_next_row_id(ts.len() as int),
                    task: m.task,
                    player_id: m.player_id,
                },
            );
        }
    }
}


/// The kind a stored transaction row classifies to before the eligibility
/// check, read off the row alone; mirrors the classification of the decoded
/// transaction the row stands for.
pub open spec fn spec_classify_row_kind(
    db: Db,
    cx: Context,
    row: TransactionDb,
    payloads: TxPayloads,
) -> Option<TaskOrTxKind> {
    match row.kind {
        TransactionKindDb::Bond => match spec_find_transaction(db.transactions@, row.id@) {
            None => None,
            Some(ti) => match spec_find_block_by_id(db.blocks@, db.transactions@[ti].block_id@) {
                None => None,
                Some(bi) => {
                    let epoch = db.blocks@[bi].epoch;
                    if (epoch as int) < (cx.epochs.v0_to_v1 as int) {
                        Some(TaskOrTxKind::Task(TaskTypeDb::DelegateStakeOnV0))
                    } else if (epoch as int) < (cx.epochs.v1_to_v2 as int) {
                        Some(TaskOrTxKind::Task(TaskTypeDb::DelegateStakeOnV1))
                    } else {
                        Some(TaskOrTxKind::Tx(TransactionKindDb::Bond))
                    }
                },
            },
        },
        TransactionKindDb::IbcShieldedTransfer => Some(
            TaskOrTxKind::Task(TaskTypeDb::ShieldAssetOverIbc),
        ),
        TransactionKindDb::ShieldedTransfer => match payloads.transfer {
            TransferDecode::Undecodable => None,
            TransferDecode::Transfer { source, target } => {
                let masp = cx.address_book.inner.masp@;
                let naan = cx.address_book.inner.naan@;
                if source@ == masp && target@ == masp {
                    Some(TaskOrTxKind::Task(TaskTypeDb::ShieldToShielded))
                } else if target@ == masp && source@ == naan {
                    Some(TaskOrTxKind::Task(TaskTypeDb::ShieldNaan))
                } else if source@ == masp && target@ == naan {
                    Some(TaskOrTxKind::Task(TaskTypeDb::UnshieldNaan))
                } else {
                    Some(TaskOrTxKind::Tx(TransactionKindDb::ShieldedTransfer))
                }
            },
        },
        TransactionKindDb::BecomeValidator => Some(
            TaskOrTxKind::Task(TaskTypeDb::InitPostGenesisValidator),
        ),
        TransactionKindDb::ClaimRewards => Some(TaskOrTxKind::Task(TaskTypeDb::ClaimPosRewards)),
        TransactionKindDb::ProposalVote => match payloads.vote {
            VoteDecode::Undecodable => None,
            VoteDecode::Vote { proposal_id } => {
                if proposal_id == FIRST_UPGRADE_VOTE_PROPOSAL_ID || proposal_id
                    == SECOND_UPGRADE_VOTE_PROPOSAL_ID {
                    Some(TaskOrTxKind::Task(TaskTypeDb::VoteUpgradeV0ToV1))
                } else {
                    match spec_find_proposal(db.governance_proposals@, proposal_id) {
                        None => None,
                        Some(gi) => {
                            let g = db.governance_proposals@[gi];
                            if g.kind == GovernanceProposalKindDb::PgfSteward {
                                Some(TaskOrTxKind::Task(TaskTypeDb::VotePgfStewardProposal))
                            } else if g.author@ != cx.address_book.inner.upgrade_proposer@ {
                                Some(TaskOrTxKind::Tx(TransactionKindDb::ProposalVote))
                            } else if (g.grace_epoch as int) == (cx.epochs.v0_to_v1 as int) {
                                Some(TaskOrTxKind::Task(TaskTypeDb::VoteUpgradeV0ToV1))
                            } else if (g.grace_epoch as int) == (cx.epochs.v1_to_v2 as int) {
                                Some(TaskOrTxKind::Task(TaskTypeDb::VoteUpgradeV1ToV2))
                            } else {
                                Some(TaskOrTxKind::Tx(TransactionKindDb::ProposalVote))
                            }
                        },
                    }
                }
            },
        },
        _ => Some(TaskOrTxKind::Tx(row.kind)),
    }
}

/// What classification of a stored transaction row asks to insert: nothing
/// without a memo naming an enrolled player (a memo that is not UTF-8 text
/// names none), else the classified task under the eligibility rules.
pub open spec fn spec_classify_row(
    db: Db,
    cx: Context,
    row: TransactionDb,
    payloads: TxPayloads,
) -> Option<TaskInsertion> {
    match row.memo {
        None => None,
        Some(bytes) => match crate::codec::utf8_decode(bytes@) {
            None => None,
            Some(_) => {
                let pid = PlayerId(crate::codec::utf8_string_of(bytes@));
                if !has_player(db.players@, pid.0@) {
                    None
                } else {
                    match spec_classify_row_kind(db, cx, row, payloads) {
                        None => None,
                        Some(chosen) => {
                            let pk = player_kind_of(db.players@, pid.0@);
                            match spec_completable_by(chosen) {
                                CompletableBy::NoOne => None,
                                CompletableBy::DependsOnPlayerKind => Some(
                                    spec_make_insertion(chosen, pid.0),
                                ),
                                CompletableBy::OnlyCrew => {
                                    if pk == Some(PlayerKindDb::Crew) {
                                        Some(spec_make_insertion(chosen, pid.0))
                                    } else {
                                        Some(
                                            TaskInsertion::Unidentified(
                                                UnidentifiedTaskInsertDb {
                                                    tx_kind: row.kind,
                                                    player_id: pid.0,
                                                },
                                            ),
                                        )
                                    }
                                },
                                CompletableBy::OnlyPilots => {
                                    if pk == Some(PlayerKindDb::Pilot) {
                                        Some(spec_make_insertion(chosen, pid.0))
                                    } else {
                                        Some(
                                            TaskInsertion::Unidentified(
                                                UnidentifiedTaskInsertDb {
                                                    tx_kind: row.kind,
                                                    player_id: pid.0,
                                                },
                                            ),
                                        )
                                    }
                                },
                            }
                        },
                    }
                }
            },
        },
    }
}

/// The decoded transaction a stored row stands for classifies exactly as the
/// row does: the classifier reads only the kind tag, the hash text and the
/// parsed memo, all of which the row determines.
pub proof fn lemma_classify_row(
    db: Db,
    cx: Context,
    row: TransactionDb,
    tx: Transaction<PlayerId>,
    payloads: TxPayloads,
)
    requires
        spec_kind_to_db(&tx.kind) == row.kind,
        tx.hash.text() == row.id@,
        match (row.memo, tx.memo) {
            (None, None) => true,
            (Some(bytes), Some(p)) => crate::codec::utf8_decode(bytes@) is Some && p == PlayerId(
                crate::codec::utf8_string_of(bytes@),
            ),
            _ => false,
        },
    ensures
        spec_classify(db, cx, tx, payloads) == spec_classify_row(db, cx, row, payloads),
{
    lemma_classify_kind_row(db, cx, row, tx, payloads);
}

proof fn lemma_classify_kind_row(
    db: Db,
    cx: Context,
    row: TransactionDb,
    tx: Transaction<PlayerId>,
    payloads: TxPayloads,
)
    requires
        spec_kind_to_db(&tx.kind) == row.kind,
        tx.hash.text() == row.id@,
    ensures
        spec_classify_kind(db, cx, tx, payloads) == spec_classify_row_kind(db, cx, row, payloads),
{
    match row.kind {
        TransactionKindDb::Bond => {
            assert(tx.kind is Bond);
        },
        TransactionKindDb::IbcShieldedTransfer => {
            assert(tx.kind is IbcShieldedTransfer);
        },
        TransactionKindDb::ShieldedTransfer => {
            assert(tx.kind is ShieldedTransfer);
        },
        TransactionKindDb::BecomeValidator => {
            assert(tx.kind is BecomeValidator);
        },
        TransactionKindDb::ClaimRewards => {
            assert(tx.kind is ClaimRewards);
        },
        TransactionKindDb::ProposalVote => {
            assert(tx.kind is ProposalVote);
        },
        _ => {},
    }
}

} // verus!
