//! The transaction classifier against concrete snapshots.

use score_extractor::context::Context;
use score_extractor::context::Epochs;
use score_extractor::context::GenesisTime;
use score_extractor::context::UpgradeProposer;
use score_extractor::db::Db;
use score_extractor::id::Id;
use score_extractor::orm::BlockDb;
use score_extractor::orm::GovernanceProposalDb;
use score_extractor::orm::GovernanceProposalKindDb;
use score_extractor::orm::GovernanceProposalResultDb;
use score_extractor::orm::PlayerDb;
use score_extractor::orm::PlayerKindDb;
use score_extractor::orm::TaskTypeDb;
use score_extractor::orm::TransactionDb;
use score_extractor::orm::TransactionExitStatusDb;
use score_extractor::orm::TransactionKindDb;
use score_extractor::player::PlayerId;
use score_extractor::tasks::TaskInput;
use score_extractor::tasks::TaskInsertion;
use score_extractor::tasks::TransferDecode;
use score_extractor::tasks::TxPayloads;
use score_extractor::tasks::VoteDecode;
use score_extractor::tasks::compute_insertable_task_from_tx;
use score_extractor::tasks::update_task_statuses;
use score_extractor::transaction::Transaction;
use score_extractor::transaction::TransactionExitStatus;
use score_extractor::transaction::TransactionKind;

fn empty_db() -> Db {
    Db {
        players: vec![],
        blocks: vec![],
        commits: vec![],
        tm_addresses: vec![],
        transactions: vec![],
        governance_proposals: vec![],
        governance_votes: vec![],
        manual_tasks: vec![],
        tasks: vec![],
        unidentified_tasks: vec![],
        player_ranks: vec![],
        task_completion_state: None,
        crawler_state: vec![],
    }
}

fn player(id: &str, kind: PlayerKindDb, internal_id: i32) -> PlayerDb {
    PlayerDb {
        id: id.to_owned(),
        moniker: format!("{id}-moniker"),
        namada_player_address: format!("addr-{id}"),
        namada_validator_address: None,
        email: format!("{id}@example.net"),
        kind,
        score: 0,
        block_height: None,
        avatar_url: None,
        is_banned: None,
        internal_id,
    }
}

fn test_context() -> Context {
    Context::new(
        Epochs { v0_to_v1: 10, v1_to_v2: 20 },
        UpgradeProposer("proposer".to_owned()),
        GenesisTime(None),
        "naan".to_owned(),
        "masp".to_owned(),
    )
}

fn no_payloads() -> TxPayloads {
    TxPayloads { transfer: TransferDecode::Undecodable, vote: VoteDecode::Undecodable }
}

fn tx(id: &str, kind: TransactionKind, memo: Option<&str>) -> Transaction<PlayerId> {
    Transaction {
        hash: Id::Hash(id.to_owned()),
        inner_hash: None,
        kind,
        status: TransactionExitStatus::Applied,
        memo: memo.map(|m| PlayerId(m.to_owned())),
        gas_used: 1,
        index: 0,
    }
}

fn tx_row(id: &str, block_id: &str, kind: TransactionKindDb) -> TransactionDb {
    TransactionDb {
        id: id.to_owned(),
        inner_hash: None,
        index: 0,
        kind,
        associated_data: None,
        exit_status: TransactionExitStatusDb::Applied,
        gas_used: 1,
        block_id: block_id.to_owned(),
        memo: None,
    }
}

fn block_row(id: &str, height: i32, epoch: i32) -> BlockDb {
    BlockDb {
        id: id.to_owned(),
        height,
        included_at: 1000 + height as i64,
        proposer_address: "prop".to_owned(),
        epoch,
    }
}

#[test]
fn bond_epoch_boundary() {
    let mut db = empty_db();
    db.players.push(player("P", PlayerKindDb::Crew, 1));
    db.blocks.push(block_row("b1", 1, 5));
    db.blocks.push(block_row("b2", 2, 15));
    db.blocks.push(block_row("b3", 3, 25));
    db.transactions.push(tx_row("t1", "b1", TransactionKindDb::Bond));
    db.transactions.push(tx_row("t2", "b2", TransactionKindDb::Bond));
    db.transactions.push(tx_row("t3", "b3", TransactionKindDb::Bond));
    let mut cx = test_context();

    for id in ["t1", "t2", "t3"] {
        let input = TaskInput::Transaction {
            tx: tx(id, TransactionKind::Bond(vec![]), Some("P")),
            payloads: no_payloads(),
        };
        update_task_statuses(&mut db, &mut cx, input);
    }

    assert!(db.has_task_row("P", TaskTypeDb::DelegateStakeOnV0));
    assert!(db.has_task_row("P", TaskTypeDb::DelegateStakeOnV1));
    assert!(db.has_unidentified_row("P", TransactionKindDb::Bond));
    assert_eq!(db.tasks.len(), 2);
    assert_eq!(db.unidentified_tasks.len(), 1);
}

#[test]
fn upgrade_vote_id_short_circuit() {
    let mut db = empty_db();
    db.players.push(player("P", PlayerKindDb::Pilot, 1));
    let mut cx = test_context();

    let payloads =
        TxPayloads { transfer: TransferDecode::Undecodable, vote: VoteDecode::Vote { proposal_id: 316 } };
    let input = TaskInput::Transaction {
        tx: tx("t1", TransactionKind::ProposalVote(vec![]), Some("P")),
        payloads,
    };
    update_task_statuses(&mut db, &mut cx, input);

    assert!(db.has_task_row("P", TaskTypeDb::VoteUpgradeV0ToV1));
    assert_eq!(db.unidentified_tasks.len(), 0);
}

#[test]
fn crew_only_task_from_pilot() {
    let mut db = empty_db();
    db.players.push(player("P", PlayerKindDb::Pilot, 1));
    let mut cx = test_context();

    let input = TaskInput::Transaction {
        tx: tx("t1", TransactionKind::ClaimRewards(vec![]), Some("P")),
        payloads: no_payloads(),
    };
    update_task_statuses(&mut db, &mut cx, input);

    assert_eq!(db.tasks.len(), 0);
    assert_eq!(db.unidentified_tasks.len(), 1);
    assert!(db.has_unidentified_row("P", TransactionKindDb::ClaimRewards));
}

#[test]
fn shielded_transfer_direction_decides_task() {
    let cases = [
        ("masp", "masp", Some(TaskTypeDb::ShieldToShielded)),
        ("naan", "masp", Some(TaskTypeDb::ShieldNaan)),
        ("masp", "naan", Some(TaskTypeDb::UnshieldNaan)),
        ("other", "masp", None),
    ];
    for (source, target, expected) in cases {
        let mut db = empty_db();
        db.players.push(player("C", PlayerKindDb::Crew, 1));
        let mut cx = test_context();
        let payloads = TxPayloads {
            transfer: TransferDecode::Transfer {
                source: source.to_owned(),
                target: target.to_owned(),
            },
            vote: VoteDecode::Undecodable,
        };
        let input = TaskInput::Transaction {
            tx: tx("t1", TransactionKind::ShieldedTransfer(vec![]), Some("C")),
            payloads,
        };
        update_task_statuses(&mut db, &mut cx, input);
        match expected {
            Some(task) => {
                assert!(db.has_task_row("C", task));
                assert_eq!(db.unidentified_tasks.len(), 0);
            }
            None => {
                assert_eq!(db.tasks.len(), 0);
                assert!(db.has_unidentified_row("C", TransactionKindDb::ShieldedTransfer));
            }
        }
    }
}

#[test]
fn vote_for_steward_proposal() {
    let mut db = empty_db();
    db.players.push(player("P", PlayerKindDb::Pilot, 1));
    db.governance_proposals.push(GovernanceProposalDb {
        id: 7,
        content: None,
        kind: GovernanceProposalKindDb::PgfSteward,
        author: "someone".to_owned(),
        start_epoch: 0,
        end_epoch: 1,
        grace_epoch: 2,
        yay_votes: "0".to_owned(),
        nay_votes: "0".to_owned(),
        abstain_votes: "0".to_owned(),
        result: GovernanceProposalResultDb::Passed,
        transaction_id: "t0".to_owned(),
    });
    let mut cx = test_context();
    let payloads =
        TxPayloads { transfer: TransferDecode::Undecodable, vote: VoteDecode::Vote { proposal_id: 7 } };
    let input = TaskInput::Transaction {
        tx: tx("t1", TransactionKind::ProposalVote(vec![]), Some("P")),
        payloads,
    };
    update_task_statuses(&mut db, &mut cx, input);
    assert!(db.has_task_row("P", TaskTypeDb::VotePgfStewardProposal));
}

#[test]
fn vote_grace_epoch_decides_upgrade_task() {
    for (grace, expected) in [
        (10, Some(TaskTypeDb::VoteUpgradeV0ToV1)),
        (20, Some(TaskTypeDb::VoteUpgradeV1ToV2)),
        (30, None),
    ] {
        let mut db = empty_db();
        db.players.push(player("P", PlayerKindDb::Pilot, 1));
        db.governance_proposals.push(GovernanceProposalDb {
            id: 7,
            content: None,
            kind: GovernanceProposalKindDb::Default,
            author: "proposer".to_owned(),
            start_epoch: 0,
            end_epoch: 1,
            grace_epoch: grace,
            yay_votes: "0".to_owned(),
            nay_votes: "0".to_owned(),
            abstain_votes: "0".to_owned(),
            result: GovernanceProposalResultDb::Passed,
            transaction_id: "t0".to_owned(),
        });
        let mut cx = test_context();
        let payloads = TxPayloads {
            transfer: TransferDecode::Undecodable,
            vote: VoteDecode::Vote { proposal_id: 7 },
        };
        let input = TaskInput::Transaction {
            tx: tx("t1", TransactionKind::ProposalVote(vec![]), Some("P")),
            payloads,
        };
        update_task_statuses(&mut db, &mut cx, input);
        match expected {
            Some(task) => assert!(db.has_task_row("P", task)),
            None => assert!(db.has_unidentified_row("P", TransactionKindDb::ProposalVote)),
        }
    }
}

#[test]
fn unknown_kind_and_missing_memo_classify_to_nothing() {
    let mut db = empty_db();
    db.players.push(player("P", PlayerKindDb::Crew, 1));
    let mut cx = test_context();

    // unknown transaction kinds can be completed by no one
    let r = compute_insertable_task_from_tx(
        &db,
        &mut cx,
        &tx("t1", TransactionKind::Unknown, Some("P")),
        &no_payloads(),
    );
    assert!(r.is_none());

    // no memo, no task
    let r = compute_insertable_task_from_tx(
        &db,
        &mut cx,
        &tx("t2", TransactionKind::ClaimRewards(vec![]), None),
        &no_payloads(),
    );
    assert!(r.is_none());

    // a memo that names nobody enrolled, no task
    let r = compute_insertable_task_from_tx(
        &db,
        &mut cx,
        &tx("t3", TransactionKind::ClaimRewards(vec![]), Some("stranger")),
        &no_payloads(),
    );
    assert!(r.is_none());
}

#[test]
fn classification_is_repeatable() {
    let mut db = empty_db();
    db.players.push(player("C", PlayerKindDb::Crew, 1));
    let mut cx = test_context();
    let t = tx("t1", TransactionKind::ClaimRewards(vec![]), Some("C"));
    let first = compute_insertable_task_from_tx(&db, &mut cx, &t, &no_payloads());
    let second = compute_insertable_task_from_tx(&db, &mut cx, &t, &no_payloads());
    match (first, second) {
        (Some(TaskInsertion::Identified(a)), Some(TaskInsertion::Identified(b))) => {
            assert_eq!(a.task, b.task);
            assert_eq!(a.player_id, b.player_id);
            assert_eq!(a.task, TaskTypeDb::ClaimPosRewards);
        }
        _ => panic!("claim rewards from a crew member must classify identically twice"),
    }
}
