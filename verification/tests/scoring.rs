//! The pool-prize scorer against concrete ledgers.

use score_extractor::context::Context;
use score_extractor::context::Epochs;
use score_extractor::context::GenesisTime;
use score_extractor::context::UpgradeProposer;
use score_extractor::db::Db;
use score_extractor::orm::CommitDb;
use score_extractor::orm::GovernanceProposalDb;
use score_extractor::orm::GovernanceProposalKindDb;
use score_extractor::orm::GovernanceProposalResultDb;
use score_extractor::orm::GovernanceProposalVoteDb;
use score_extractor::orm::GovernanceVoteKindDb;
use score_extractor::orm::PlayerDb;
use score_extractor::orm::PlayerKindDb;
use score_extractor::orm::TaskDb;
use score_extractor::orm::TaskTypeDb;
use score_extractor::orm::TmAddressDb;
use score_extractor::orm::UnidentifiedTaskDb;
use score_extractor::orm::TransactionKindDb;
use score_extractor::scores::CompletedBy;
use score_extractor::scores::PoolPrizeKind;
use score_extractor::scores::get_task_pool_prize;
use score_extractor::scores::recompute_task_scores;
use score_extractor::tasks::TaskOrTxKind;

fn empty_db() -> Db {
    Db {
        players: vec![],
        blocks: vec![],
        commits: vec![],
        tm_addresses: vec![],
        transactions: vec![],
        governance_proposals: vec![],
        governance_votes: vec![],
        manual_tasks: vec![],
        tasks: vec![],
        unidentified_tasks: vec![],
        player_ranks: vec![],
        task_completion_state: None,
        crawler_state: vec![],
    }
}

fn player(id: &str, kind: PlayerKindDb, internal_id: i32) -> PlayerDb {
    PlayerDb {
        id: id.to_owned(),
        moniker: format!("{id}-moniker"),
        namada_player_address: format!("addr-{id}"),
        namada_validator_address: None,
        email: format!("{id}@example.net"),
        kind,
        score: 0,
        block_height: None,
        avatar_url: None,
        is_banned: None,
        internal_id,
    }
}

fn test_context() -> Context {
    Context::new(
        Epochs { v0_to_v1: 10, v1_to_v2: 20 },
        UpgradeProposer("proposer".to_owned()),
        GenesisTime(None),
        "naan".to_owned(),
        "masp".to_owned(),
    )
}

fn task_row(id: i32, task: TaskTypeDb, player_id: &str) -> TaskDb {
    TaskDb { id, task, player_id: player_id.to_owned() }
}

fn proposal_row(id: i32) -> GovernanceProposalDb {
    GovernanceProposalDb {
        id,
        content: None,
        kind: GovernanceProposalKindDb::Default,
        author: "author".to_owned(),
        start_epoch: 0,
        end_epoch: 1,
        grace_epoch: 2,
        yay_votes: "0".to_owned(),
        nay_votes: "0".to_owned(),
        abstain_votes: "0".to_owned(),
        result: GovernanceProposalResultDb::Passed,
        transaction_id: "t0".to_owned(),
    }
}

fn vote_row(id: i32, proposal_id: i32, player_id: &str) -> GovernanceProposalVoteDb {
    GovernanceProposalVoteDb {
        id,
        voter_address: format!("voter-{player_id}"),
        kind: GovernanceVoteKindDb::Yay,
        proposal_id,
        transaction_id: format!("vt-{id}"),
        player_id: player_id.to_owned(),
    }
}

fn score_of(db: &Db, id: &str) -> i64 {
    db.players.iter().find(|p| p.id == id).expect("player must exist").score
}

#[test]
fn fixed_pool_award() {
    // the crew staking pool splits over the whole crew population
    let mut db = empty_db();
    db.players.push(player("C", PlayerKindDb::Crew, 1));
    db.tasks.push(task_row(1, TaskTypeDb::DelegateStakeOnV0, "C"));
    let mut cx = test_context();
    recompute_task_scores(&mut db, &mut cx);
    assert_eq!(score_of(&db, "C"), 331_614);
}

#[test]
fn relative_pool_splits_over_completers() {
    // two completers of one pilot one-shot task split its pool
    let mut db = empty_db();
    db.players.push(player("P1", PlayerKindDb::Pilot, 1));
    db.players.push(player("P2", PlayerKindDb::Pilot, 2));
    db.tasks.push(task_row(1, TaskTypeDb::InitPostGenesisValidator, "P1"));
    db.tasks.push(task_row(2, TaskTypeDb::InitPostGenesisValidator, "P2"));
    let mut cx = test_context();
    recompute_task_scores(&mut db, &mut cx);
    // 34,285,714,286 points split two ways, floored
    assert_eq!(score_of(&db, "P1"), 17_142_857_143);
    assert_eq!(score_of(&db, "P2"), 17_142_857_143);
}

#[test]
fn banned_players_earn_nothing_and_shrink_no_pool() {
    let mut db = empty_db();
    db.players.push(player("P1", PlayerKindDb::Pilot, 1));
    let mut banned = player("P2", PlayerKindDb::Pilot, 2);
    banned.is_banned = Some(true);
    banned.score = 77;
    db.players.push(banned);
    db.tasks.push(task_row(1, TaskTypeDb::InitPostGenesisValidator, "P1"));
    db.tasks.push(task_row(2, TaskTypeDb::InitPostGenesisValidator, "P2"));
    let mut cx = test_context();
    recompute_task_scores(&mut db, &mut cx);
    // the banned completer neither earns nor counts in the denominator
    assert_eq!(score_of(&db, "P1"), 34_285_714_286);
    assert_eq!(score_of(&db, "P2"), 0);
}

#[test]
fn scores_are_recomputed_from_scratch() {
    let mut db = empty_db();
    let mut rich = player("C", PlayerKindDb::Crew, 1);
    rich.score = 1_000_000;
    db.players.push(rich);
    let mut cx = test_context();
    recompute_task_scores(&mut db, &mut cx);
    // no ledger entries: the stale score is gone
    assert_eq!(score_of(&db, "C"), 0);
}

#[test]
fn scoring_twice_is_idempotent_once_support_settles() {
    let mut db = empty_db();
    db.players.push(player("C1", PlayerKindDb::Crew, 1));
    db.players.push(player("C2", PlayerKindDb::Crew, 2));
    db.unidentified_tasks.push(UnidentifiedTaskDb {
        id: 1,
        tx_kind: TransactionKindDb::Unbond,
        player_id: "C1".to_owned(),
    });
    let mut cx = test_context();
    recompute_task_scores(&mut db, &mut cx);
    let first: Vec<i64> = db.players.iter().map(|p| p.score).collect();
    recompute_task_scores(&mut db, &mut cx);
    let second: Vec<i64> = db.players.iter().map(|p| p.score).collect();
    assert_eq!(first, second);
}

#[test]
fn unidentified_pool_award() {
    // one crew member recorded under one unidentified kind
    let mut db = empty_db();
    db.players.push(player("C", PlayerKindDb::Crew, 1));
    db.unidentified_tasks.push(UnidentifiedTaskDb {
        id: 1,
        tx_kind: TransactionKindDb::Unbond,
        player_id: "C".to_owned(),
    });
    let mut cx = test_context();
    recompute_task_scores(&mut db, &mut cx);
    // 300e9 points over twenty-six kinds, sole completer, floored
    assert_eq!(score_of(&db, "C"), 11_538_461_538);
}

#[test]
fn governance_participation_thresholds() {
    let mut db = empty_db();
    db.players.push(player("P", PlayerKindDb::Pilot, 1));
    db.players.push(player("Q", PlayerKindDb::Pilot, 2));
    for i in 0..100 {
        db.governance_proposals.push(proposal_row(i));
    }
    let mut vote_id = 0;
    for i in 0..95 {
        db.governance_votes.push(vote_row(vote_id, i, "P"));
        vote_id += 1;
    }
    for i in 0..99 {
        db.governance_votes.push(vote_row(vote_id, i, "Q"));
        vote_id += 1;
    }
    let mut cx = test_context();
    recompute_task_scores(&mut db, &mut cx);
    // both clear ninety per cent; only Q clears ninety-nine
    let keep90_share = 31_250_000_000 / 2;
    let keep99_share = 31_250_000_000;
    assert_eq!(score_of(&db, "P"), keep90_share);
    assert_eq!(score_of(&db, "Q"), keep90_share + keep99_share);
}

#[test]
fn empty_proposal_table_means_zero_participation() {
    let mut db = empty_db();
    db.players.push(player("P", PlayerKindDb::Pilot, 1));
    db.governance_votes.push(vote_row(1, 3, "P"));
    let mut cx = test_context();
    recompute_task_scores(&mut db, &mut cx);
    assert_eq!(score_of(&db, "P"), 0);
}

#[test]
fn uptime_threshold_award() {
    let mut db = empty_db();
    let mut pilot = player("P", PlayerKindDb::Pilot, 1);
    pilot.namada_validator_address = Some("val-P".to_owned());
    pilot.score = 5;  // measured at the start of the pass
    db.players.push(pilot);
    db.tm_addresses.push(TmAddressDb {
        id: 1,
        tm_address: "tm-P".to_owned(),
        epoch: 0,
        validator_namada_address: "val-P".to_owned(),
    });
    // exactly ninety-five per cent of the chain-final block count
    for i in 0..337_560 {
        db.commits.push(CommitDb {
            id: i,
            signature: None,
            address: "tm-P".to_owned(),
            block_id: format!("b{i}"),
        });
    }
    let mut cx = test_context();
    recompute_task_scores(&mut db, &mut cx);
    assert_eq!(score_of(&db, "P"), 31_250_000_000);
}

#[test]
fn uptime_needs_a_nonzero_score_at_the_start() {
    let mut db = empty_db();
    let mut pilot = player("P", PlayerKindDb::Pilot, 1);
    pilot.namada_validator_address = Some("val-P".to_owned());
    // score starts at zero: the uptime snapshot leaves the pilot out
    db.players.push(pilot);
    db.tm_addresses.push(TmAddressDb {
        id: 1,
        tm_address: "tm-P".to_owned(),
        epoch: 0,
        validator_namada_address: "val-P".to_owned(),
    });
    for i in 0..337_560 {
        db.commits.push(CommitDb {
            id: i,
            signature: None,
            address: "tm-P".to_owned(),
            block_id: format!("b{i}"),
        });
    }
    let mut cx = test_context();
    recompute_task_scores(&mut db, &mut cx);
    assert_eq!(score_of(&db, "P"), 0);
}

#[test]
fn pilot_with_no_commits_gets_no_uptime_task() {
    let mut db = empty_db();
    let mut pilot = player("P", PlayerKindDb::Pilot, 1);
    pilot.namada_validator_address = Some("val-P".to_owned());
    pilot.score = 5;
    db.players.push(pilot);
    let mut cx = test_context();
    recompute_task_scores(&mut db, &mut cx);
    assert_eq!(score_of(&db, "P"), 0);
}

#[test]
fn pool_assignment_is_a_function_of_kind_and_count() {
    // the same class, kind and count always resolve to the same pool
    let a = get_task_pool_prize(&PlayerKindDb::Crew, TaskOrTxKind::Task(TaskTypeDb::ShieldNaan));
    let b = get_task_pool_prize(&PlayerKindDb::Crew, TaskOrTxKind::Task(TaskTypeDb::ShieldNaan));
    assert_eq!(a, b);
    // an unknown transaction kind funds no pool
    assert_eq!(
        get_task_pool_prize(&PlayerKindDb::Crew, TaskOrTxKind::Tx(TransactionKindDb::Unknown)),
        None
    );
    // a crew-only task pays no pilot
    assert_eq!(
        get_task_pool_prize(&PlayerKindDb::Pilot, TaskOrTxKind::Task(TaskTypeDb::ShieldNaan)),
        None
    );
    // manual tasks fund different pots per class
    let crew = get_task_pool_prize(
        &PlayerKindDb::Crew,
        TaskOrTxKind::Task(TaskTypeDb::OperateNamadaIndexer),
    );
    let pilot = get_task_pool_prize(
        &PlayerKindDb::Pilot,
        TaskOrTxKind::Task(TaskTypeDb::OperateNamadaIndexer),
    );
    match (crew, pilot) {
        (
            Some(PoolPrizeKind::RelativeCrew(c)),
            Some(PoolPrizeKind::RelativePilot(p)),
        ) => {
            assert_eq!(c.0.centipoints, 6_666_666_666_700);
            assert_eq!(p.0.centipoints, 6_250_000_000_000);
        }
        _ => panic!("manual tasks pay both classes from their own pots"),
    }
    let _ = CompletedBy(1);
}
