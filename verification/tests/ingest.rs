//! The ingest pass: window computation, the checkpoint, the pilot tasks and
//! the manual-task copy-through.

use score_extractor::context::Context;
use score_extractor::context::Epochs;
use score_extractor::context::GenesisTime;
use score_extractor::context::UpgradeProposer;
use score_extractor::db::Db;
use score_extractor::last_state::compute_task_heights_to_process;
use score_extractor::orm::BlockDb;
use score_extractor::orm::CommitDb;
use score_extractor::orm::CrawlerStateDb;
use score_extractor::orm::PlayerDb;
use score_extractor::orm::PlayerKindDb;
use score_extractor::orm::TaskInsertDb;
use score_extractor::orm::TaskTypeDb;
use score_extractor::orm::TmAddressDb;
use score_extractor::orm::TransactionDb;
use score_extractor::orm::TransactionExitStatusDb;
use score_extractor::orm::TransactionKindDb;
use score_extractor::players::player_exists;
use score_extractor::tasks::TaskInput;
use score_extractor::tasks::TransferDecode;
use score_extractor::tasks::TxPayloads;
use score_extractor::tasks::VoteDecode;
use score_extractor::tasks::update_task_statuses;
use score_extractor::transactions::PayloadOracle;
use score_extractor::transactions::process_new_tasks;

fn empty_db() -> Db {
    Db {
        players: vec![],
        blocks: vec![],
        commits: vec![],
        tm_addresses: vec![],
        transactions: vec![],
        governance_proposals: vec![],
        governance_votes: vec![],
        manual_tasks: vec![],
        tasks: vec![],
        unidentified_tasks: vec![],
        player_ranks: vec![],
        task_completion_state: None,
        crawler_state: vec![],
    }
}

fn player(id: &str, kind: PlayerKindDb, score: i64, internal_id: i32) -> PlayerDb {
    PlayerDb {
        id: id.to_owned(),
        moniker: format!("{id}-moniker"),
        namada_player_address: format!("addr-{id}"),
        namada_validator_address: None,
        email: format!("{id}@example.net"),
        kind,
        score,
        block_height: None,
        avatar_url: None,
        is_banned: None,
        internal_id,
    }
}

fn test_context(genesis: Option<i64>) -> Context {
    Context::new(
        Epochs { v0_to_v1: 10, v1_to_v2: 20 },
        UpgradeProposer("proposer".to_owned()),
        GenesisTime(genesis),
        "naan".to_owned(),
        "masp".to_owned(),
    )
}

fn block_row(id: &str, height: i32, epoch: i32, included_at: i64) -> BlockDb {
    BlockDb {
        id: id.to_owned(),
        height,
        included_at,
        proposer_address: "prop".to_owned(),
        epoch,
    }
}

fn empty_oracle() -> PayloadOracle {
    PayloadOracle { entries: vec![] }
}

#[test]
fn window_opens_only_when_the_indexer_moves() {
    let mut db = empty_db();
    assert_eq!(compute_task_heights_to_process(&db), None);
    db.crawler_state.push(CrawlerStateDb { id: 1, height: 5, epoch: 0 });
    assert_eq!(compute_task_heights_to_process(&db), Some((1, 5)));
}

#[test]
fn checkpoint_is_monotone_and_capped() {
    let mut db = empty_db();
    db.crawler_state.push(CrawlerStateDb { id: 1, height: 5000, epoch: 0 });
    let mut cx = test_context(Some(0));
    let oracle = empty_oracle();
    process_new_tasks(&mut db, &mut cx, &oracle, 42);
    // the first pass covers at most a thousand heights
    let first = db.task_completion_state.clone().expect("checkpoint must be written");
    assert_eq!(first.last_processed_height, 1001);
    assert_eq!(first.last_processed_time, 42);
    process_new_tasks(&mut db, &mut cx, &oracle, 43);
    let second = db.task_completion_state.clone().expect("checkpoint stays");
    assert!(second.last_processed_height >= first.last_processed_height);
    assert_eq!(second.last_processed_height, 2002);
}

#[test]
fn ingested_tasks_reference_enrolled_players() {
    let mut db = empty_db();
    db.players.push(player("P", PlayerKindDb::Crew, 0, 1));
    db.crawler_state.push(CrawlerStateDb { id: 1, height: 1, epoch: 0 });
    db.blocks.push(block_row("b1", 1, 5, 100));
    db.transactions.push(TransactionDb {
        id: "t1".to_owned(),
        inner_hash: None,
        index: 0,
        kind: TransactionKindDb::Bond,
        associated_data: None,
        exit_status: TransactionExitStatusDb::Applied,
        gas_used: 1,
        block_id: "b1".to_owned(),
        memo: Some(b"P".to_vec()),
    });
    let mut cx = test_context(Some(0));
    process_new_tasks(&mut db, &mut cx, &empty_oracle(), 7);
    assert!(db.has_task_row("P", TaskTypeDb::DelegateStakeOnV0));
    for row in &db.tasks {
        assert!(player_exists(&db, &row.player_id));
    }
    for row in &db.unidentified_tasks {
        assert!(player_exists(&db, &row.player_id));
    }
}

#[test]
fn memo_that_is_not_text_is_skipped() {
    let mut db = empty_db();
    db.players.push(player("P", PlayerKindDb::Crew, 0, 1));
    db.crawler_state.push(CrawlerStateDb { id: 1, height: 1, epoch: 0 });
    db.blocks.push(block_row("b1", 1, 5, 100));
    db.transactions.push(TransactionDb {
        id: "t1".to_owned(),
        inner_hash: None,
        index: 0,
        kind: TransactionKindDb::Bond,
        associated_data: None,
        exit_status: TransactionExitStatusDb::Applied,
        gas_used: 1,
        block_id: "b1".to_owned(),
        memo: Some(vec![0xff, 0xfe]),
    });
    let mut cx = test_context(Some(0));
    process_new_tasks(&mut db, &mut cx, &empty_oracle(), 7);
    assert_eq!(db.tasks.len(), 0);
    assert_eq!(db.unidentified_tasks.len(), 0);
    // the pass still advances the checkpoint
    assert_eq!(db.task_completion_state.clone().unwrap().last_processed_height, 1);
}

#[test]
fn pilot_tasks_from_signatures() {
    let mut db = empty_db();
    let mut pilot = player("P", PlayerKindDb::Pilot, 5, 1);
    pilot.namada_validator_address = Some("val-P".to_owned());
    db.players.push(pilot);
    db.tm_addresses.push(TmAddressDb {
        id: 1,
        tm_address: "tm-P".to_owned(),
        epoch: 0,
        validator_namada_address: "val-P".to_owned(),
    });
    // a block two minutes past genesis, and the first block of the upgrade
    db.blocks.push(block_row("b1", 1, 0, 1120));
    db.blocks.push(block_row("b2", 50, 20, 9999));
    db.commits.push(CommitDb {
        id: 1,
        signature: None,
        address: "tm-P".to_owned(),
        block_id: "b1".to_owned(),
    });
    db.commits.push(CommitDb {
        id: 2,
        signature: None,
        address: "tm-P".to_owned(),
        block_id: "b2".to_owned(),
    });
    let mut cx = test_context(Some(1000));
    update_task_statuses(&mut db, &mut cx, TaskInput::Pilot);
    assert!(db.has_task_row("P", TaskTypeDb::StartNode5MinFromGenesis));
    assert!(db.has_task_row("P", TaskTypeDb::SignFirstBlockOfUpgradeToV2));
    assert!(db.has_task_row("P", TaskTypeDb::InValidatorSetFor1Epoch));
}

#[test]
fn pilot_tasks_need_a_positive_score() {
    let mut db = empty_db();
    let mut pilot = player("P", PlayerKindDb::Pilot, 0, 1);
    pilot.namada_validator_address = Some("val-P".to_owned());
    db.players.push(pilot);
    db.tm_addresses.push(TmAddressDb {
        id: 1,
        tm_address: "tm-P".to_owned(),
        epoch: 0,
        validator_namada_address: "val-P".to_owned(),
    });
    db.blocks.push(block_row("b1", 1, 0, 1120));
    db.commits.push(CommitDb {
        id: 1,
        signature: None,
        address: "tm-P".to_owned(),
        block_id: "b1".to_owned(),
    });
    let mut cx = test_context(Some(1000));
    update_task_statuses(&mut db, &mut cx, TaskInput::Pilot);
    assert_eq!(db.tasks.len(), 0);
}

#[test]
fn manual_tasks_copy_through_once() {
    let mut db = empty_db();
    db.players.push(player("C", PlayerKindDb::Crew, 0, 1));
    db.manual_tasks.push(TaskInsertDb {
        task: TaskTypeDb::OperateNamadaIndexer,
        player_id: "C".to_owned(),
    });
    let mut cx = test_context(None);
    update_task_statuses(&mut db, &mut cx, TaskInput::SpecialTasks);
    update_task_statuses(&mut db, &mut cx, TaskInput::SpecialTasks);
    assert_eq!(db.tasks.len(), 1);
    assert!(db.has_task_row("C", TaskTypeDb::OperateNamadaIndexer));
}

#[test]
fn checkpoint_never_moves_backwards() {
    let mut db = empty_db();
    db.task_completion_state = Some(score_extractor::orm::TaskCompletionStateDb {
        id: 0,
        last_processed_time: 5,
        last_processed_height: 10,
    });
    // the indexer reports an older height than the checkpoint
    db.crawler_state.push(CrawlerStateDb { id: 1, height: 5, epoch: 0 });
    assert_eq!(compute_task_heights_to_process(&db), None);
    let mut cx = test_context(None);
    process_new_tasks(&mut db, &mut cx, &empty_oracle(), 99);
    let state = db.task_completion_state.clone().unwrap();
    assert_eq!(state.last_processed_height, 10);
    assert_eq!(state.last_processed_time, 5);
}

#[test]
fn window_transactions_classify_through_the_oracle() {
    let mut db = empty_db();
    db.players.push(player("C", PlayerKindDb::Crew, 0, 1));
    db.crawler_state.push(CrawlerStateDb { id: 1, height: 2, epoch: 0 });
    db.blocks.push(block_row("b1", 1, 0, 100));
    db.blocks.push(block_row("b9", 900, 0, 100));
    db.transactions.push(TransactionDb {
        id: "t1".to_owned(),
        inner_hash: None,
        index: 0,
        kind: TransactionKindDb::ShieldedTransfer,
        associated_data: Some(vec![1, 2, 3]),
        exit_status: TransactionExitStatusDb::Applied,
        gas_used: 1,
        block_id: "b1".to_owned(),
        memo: Some(b"C".to_vec()),
    });
    // a second transaction outside the window stays unprocessed
    db.transactions.push(TransactionDb {
        id: "t9".to_owned(),
        inner_hash: None,
        index: 0,
        kind: TransactionKindDb::ClaimRewards,
        associated_data: None,
        exit_status: TransactionExitStatusDb::Applied,
        gas_used: 1,
        block_id: "b9".to_owned(),
        memo: Some(b"C".to_vec()),
    });
    let oracle = PayloadOracle {
        entries: vec![(
            "t1".to_owned(),
            TxPayloads {
                transfer: TransferDecode::Transfer {
                    source: "naan".to_owned(),
                    target: "masp".to_owned(),
                },
                vote: VoteDecode::Undecodable,
            },
        )],
    };
    let mut cx = test_context(None);
    process_new_tasks(&mut db, &mut cx, &oracle, 7);
    assert!(db.has_task_row("C", TaskTypeDb::ShieldNaan));
    assert_eq!(db.tasks.len(), 1);
    assert_eq!(db.unidentified_tasks.len(), 0);
    assert_eq!(db.task_completion_state.clone().unwrap().last_processed_height, 2);
}
