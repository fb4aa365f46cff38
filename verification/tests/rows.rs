//! Block-level row conversions.

use score_extractor::block::Block;
use score_extractor::block::BlockHeader;
use score_extractor::block_result::BlockResult;
use score_extractor::block_result::Event;
use score_extractor::chain_parameters::ChainParameters;
use score_extractor::evidence::EvidenceKind;
use score_extractor::id::Id;
use score_extractor::orm::EvidenceKindDb;
use score_extractor::orm::TransactionKindDb;
use score_extractor::transaction::Transaction;
use score_extractor::transaction::TransactionExitStatus;
use score_extractor::transaction::TransactionKind;
use score_extractor::validator::Steward;
use score_extractor::validator::StewardSet;
use score_extractor::validator::Validator;
use score_extractor::validator::ValidatorSet;

fn sample_block() -> Block {
    Block {
        hash: Id::Hash("b1".to_owned()),
        header: BlockHeader {
            height: 7,
            proposer_address: "prop".to_owned(),
            timestamp: "sometime".to_owned(),
            app_hash: Id::Hash("app".to_owned()),
        },
        evidences: vec![
            EvidenceKind::DuplicateVote("v1".to_owned()),
            EvidenceKind::LightClientAttack("v2".to_owned()),
        ],
        commit: None,
        transactions: vec![],
        begin_events: vec![],
        end_events: vec![],
        epoch: 3,
    }
}

#[test]
fn block_setters_replace_the_right_parts() {
    let mut block = sample_block();
    block.set_epoch(9);
    assert_eq!(block.epoch, 9);

    let tx = Transaction {
        hash: Id::Hash("t1".to_owned()),
        inner_hash: None,
        kind: TransactionKind::Bond(vec![]),
        status: TransactionExitStatus::Applied,
        memo: None,
        gas_used: 1,
        index: 0,
    };
    block.set_transactions(vec![tx]);
    assert_eq!(block.transactions.len(), 1);

    let results = BlockResult {
        height: 7,
        begin_events: vec![Event { kind: "begin".to_owned(), attributes: vec![] }],
        end_events: vec![],
        tx_attributes: vec![],
    };
    block.set_block_events(&results);
    assert_eq!(block.begin_events.len(), 1);
    assert_eq!(block.begin_events[0].kind, "begin");
    assert_eq!(block.end_events.len(), 0);
}

#[test]
fn block_transaction_rows_skip_unknown_kinds() {
    let mut block = sample_block();
    let known = Transaction {
        hash: Id::Hash("t1".to_owned()),
        inner_hash: None,
        kind: TransactionKind::Withdraw(vec![8]),
        status: TransactionExitStatus::Applied,
        memo: None,
        gas_used: 1,
        index: 0,
    };
    let unknown = Transaction {
        hash: Id::Hash("t2".to_owned()),
        inner_hash: None,
        kind: TransactionKind::Unknown,
        status: TransactionExitStatus::Applied,
        memo: None,
        gas_used: 1,
        index: 1,
    };
    block.set_transactions(vec![known, unknown]);
    let rows = block.to_transactions_db();
    assert_eq!(rows.len(), 1);
    assert_eq!(rows[0].id, "t1");
    assert_eq!(rows[0].kind, TransactionKindDb::Withdraw);
    assert_eq!(rows[0].block_id, "b1");
}

#[test]
fn block_evidence_rows() {
    let block = sample_block();
    let rows = block.to_evidence_db();
    assert_eq!(rows.len(), 2);
    assert_eq!(rows[0].kind, EvidenceKindDb::DuplicateVote);
    assert_eq!(rows[0].validator_address, "v1");
    assert_eq!(rows[1].kind, EvidenceKindDb::LightClientAttack);
    assert_eq!(rows[1].validator_address, "v2");
    assert_eq!(rows[1].block_id, "b1");
    assert_eq!(block.to_commits_db().len(), 0);
}

#[test]
fn validator_and_steward_rows() {
    let set = ValidatorSet {
        validators: vec![Validator {
            address: Id::Account("val1".to_owned()),
            voting_power: "100".to_owned(),
            tm_address: Id::Account("tm1".to_owned()),
            max_commission: "0.1".to_owned(),
            commission: "0.05".to_owned(),
            email: "v@example.net".to_owned(),
            description: None,
            website: None,
            discord_handler: None,
            avatar: None,
        }],
        epoch: 4,
    };
    let rows = set.to_tm_addresses_db();
    assert_eq!(rows.len(), 1);
    assert_eq!(rows[0].tm_address, "tm1");
    assert_eq!(rows[0].validator_namada_address, "val1");
    assert_eq!(rows[0].epoch, 4);

    let stewards = StewardSet {
        stewards: vec![Steward { namada_address: Id::Account("st1".to_owned()) }],
        block_height: 12,
    };
    let rows = stewards.to_stewards_db();
    assert_eq!(rows.len(), 1);
    assert_eq!(rows[0].namada_address, "st1");
    assert_eq!(rows[0].block_height, 12);
}

#[test]
fn chain_parameters_row() {
    let params = ChainParameters {
        epoch: 6,
        total_native_token_supply: "1000".to_owned(),
        total_staked_native_token: "700".to_owned(),
        max_validators: 100,
        pos_inflation: "0.1".to_owned(),
        pgf_treasury_inflation: "0.02".to_owned(),
        pgf_steward_inflation: "0.01".to_owned(),
        pgf_treasury: "55".to_owned(),
    };
    let row = params.to_chain_parameters_db();
    assert_eq!(row.id, 6);
    assert_eq!(row.total_native_token_supply, "1000");
    assert_eq!(row.max_validators, 100);
    assert_eq!(row.pgf_treasury, "55");
}

#[test]
fn transaction_kind_payload_bytes() {
    let kind = TransactionKind::Redelegation(vec![3, 1, 4]);
    assert_eq!(kind.get_bytes(), Some(&[3u8, 1, 4][..]));
    assert_eq!(TransactionKind::Wrapper.get_bytes(), None);
    assert_eq!(TransactionKind::Unknown.get_bytes(), None);
}

#[test]
fn transaction_ok_means_not_rejected() {
    let mut tx = Transaction {
        hash: Id::Hash("t1".to_owned()),
        inner_hash: None,
        kind: TransactionKind::Wrapper,
        status: TransactionExitStatus::Accepted,
        memo: None::<score_extractor::transaction::RawMemo>,
        gas_used: 0,
        index: 0,
    };
    assert!(tx.ok());
    tx.status = TransactionExitStatus::Applied;
    assert!(tx.ok());
    tx.status = TransactionExitStatus::Rejected;
    assert!(!tx.ok());
}
