//! Decoding, row conversions and memo parsing.

use score_extractor::block_result::BlockResult;
use score_extractor::block_result::TxAttributes;
use score_extractor::block_result::TxEventStatusCode;
use score_extractor::checksums::Checksums;
use score_extractor::commit::Commit;
use score_extractor::commit::CommitSignature;
use score_extractor::commit::CommitSignatureKind;
use score_extractor::id::Id;
use score_extractor::orm::TransactionExitStatusDb;
use score_extractor::orm::TransactionKindDb;
use score_extractor::player::PlayerId;
use score_extractor::transaction::IbcShape;
use score_extractor::transaction::NamadaTxParts;
use score_extractor::transaction::RawMemo;
use score_extractor::transaction::Transaction;
use score_extractor::transaction::TransactionExitStatus;
use score_extractor::transaction::TransactionKind;
use score_extractor::transaction::TransferShape;
use score_extractor::transaction::TxHeaderType;

#[test]
fn memo_parses_as_text() {
    let parsed = PlayerId::try_from(RawMemo(b"tpknam1abc".to_vec()));
    match parsed {
        Ok(PlayerId(text)) => assert_eq!(text, "tpknam1abc"),
        Err(_) => panic!("valid text must parse"),
    }
    assert!(PlayerId::try_from(RawMemo(vec![0xff, 0xfe])).is_err());
}

#[test]
fn parse_memo_rides_along_the_transaction() {
    let tx = Transaction {
        hash: Id::Hash("t1".to_owned()),
        inner_hash: None,
        kind: TransactionKind::Bond(vec![1, 2]),
        status: TransactionExitStatus::Applied,
        memo: Some(RawMemo(b"player-7".to_vec())),
        gas_used: 9,
        index: 3,
    };
    let parsed = tx.try_parse_memo().expect("text memo must parse");
    match parsed.memo {
        Some(PlayerId(text)) => assert_eq!(text, "player-7"),
        None => panic!("the memo must survive parsing"),
    }
    assert_eq!(parsed.gas_used, 9);
    assert_eq!(parsed.index, 3);
}

#[test]
fn kind_resolution_by_code_name() {
    let k = TransactionKind::from("tx_bond", &[1, 2], TransferShape::Undecodable, IbcShape::Undecodable);
    assert!(matches!(k, TransactionKind::Bond(ref b) if b == &vec![1, 2]));
    let k = TransactionKind::from("tx_transfer", &[], TransferShape::Shielded, IbcShape::Undecodable);
    assert!(matches!(k, TransactionKind::ShieldedTransfer(_)));
    let k = TransactionKind::from("tx_transfer", &[], TransferShape::Transparent, IbcShape::Undecodable);
    assert!(matches!(k, TransactionKind::TransparentTransfer(_)));
    let k = TransactionKind::from("tx_ibc", &[], TransferShape::Undecodable, IbcShape::Shielded);
    assert!(matches!(k, TransactionKind::IbcShieldedTransfer(_)));
    let k = TransactionKind::from("tx_vote_proposal", &[], TransferShape::Undecodable, IbcShape::Undecodable);
    assert!(matches!(k, TransactionKind::ProposalVote(_)));
    let k = TransactionKind::from("tx_nonsense", &[], TransferShape::Undecodable, IbcShape::Undecodable);
    assert!(matches!(k, TransactionKind::Unknown));
}

#[test]
fn exit_status_from_result_event() {
    let ok_event = TxAttributes { hash: "h".to_owned(), code: TxEventStatusCode::Success, gas: 5 };
    let fail_event = TxAttributes { hash: "h".to_owned(), code: TxEventStatusCode::Fail, gas: 5 };
    assert_eq!(
        TransactionExitStatus::from(&ok_event, &TransactionKind::Wrapper),
        TransactionExitStatus::Accepted
    );
    assert_eq!(
        TransactionExitStatus::from(&ok_event, &TransactionKind::Bond(vec![])),
        TransactionExitStatus::Applied
    );
    assert_eq!(
        TransactionExitStatus::from(&fail_event, &TransactionKind::Bond(vec![])),
        TransactionExitStatus::Rejected
    );
}

#[test]
fn row_round_trip_keeps_the_fields() {
    let tx = Transaction {
        hash: Id::Hash("t1".to_owned()),
        inner_hash: Some(Id::Hash("inner".to_owned())),
        kind: TransactionKind::Unbond(vec![4, 5]),
        status: TransactionExitStatus::Applied,
        memo: Some(RawMemo(b"P".to_vec())),
        gas_used: 77,
        index: 2,
    };
    let row = tx.to_transaction_db("b1").expect("known kinds yield a row");
    assert_eq!(row.id, "t1");
    assert_eq!(row.inner_hash.as_deref(), Some("inner"));
    assert_eq!(row.kind, TransactionKindDb::Unbond);
    assert_eq!(row.associated_data, Some(vec![4, 5]));
    assert_eq!(row.exit_status, TransactionExitStatusDb::Applied);
    assert_eq!(row.gas_used, 77);
    assert_eq!(row.block_id, "b1");
    assert_eq!(row.memo, Some(b"P".to_vec()));

    let back = Transaction::from(row);
    assert!(matches!(back.kind, TransactionKind::Unbond(ref b) if b == &vec![4, 5]));
    assert_eq!(back.gas_used, 77);
    assert!(matches!(back.status, TransactionExitStatus::Applied));

    let unknown = Transaction {
        hash: Id::Hash("t2".to_owned()),
        inner_hash: None,
        kind: TransactionKind::Unknown,
        status: TransactionExitStatus::Applied,
        memo: None,
        gas_used: 0,
        index: 0,
    };
    assert!(unknown.to_transaction_db("b1").is_none());
}

#[test]
fn deserialize_decides_by_header_type() {
    let results = BlockResult {
        height: 1,
        begin_events: vec![],
        end_events: vec![],
        tx_attributes: vec![
            TxAttributes { hash: "wh".to_owned(), code: TxEventStatusCode::Success, gas: 11 },
            TxAttributes { hash: "rh".to_owned(), code: TxEventStatusCode::Success, gas: 22 },
        ],
    };
    let checksums = Checksums { entries: vec![("code1".to_owned(), "tx_bond".to_owned())] };

    let parts = NamadaTxParts {
        tx_type: TxHeaderType::Wrapper,
        header_hash: "wh".to_owned(),
        raw_header_hash: "rh".to_owned(),
        memo: None,
        code_id: None,
        data: vec![],
        transfer_shape: TransferShape::Undecodable,
        ibc_shape: IbcShape::Undecodable,
    };
    let (tx, raw) = Transaction::deserialize(parts, &checksums, &results, 0).expect("accepted");
    assert!(matches!(tx.kind, TransactionKind::Wrapper));
    assert!(matches!(tx.status, TransactionExitStatus::Accepted));
    assert_eq!(tx.gas_used, 11);
    assert_eq!(raw, "rh");

    let parts = NamadaTxParts {
        tx_type: TxHeaderType::Decrypted,
        header_hash: "wh".to_owned(),
        raw_header_hash: "rh".to_owned(),
        memo: Some(RawMemo(b"P".to_vec())),
        code_id: Some("code1".to_owned()),
        data: vec![9],
        transfer_shape: TransferShape::Undecodable,
        ibc_shape: IbcShape::Undecodable,
    };
    let (tx, raw) = Transaction::deserialize(parts, &checksums, &results, 4).expect("applied");
    assert!(matches!(tx.kind, TransactionKind::Bond(ref b) if b == &vec![9]));
    assert!(matches!(tx.status, TransactionExitStatus::Applied));
    assert_eq!(tx.gas_used, 22);
    assert_eq!(tx.index, 4);
    assert_eq!(raw, "rh");

    let parts = NamadaTxParts {
        tx_type: TxHeaderType::Raw,
        header_hash: "wh".to_owned(),
        raw_header_hash: "rh".to_owned(),
        memo: None,
        code_id: None,
        data: vec![],
        transfer_shape: TransferShape::Undecodable,
        ibc_shape: IbcShape::Undecodable,
    };
    assert!(Transaction::deserialize(parts, &checksums, &results, 0).is_err());
}

#[test]
fn rejected_transactions_do_not_deserialize() {
    let results = BlockResult {
        height: 1,
        begin_events: vec![],
        end_events: vec![],
        tx_attributes: vec![
            TxAttributes { hash: "wh".to_owned(), code: TxEventStatusCode::Fail, gas: 0 },
        ],
    };
    let checksums = Checksums { entries: vec![] };
    let parts = NamadaTxParts {
        tx_type: TxHeaderType::Wrapper,
        header_hash: "wh".to_owned(),
        raw_header_hash: "rh".to_owned(),
        memo: None,
        code_id: None,
        data: vec![],
        transfer_shape: TransferShape::Undecodable,
        ibc_shape: IbcShape::Undecodable,
    };
    let err = Transaction::deserialize(parts, &checksums, &results, 0).unwrap_err();
    assert_eq!(err, "Transaction was rejected");
}

#[test]
fn commit_rows_keep_only_real_votes() {
    let commit = Commit {
        height: 10,
        round: 0,
        signatures: vec![
            CommitSignature {
                kind: CommitSignatureKind::Commit,
                address: Id::Account("v1".to_owned()),
                signature: Some("sig1".to_owned()),
            },
            CommitSignature {
                kind: CommitSignatureKind::Nil,
                address: Id::Account("v2".to_owned()),
                signature: None,
            },
            CommitSignature {
                kind: CommitSignatureKind::Commit,
                address: Id::Account("v3".to_owned()),
                signature: None,
            },
        ],
    };
    let rows = commit.to_commits_db("b1");
    assert_eq!(rows.len(), 2);
    assert_eq!(rows[0].address, "v1");
    assert_eq!(rows[0].signature.as_deref(), Some("sig1"));
    assert_eq!(rows[0].block_id, "b1");
    assert_eq!(rows[1].address, "v3");
    assert_eq!(rows[1].signature, None);
}

#[test]
fn checksums_resolve_names() {
    let checksums = Checksums {
        entries: vec![
            ("aa".to_owned(), "tx_bond".to_owned()),
            ("bb".to_owned(), "tx_unbond".to_owned()),
        ],
    };
    assert_eq!(checksums.get_name_by_id(&"bb".to_owned()).as_deref(), Some("tx_unbond"));
    assert_eq!(checksums.get_name_by_id(&"cc".to_owned()), None);
}
