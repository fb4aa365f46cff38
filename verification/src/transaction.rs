//! Decoded chain transactions and their mapping to and from the stored rows.

use vstd::prelude::*;

use crate::block_result::TxAttributes;
use crate::block_result::TxEventStatusCode;
use crate::codec::utf8_decode;
use crate::id::Id;
use crate::orm::TransactionDb;
use crate::orm::TransactionExitStatusDb;
use crate::orm::TransactionKindDb;
use crate::player::MemoError;
use crate::player::PlayerId;
use crate::seq_util::copy_bytes;

verus! {

/// What the chain's own codec says a `tx_transfer` payload holds.  Decoding
/// runs through the chain's libraries outside this crate; only the outcome
/// matters here.
#[derive(Clone, Copy, Debug, PartialEq, Eq, Structural)]
pub enum TransferShape {
    Shielded,
    Transparent,
    Undecodable,
}

/// What the chain's own codec says a `tx_ibc` payload holds.
#[derive(Clone, Copy, Debug, PartialEq, Eq, Structural)]
pub enum IbcShape {
    Envelope,
    Transparent,
    Shielded,
    Undecodable,
}

/// A transaction kind together with its raw payload bytes.
#[derive(Clone, Debug)]
pub enum TransactionKind {
    Wrapper,
    Protocol,
    TransparentTransfer(Vec<u8>),
    ShieldedTransfer(Vec<u8>),
    Bond(Vec<u8>),
    Redelegation(Vec<u8>),
    Unbond(Vec<u8>),
    Withdraw(Vec<u8>),
    ClaimRewards(Vec<u8>),
    ReactivateValidator(Vec<u8>),
    DeactivateValidator(Vec<u8>),
    IbcEnvelop(Vec<u8>),
    IbcTransparentTransfer(Vec<u8>),
    IbcShieldedTransfer(Vec<u8>),
    ChangeConsensusKey(Vec<u8>),
    ChangeCommission(Vec<u8>),
    ChangeMetadata(Vec<u8>),
    BecomeValidator(Vec<u8>),
    InitAccount(Vec<u8>),
    InitProposal(Vec<u8>),
    ResignSteward(Vec<u8>),
    RevealPublicKey(Vec<u8>),
    UnjailValidator(Vec<u8>),
    UpdateAccount(Vec<u8>),
    UpdateStewardCommissions(Vec<u8>),
    ProposalVote(Vec<u8>),
    Unknown,
}

/// The stored tag of a transaction kind.
pub open spec fn spec_kind_to_db(kind: &TransactionKind) -> TransactionKindDb {
    match kind {
        TransactionKind::Wrapper => TransactionKindDb::Wrapper,
        TransactionKind::Protocol => TransactionKindDb::Protocol,
        TransactionKind::TransparentTransfer(_) => TransactionKindDb::TransparentTransfer,
        TransactionKind::ShieldedTransfer(_) => TransactionKindDb::ShieldedTransfer,
        TransactionKind::Bond(_) => TransactionKindDb::Bond,
        TransactionKind::Redelegation(_) => TransactionKindDb::Redelegation,
        TransactionKind::Unbond(_) => TransactionKindDb::Unbond,
        TransactionKind::Withdraw(_) => TransactionKindDb::Withdraw,
        TransactionKind::ClaimRewards(_) => TransactionKindDb::ClaimRewards,
        TransactionKind::ReactivateValidator(_) => TransactionKindDb::ReactivateValidator,
        TransactionKind::DeactivateValidator(_) => TransactionKindDb::DeactivateValidator,
        TransactionKind::IbcEnvelop(_) => TransactionKindDb::IbcEnvelop,
        TransactionKind::IbcTransparentTransfer(_) => TransactionKindDb::IbcTransparentTransfer,
        TransactionKind::IbcShieldedTransfer(_) => TransactionKindDb::IbcShieldedTransfer,
        TransactionKind::ChangeConsensusKey(_) => TransactionKindDb::ChangeConsensusKey,
        TransactionKind::ChangeCommission(_) => TransactionKindDb::ChangeCommission,
        TransactionKind::ChangeMetadata(_) => TransactionKindDb::ChangeMetadata,
        TransactionKind::BecomeValidator(_) => TransactionKindDb::BecomeValidator,
        TransactionKind::InitAccount(_) => TransactionKindDb::InitAccount,
        TransactionKind::InitProposal(_) => TransactionKindDb::InitProposal,
        TransactionKind::ResignSteward(_) => TransactionKindDb::ResignSteward,
        TransactionKind::RevealPublicKey(_) => TransactionKindDb::RevealPublicKey,
        TransactionKind::UnjailValidator(_) => TransactionKindDb::UnjailValidator,
        TransactionKind::UpdateAccount(_) => TransactionKindDb::UpdateAccount,
        TransactionKind::UpdateStewardCommissions(_) => TransactionKindDb::UpdateStewardCommissions,
        TransactionKind::ProposalVote(_) => TransactionKindDb::ProposalVote,
        TransactionKind::Unknown => TransactionKindDb::Unknown,
    }
}

/// The payload bytes a transaction kind carries, if any.
pub open spec fn spec_payload(kind: &TransactionKind) -> Option<Seq<u8>> {
    match kind {
        TransactionKind::Wrapper => None,
        TransactionKind::Protocol => None,
        TransactionKind::TransparentTransfer(b) => Some(b@),
        TransactionKind::ShieldedTransfer(b) => Some(b@),
        TransactionKind::Bond(b) => Some(b@),
        TransactionKind::Redelegation(b) => Some(b@),
        TransactionKind::Unbond(b) => Some(b@),
        TransactionKind::Withdraw(b) => Some(b@),
        TransactionKind::ClaimRewards(b) => Some(b@),
        TransactionKind::ReactivateValidator(b) => Some(b@),
        TransactionKind::DeactivateValidator(b) => Some(b@),
        TransactionKind::IbcEnvelop(b) => Some(b@),
        TransactionKind::IbcTransparentTransfer(b) => Some(b@),
        TransactionKind::IbcShieldedTransfer(b) => Some(b@),
        TransactionKind::ChangeConsensusKey(b) => Some(b@),
        TransactionKind::ChangeCommission(b) => Some(b@),
        TransactionKind::ChangeMetadata(b) => Some(b@),
        TransactionKind::BecomeValidator(b) => Some(b@),
        TransactionKind::InitAccount(b) => Some(b@),
        TransactionKind::InitProposal(b) => Some(b@),
        TransactionKind::ResignSteward(b) => Some(b@),
        TransactionKind::RevealPublicKey(b) => Some(b@),
        TransactionKind::UnjailValidator(b) => Some(b@),
        TransactionKind::UpdateAccount(b) => Some(b@),
        TransactionKind::UpdateStewardCommissions(b) => Some(b@),
        TransactionKind::ProposalVote(b) => Some(b@),
        TransactionKind::Unknown => None,
    }
}

/// Whether rows with this stored tag carry payload bytes.
pub open spec fn spec_tag_has_payload(kind: TransactionKindDb) -> bool {
    !(kind is Wrapper || kind is Protocol || kind is Unknown)
}

/// The stored tag that a transaction code name resolves to, given the decode
/// shapes of the payload.
pub open spec fn spec_tag_from_name(
    name: Seq<char>,
    transfer: TransferShape,
    ibc: IbcShape,
) -> TransactionKindDb {
    if name == "tx_transfer"@ {
        match transfer {
            TransferShape::Shielded => TransactionKindDb::ShieldedTransfer,
            TransferShape::Transparent => TransactionKindDb::TransparentTransfer,
            TransferShape::Undecodable => TransactionKindDb::Unknown,
        }
    } else if name == "tx_bond"@ {
        TransactionKindDb::Bond
    } else if name == "tx_redelegation"@ {
        TransactionKindDb::Redelegation
    } else if name == "tx_unbond"@ {
        TransactionKindDb::Unbond
    } else if name == "tx_withdraw"@ {
        TransactionKindDb::Withdraw
    } else if name == "tx_claim_rewards"@ {
        TransactionKindDb::ClaimRewards
    } else if name == "tx_reactivate_validator"@ {
        TransactionKindDb::ReactivateValidator
    } else if name == "tx_deactivate_validator"@ {
        TransactionKindDb::DeactivateValidator
    } else if name == "tx_ibc"@ {
        match ibc {
            IbcShape::Envelope => TransactionKindDb::IbcEnvelop,
            IbcShape::Transparent => TransactionKindDb::IbcTransparentTransfer,
            IbcShape::Shielded => TransactionKindDb::IbcShieldedTransfer,
            IbcShape::Undecodable => TransactionKindDb::Unknown,
        }
    } else if name == "tx_change_consensus_key"@ {
        TransactionKindDb::ChangeConsensusKey
    } else if name == "tx_change_validator_metadata"@ {
        TransactionKindDb::ChangeMetadata
    } else if name == "tx_change_validator_commission"@ {
        TransactionKindDb::ChangeCommission
    } else if name == "tx_become_validator"@ {
        TransactionKindDb::BecomeValidator
    } else if name == "tx_init_account"@ {
        TransactionKindDb::InitAccount
    } else if name == "tx_init_proposal"@ {
        TransactionKindDb::InitProposal
    } else if name == "tx_resign_steward"@ {
        TransactionKindDb::ResignSteward
    } else if name == "tx_reveal_pk"@ {
        TransactionKindDb::RevealPublicKey
    } else if name == "tx_unjail_validator"@ {
        TransactionKindDb::UnjailValidator
    } else if name == "tx_update_account"@ {
        TransactionKindDb::UpdateAccount
    } else if name == "tx_update_steward_commission"@ {
        TransactionKindDb::UpdateStewardCommissions
    } else if name == "tx_vote_proposal"@ {
        TransactionKindDb::ProposalVote
    } else {
        TransactionKindDb::Unknown
    }
}

fn str_eq(a: &str, b: &str) -> (r: bool)
    ensures
        r == (a@ == b@),
{
    let a_owned: String = a.to_owned();
    let b_owned: String = b.to_owned();
    a_owned == b_owned
}

impl TransactionKind {
    /// Resolves a transaction code name to a kind, keeping the payload bytes.
    /// The decode shapes come from running the chain's own codec over `data`.
    pub fn from(
        tx_kind_name: &str,
        data: &[u8],
        transfer: TransferShape,
        ibc: IbcShape,
    ) -> (r: Self)
        ensures
            spec_kind_to_db(&r) == spec_tag_from_name(tx_kind_name@, transfer, ibc),
            spec_payload(&r) == if spec_tag_has_payload(
                spec_tag_from_name(tx_kind_name@, transfer, ibc),
            ) {
                Some(data@)
            } else {
                None::<Seq<u8>>
            },
    {
        if str_eq(tx_kind_name, "tx_transfer") {
            match transfer {
                TransferShape::Shielded => TransactionKind::ShieldedTransfer(copy_bytes(data)),
                TransferShape::Transparent => TransactionKind::TransparentTransfer(copy_bytes(data)),
                TransferShape::Undecodable => TransactionKind::Unknown,
            }
        } else if str_eq(tx_kind_name, "tx_bond") {
            TransactionKind::Bond(copy_bytes(data))
        } else if str_eq(tx_kind_name, "tx_redelegation") {
            TransactionKind::Redelegation(copy_bytes(data))
        } else if str_eq(tx_kind_name, "tx_unbond") {
            TransactionKind::Unbond(copy_bytes(data))
        } else if str_eq(tx_kind_name, "tx_withdraw") {
            TransactionKind::Withdraw(copy_bytes(data))
        } else if str_eq(tx_kind_name, "tx_claim_rewards") {
            TransactionKind::ClaimRewards(copy_bytes(data))
        } else if str_eq(tx_kind_name, "tx_reactivate_validator") {
            TransactionKind::ReactivateValidator(copy_bytes(data))
        } else if str_eq(tx_kind_name, "tx_deactivate_validator") {
            TransactionKind::DeactivateValidator(copy_bytes(data))
        } else if str_eq(tx_kind_name, "tx_ibc") {
            match ibc {
                IbcShape::Envelope => TransactionKind::IbcEnvelop(copy_bytes(data)),
                IbcShape::Transparent => TransactionKind::IbcTransparentTransfer(copy_bytes(data)),
                IbcShape::Shielded => TransactionKind::IbcShieldedTransfer(copy_bytes(data)),
                IbcShape::Undecodable => TransactionKind::Unknown,
            }
        } else if str_eq(tx_kind_name, "tx_change_consensus_key") {
            TransactionKind::ChangeConsensusKey(copy_bytes(data))
        } else if str_eq(tx_kind_name, "tx_change_validator_metadata") {
            TransactionKind::ChangeMetadata(copy_bytes(data))
        } else if str_eq(tx_kind_name, "tx_change_validator_commission") {
            TransactionKind::ChangeCommission(copy_bytes(data))
        } else if str_eq(tx_kind_name, "tx_become_validator") {
            TransactionKind::BecomeValidator(copy_bytes(data))
        } else if str_eq(tx_kind_name, "tx_init_account") {
            TransactionKind::InitAccount(copy_bytes(data))
        } else if str_eq(tx_kind_name, "tx_init_proposal") {
            TransactionKind::InitProposal(copy_bytes(data))
        } else if str_eq(tx_kind_name, "tx_resign_steward") {
            TransactionKind::ResignSteward(copy_bytes(data))
        } else if str_eq(tx_kind_name, "tx_reveal_pk") {
            TransactionKind::RevealPublicKey(copy_bytes(data))
        } else if str_eq(tx_kind_name, "tx_unjail_validator") {
            TransactionKind::UnjailValidator(copy_bytes(data))
        } else if str_eq(tx_kind_name, "tx_update_account") {
            TransactionKind::UpdateAccount(copy_bytes(data))
        } else if str_eq(tx_kind_name, "tx_update_steward_commission") {
            TransactionKind::UpdateStewardCommissions(copy_bytes(data))
        } else if str_eq(tx_kind_name, "tx_vote_proposal") {
            TransactionKind::ProposalVote(copy_bytes(data))
        } else {
            TransactionKind::Unknown
        }
    }

    pub fn get_bytes(&self) -> (r: Option<&[u8]>)
        ensures
            match r {
                Some(b) => spec_payload(self) == Some(b@),
                None => spec_payload(self) is None,
            },
    {
        match self {
            TransactionKind::Wrapper => None,
            TransactionKind::Protocol => None,
            TransactionKind::TransparentTransfer(bytes) => Some(bytes.as_slice()),
            TransactionKind::ShieldedTransfer(bytes) => Some(bytes.as_slice()),
            TransactionKind::Bond(bytes) => Some(bytes.as_slice()),
            TransactionKind::Redelegation(bytes) => Some(bytes.as_slice()),
            TransactionKind::Unbond(bytes) => Some(bytes.as_slice()),
            TransactionKind::Withdraw(bytes) => Some(bytes.as_slice()),
            TransactionKind::ClaimRewards(bytes) => Some(bytes.as_slice()),
            TransactionKind::ReactivateValidator(bytes) => Some(bytes.as_slice()),
            TransactionKind::DeactivateValidator(bytes) => Some(bytes.as_slice()),
            TransactionKind::IbcEnvelop(bytes) => Some(bytes.as_slice()),
            TransactionKind::IbcTransparentTransfer(bytes) => Some(bytes.as_slice()),
            TransactionKind::IbcShieldedTransfer(bytes) => Some(bytes.as_slice()),
            TransactionKind::ChangeConsensusKey(bytes) => Some(bytes.as_slice()),
            TransactionKind::ChangeCommission(bytes) => Some(bytes.as_slice()),
            TransactionKind::ChangeMetadata(bytes) => Some(bytes.as_slice()),
            TransactionKind::BecomeValidator(bytes) => Some(bytes.as_slice()),
            TransactionKind::InitAccount(bytes) => Some(bytes.as_slice()),
            TransactionKind::InitProposal(bytes) => Some(bytes.as_slice()),
            TransactionKind::ResignSteward(bytes) => Some(bytes.as_slice()),
            TransactionKind::RevealPublicKey(bytes) => Some(bytes.as_slice()),
            TransactionKind::UnjailValidator(bytes) => Some(bytes.as_slice()),
            TransactionKind::UpdateAccount(bytes) => Some(bytes.as_slice()),
            TransactionKind::UpdateStewardCommissions(bytes) => Some(bytes.as_slice()),
            TransactionKind::ProposalVote(bytes) => Some(bytes.as_slice()),
            TransactionKind::Unknown => None,
        }
    }
}

impl TransactionKindDb {
    /// The stored tag of an in-memory kind.
    pub fn from(value: &TransactionKind) -> (r: Self)
        ensures
            r == spec_kind_to_db(value),
    {
        match value {
            TransactionKind::Wrapper => TransactionKindDb::Wrapper,
            TransactionKind::Protocol => TransactionKindDb::Protocol,
            TransactionKind::TransparentTransfer(_) => TransactionKindDb::TransparentTransfer,
            TransactionKind::ShieldedTransfer(_) => TransactionKindDb::ShieldedTransfer,
            TransactionKind::Bond(_) => TransactionKindDb::Bond,
            TransactionKind::Redelegation(_) => TransactionKindDb::Redelegation,
            TransactionKind::Unbond(_) => TransactionKindDb::Unbond,
            TransactionKind::Withdraw(_) => TransactionKindDb::Withdraw,
            TransactionKind::ClaimRewards(_) => TransactionKindDb::ClaimRewards,
            TransactionKind::ReactivateValidator(_) => TransactionKindDb::ReactivateValidator,
            TransactionKind::DeactivateValidator(_) => TransactionKindDb::DeactivateValidator,
            TransactionKind::IbcEnvelop(_) => TransactionKindDb::IbcEnvelop,
            TransactionKind::IbcTransparentTransfer(_) => TransactionKindDb::IbcTransparentTransfer,
            TransactionKind::IbcShieldedTransfer(_) => TransactionKindDb::IbcShieldedTransfer,
            TransactionKind::ChangeConsensusKey(_) => TransactionKindDb::ChangeConsensusKey,
            TransactionKind::ChangeCommission(_) => TransactionKindDb::ChangeCommission,
            TransactionKind::ChangeMetadata(_) => TransactionKindDb::ChangeMetadata,
            TransactionKind::BecomeValidator(_) => TransactionKindDb::BecomeValidator,
            TransactionKind::InitAccount(_) => TransactionKindDb::InitAccount,
            TransactionKind::InitProposal(_) => TransactionKindDb::InitProposal,
            TransactionKind::ResignSteward(_) => TransactionKindDb::ResignSteward,
            TransactionKind::RevealPublicKey(_) => TransactionKindDb::RevealPublicKey,
            TransactionKind::UnjailValidator(_) => TransactionKindDb::UnjailValidator,
            TransactionKind::UpdateAccount(_) => TransactionKindDb::UpdateAccount,
            TransactionKind::UpdateStewardCommissions(_) => {
                TransactionKindDb::UpdateStewardCommissions
            },
            TransactionKind::ProposalVote(_) => TransactionKindDb::ProposalVote,
            TransactionKind::Unknown => TransactionKindDb::Unknown,
        }
    }
}

#[derive(Clone, Copy, Debug, PartialEq, Eq, Structural)]
pub enum TransactionExitStatus {
    Accepted,
    Applied,
    Rejected,
}

impl TransactionExitStatus {
    /// The exit status of a transaction given its result event: a successful
    /// wrapper is accepted, any other success is applied, a failure is
    /// rejected.
    pub fn from(tx_attributes: &TxAttributes, tx_kind: &TransactionKind) -> (r: Self)
        ensures
            r == spec_exit_status(tx_attributes.code, tx_kind),
    {
        match (tx_kind, tx_attributes.code) {
            (TransactionKind::Wrapper, TxEventStatusCode::Success) => {
                TransactionExitStatus::Accepted
            },
            (_, TxEventStatusCode::Success) => TransactionExitStatus::Applied,
            (_, TxEventStatusCode::Fail) => TransactionExitStatus::Rejected,
        }
    }
}

pub open spec fn spec_exit_status(
    code: TxEventStatusCode,
    tx_kind: &TransactionKind,
) -> TransactionExitStatus {
    match code {
        TxEventStatusCode::Success => if tx_kind is Wrapper {
            TransactionExitStatus::Accepted
        } else {
            TransactionExitStatus::Applied
        },
        TxEventStatusCode::Fail => TransactionExitStatus::Rejected,
    }
}

pub open spec fn spec_status_to_db(status: TransactionExitStatus) -> TransactionExitStatusDb {
    match status {
        TransactionExitStatus::Accepted => TransactionExitStatusDb::Accepted,
        TransactionExitStatus::Applied => TransactionExitStatusDb::Applied,
        TransactionExitStatus::Rejected => TransactionExitStatusDb::Rejected,
    }
}

impl TransactionExitStatusDb {
    pub fn from(value: &TransactionExitStatus) -> (r: Self)
        ensures
            r == spec_status_to_db(*value),
    {
        match value {
            TransactionExitStatus::Accepted => TransactionExitStatusDb::Accepted,
            TransactionExitStatus::Applied => TransactionExitStatusDb::Applied,
            TransactionExitStatus::Rejected => TransactionExitStatusDb::Rejected,
        }
    }
}

/// How a stored transaction row reflects a decoded transaction.
pub open spec fn spec_tx_row_matches(
    tx: Transaction<RawMemo>,
    t: TransactionDb,
    block_id: Seq<char>,
) -> bool {
    &&& t.id@ == tx.hash.text()
    &&& match (tx.inner_hash, t.inner_hash) {
        (None, None) => true,
        (Some(h), Some(s)) => s@ == h.text(),
        _ => false,
    }
    &&& t.index == tx.index as i32
    &&& t.kind == spec_kind_to_db(&tx.kind)
    &&& match (spec_payload(&tx.kind), t.associated_data) {
        (None, None) => true,
        (Some(b), Some(v)) => v@ == b,
        _ => false,
    }
    &&& t.exit_status == spec_status_to_db(tx.status)
    &&& t.gas_used == tx.gas_used as i32
    &&& t.block_id@ == block_id
    &&& match (tx.memo, t.memo) {
        (None, None) => true,
        (Some(m), Some(v)) => v@ == m.0@,
        _ => false,
    }
}

/// The raw bytes of a transaction memo.
#[derive(Clone, Debug)]
pub struct RawMemo(pub Vec<u8>);

#[derive(Clone, Debug)]
pub struct Transaction<MEMO> {
    pub hash: Id,
    pub inner_hash: Option<Id>,
    pub kind: TransactionKind,
    pub status: TransactionExitStatus,
    pub memo: Option<MEMO>,
    pub gas_used: u64,
    pub index: usize,
}

impl<MEMO> Transaction<MEMO> {
    /// Whether the transaction was not rejected.
    pub fn ok(&self) -> (r: bool)
        ensures
            r == (self.status != TransactionExitStatus::Rejected),
    {
        match self.status {
            TransactionExitStatus::Accepted => true,
            TransactionExitStatus::Applied => true,
            TransactionExitStatus::Rejected => false,
        }
    }
}

impl Transaction<RawMemo> {
    /// Reads the stored row back into a decoded transaction; a missing
    /// payload column stands for empty payload bytes.
    pub fn from(db_tx: TransactionDb) -> (r: Self)
        ensures
            spec_kind_to_db(&r.kind) == db_tx.kind,
            spec_payload(&r.kind) == if spec_tag_has_payload(db_tx.kind) {
                Some(
                    match db_tx.associated_data {
                        Some(v) => v@,
                        None => Seq::<u8>::empty(),
                    },
                )
            } else {
                None::<Seq<u8>>
            },
            r.hash == Id::Hash(db_tx.id),
            match (db_tx.inner_hash, r.inner_hash) {
                (None, None) => true,
                (Some(h), Some(i)) => i == Id::Hash(h),
                _ => false,
            },
            r.status == match db_tx.exit_status {
                TransactionExitStatusDb::Accepted => TransactionExitStatus::Accepted,
                TransactionExitStatusDb::Applied => TransactionExitStatus::Applied,
                TransactionExitStatusDb::Rejected => TransactionExitStatus::Rejected,
            },
            match (db_tx.memo, r.memo) {
                (None, None) => true,
                (Some(m), Some(raw)) => raw.0 == m,
                _ => false,
            },
            r.gas_used == db_tx.gas_used as u64,
            r.index == db_tx.index as usize,
    {
        let data = match db_tx.associated_data {
            Some(v) => v,
            None => Vec::new(),
        };
        let kind = match db_tx.kind {
            TransactionKindDb::Wrapper => TransactionKind::Wrapper,
            TransactionKindDb::Protocol => TransactionKind::Protocol,
            TransactionKindDb::TransparentTransfer => TransactionKind::TransparentTransfer(data),
            TransactionKindDb::ShieldedTransfer => TransactionKind::ShieldedTransfer(data),
            TransactionKindDb::Bond => TransactionKind::Bond(data),
            TransactionKindDb::Redelegation => TransactionKind::Redelegation(data),
            TransactionKindDb::Unbond => TransactionKind::Unbond(data),
            TransactionKindDb::Withdraw => TransactionKind::Withdraw(data),
            TransactionKindDb::ClaimRewards => TransactionKind::ClaimRewards(data),
            TransactionKindDb::ReactivateValidator => TransactionKind::ReactivateValidator(data),
            TransactionKindDb::DeactivateValidator => TransactionKind::DeactivateValidator(data),
            TransactionKindDb::IbcEnvelop => TransactionKind::IbcEnvelop(data),
            TransactionKindDb::IbcTransparentTransfer => {
                TransactionKind::IbcTransparentTransfer(data)
            },
            TransactionKindDb::IbcShieldedTransfer => TransactionKind::IbcShieldedTransfer(data),
            TransactionKindDb::ChangeConsensusKey => TransactionKind::ChangeConsensusKey(data),
            TransactionKindDb::ChangeCommission => TransactionKind::ChangeCommission(data),
            TransactionKindDb::ChangeMetadata => TransactionKind::ChangeMetadata(data),
            TransactionKindDb::BecomeValidator => TransactionKind::BecomeValidator(data),
            TransactionKindDb::InitAccount => TransactionKind::InitAccount(data),
            TransactionKindDb::InitProposal => TransactionKind::InitProposal(data),
            TransactionKindDb::ResignSteward => TransactionKind::ResignSteward(data),
            TransactionKindDb::RevealPublicKey => TransactionKind::RevealPublicKey(data),
            TransactionKindDb::UnjailValidator => TransactionKind::UnjailValidator(data),
            TransactionKindDb::UpdateAccount => TransactionKind::UpdateAccount(data),
            TransactionKindDb::UpdateStewardCommissions => {
                TransactionKind::UpdateStewardCommissions(data)
            },
            TransactionKindDb::ProposalVote => TransactionKind::ProposalVote(data),
            TransactionKindDb::Unknown => TransactionKind::Unknown,
        };
        Transaction {
            kind,
            hash: Id::Hash(db_tx.id),
            inner_hash: match db_tx.inner_hash {
                Some(h) => Some(Id::Hash(h)),
                None => None,
            },
            status: match db_tx.exit_status {
                TransactionExitStatusDb::Accepted => TransactionExitStatus::Accepted,
                TransactionExitStatusDb::Applied => TransactionExitStatus::Applied,
                TransactionExitStatusDb::Rejected => TransactionExitStatus::Rejected,
            },
            memo: match db_tx.memo {
                Some(m) => Some(RawMemo(m)),
                None => None,
            },
            gas_used: #[verifier::truncate] (db_tx.gas_used as u64),
            index: #[verifier::truncate] (db_tx.index as usize),
        }
    }

    /// Parses the raw memo into a player identifier; a transaction without a
    /// memo passes through unchanged.
    pub fn try_parse_memo(self) -> (r: Result<Transaction<PlayerId>, MemoError>)
        ensures
            match r {
                Ok(t) => {
                    &&& t.hash == self.hash
                    &&& t.inner_hash == self.inner_hash
                    &&& t.kind == self.kind
                    &&& t.status == self.status
                    &&& t.gas_used == self.gas_used
                    &&& t.index == self.index
                    &&& match (self.memo, t.memo) {
                        (None, None) => true,
                        (Some(m), Some(p)) => p == PlayerId(
                            crate::codec::utf8_string_of(m.0@),
                        ) && utf8_decode(m.0@) == Some(p.0@),
                        _ => false,
                    }
                },
                Err(_) => self.memo matches Some(m) && utf8_decode(m.0@) is None,
            },
    {
        let Transaction { hash, inner_hash, kind, status, memo, gas_used, index } = self;
        let memo = match memo {
            None => None,
            Some(m) => match PlayerId::try_from(m) {
                Ok(p) => Some(p),
                Err(e) => {
                    return Err(e);
                },
            },
        };
        Ok(Transaction { hash, inner_hash, kind, status, memo, gas_used, index })
    }

    /// The stored row for this transaction, or nothing for an unknown kind.
    pub fn to_transaction_db(&self, block_id: &str) -> (r: Option<TransactionDb>)
        ensures
            (r is None) == (self.kind is Unknown),
            r matches Some(t) ==> spec_tx_row_matches(*self, t, block_id@),
    {
        match self.kind {
            TransactionKind::Unknown => None,
            _ => {
                let tx = TransactionDb {
                    id: self.hash.to_string(),
                    inner_hash: match &self.inner_hash {
                        Some(h) => Some(h.to_string()),
                        None => None,
                    },
                    index: #[verifier::truncate] (self.index as i32),
                    kind: TransactionKindDb::from(&self.kind),
                    associated_data: match self.kind.get_bytes() {
                        Some(b) => Some(copy_bytes(b)),
                        None => None,
                    },
                    exit_status: TransactionExitStatusDb::from(&self.status),
                    gas_used: #[verifier::truncate] (self.gas_used as i32),
                    block_id: block_id.to_owned(),
                    memo: match &self.memo {
                        Some(RawMemo(raw)) => Some(raw.clone()),
                        None => None,
                    },
                };
                Some(tx)
            },
        }
    }
}


/// The header type a raw chain transaction carries.
#[derive(Clone, Copy, Debug, PartialEq, Eq, Structural)]
pub enum TxHeaderType {
    Wrapper,
    Decrypted,
    Raw,
    Protocol,
}

/// What the chain's own library yields when it parses a raw transaction;
/// the deserializer decides from these parts alone.
#[derive(Clone, Debug)]
pub struct NamadaTxParts {
    pub tx_type: TxHeaderType,
    pub header_hash: String,
    pub raw_header_hash: String,
    pub memo: Option<RawMemo>,
    pub code_id: Option<String>,
    pub data: Vec<u8>,
    pub transfer_shape: TransferShape,
    pub ibc_shape: IbcShape,
}

/// The stored tag a decrypted transaction's code hash resolves to.
pub open spec fn spec_deserialized_tag(
    code_id: Option<String>,
    entries: Seq<(String, String)>,
    transfer: TransferShape,
    ibc: IbcShape,
) -> TransactionKindDb {
    match code_id {
        None => TransactionKindDb::Unknown,
        Some(id) => match crate::checksums::spec_name_index(entries, id@) {
            None => TransactionKindDb::Unknown,
            Some(k) => spec_tag_from_name(entries[k].1@, transfer, ibc),
        },
    }
}

/// Whether the chain rejected the transaction, read off the first result
/// event recorded under its hash.
pub open spec fn spec_deserialize_rejected(
    parts: NamadaTxParts,
    block_results: crate::block_result::BlockResult,
) -> bool {
    match parts.tx_type {
        TxHeaderType::Wrapper => match crate::block_result::spec_find_tx_result(
            block_results.tx_attributes@,
            parts.header_hash@,
        ) {
            Some(ai) => block_results.tx_attributes@[ai].code is Fail,
            None => false,
        },
        TxHeaderType::Decrypted => match crate::block_result::spec_find_tx_result(
            block_results.tx_attributes@,
            parts.raw_header_hash@,
        ) {
            Some(ai) => block_results.tx_attributes@[ai].code is Fail,
            None => false,
        },
        _ => false,
    }
}

impl Transaction<RawMemo> {
    /// Builds a transaction from parsed parts, looking its result event up
    /// in the block's execution results.  Raw and protocol transactions are
    /// refused, as is anything the chain rejected.
    pub fn deserialize(
        parts: NamadaTxParts,
        tx_code_map: &crate::checksums::Checksums,
        block_results: &crate::block_result::BlockResult,
        index: usize,
    ) -> (r: Result<(Transaction<RawMemo>, String), String>)
        requires
            parts.tx_type is Wrapper ==> block_results.has_tx_hash_result(parts.header_hash@),
            parts.tx_type is Decrypted ==> block_results.has_tx_hash_result(
                parts.raw_header_hash@,
            ),
        ensures
            (r is Err) == (parts.tx_type is Raw || parts.tx_type is Protocol
                || spec_deserialize_rejected(parts, *block_results)),
            match r {
                Ok(p) => {
                    let tx = p.0;
                    &&& tx.index == index
                    &&& tx.memo == parts.memo
                    &&& !(tx.status is Rejected)
                    &&& p.1@ == parts.raw_header_hash@
                    &&& match parts.tx_type {
                        TxHeaderType::Wrapper => {
                            &&& tx.kind is Wrapper
                            &&& tx.hash == Id::Hash(parts.header_hash)
                            &&& tx.inner_hash == Some(Id::Hash(parts.raw_header_hash))
                            &&& crate::block_result::spec_find_tx_result(
                                block_results.tx_attributes@,
                                parts.header_hash@,
                            ) matches Some(ai) && tx.gas_used
                                == block_results.tx_attributes@[ai].gas && tx.status
                                == spec_exit_status(block_results.tx_attributes@[ai].code, &tx.kind)
                        },
                        TxHeaderType::Decrypted => {
                            &&& tx.hash == Id::Hash(parts.raw_header_hash)
                            &&& tx.inner_hash is None
                            &&& spec_kind_to_db(&tx.kind) == spec_deserialized_tag(
                                parts.code_id,
                                tx_code_map.entries@,
                                parts.transfer_shape,
                                parts.ibc_shape,
                            )
                            &&& spec_payload(&tx.kind) == if spec_tag_has_payload(
                                spec_kind_to_db(&tx.kind),
                            ) {
                                Some(parts.data@)
                            } else {
                                None::<Seq<u8>>
                            }
                            &&& crate::block_result::spec_find_tx_result(
                                block_results.tx_attributes@,
                                parts.raw_header_hash@,
                            ) matches Some(ai) && tx.gas_used
                                == block_results.tx_attributes@[ai].gas && tx.status
                                == spec_exit_status(block_results.tx_attributes@[ai].code, &tx.kind)
                        },
                        _ => false,
                    }
                },
                Err(_) => true,
            },
    {
        match parts.tx_type {
            TxHeaderType::Raw => Err(raw_unsupported_message()),
            TxHeaderType::Protocol => Err(protocol_unsupported_message()),
            TxHeaderType::Wrapper => {
                let NamadaTxParts { header_hash, raw_header_hash, memo, .. } = parts;
                let tx_id = Id::Hash(header_hash);
                let ai = match block_results.find_tx_hash_result(&tx_id) {
                    Some(ai) => ai,
                    None => {
                        return Err(raw_unsupported_message());
                    },
                };
                let code = block_results.tx_attributes[ai].code;
                let gas = block_results.tx_attributes[ai].gas;
                let tx_exit = TransactionExitStatus::from(
                    &block_results.tx_attributes[ai],
                    &TransactionKind::Wrapper,
                );
                if tx_exit == TransactionExitStatus::Rejected {
                    return Err(rejected_message());
                }
                let raw_hash_str = raw_header_hash.clone();
                let transaction = Transaction {
                    hash: tx_id,
                    inner_hash: Some(Id::Hash(raw_header_hash)),
                    kind: TransactionKind::Wrapper,
                    status: tx_exit,
                    gas_used: gas,
                    memo,
                    index,
                };
                Ok((transaction, raw_hash_str))
            },
            TxHeaderType::Decrypted => {
                let NamadaTxParts {
                    raw_header_hash,
                    memo,
                    code_id,
                    data,
                    transfer_shape,
                    ibc_shape,
                    ..
                } = parts;
                let tx_id = Id::Hash(raw_header_hash.clone());
                let ai = match block_results.find_tx_hash_result(&tx_id) {
                    Some(ai) => ai,
                    None => {
                        return Err(raw_unsupported_message());
                    },
                };
                let gas = block_results.tx_attributes[ai].gas;
                let tx_kind = match code_id {
                    Some(id) => match tx_code_map.get_name_by_id(&id) {
                        Some(tx_kind_name) => TransactionKind::from(
                            tx_kind_name.as_str(),
                            data.as_slice(),
                            transfer_shape,
                            ibc_shape,
                        ),
                        None => TransactionKind::Unknown,
                    },
                    None => TransactionKind::Unknown,
                };
                let tx_exit = TransactionExitStatus::from(
                    &block_results.tx_attributes[ai],
                    &tx_kind,
                );
                if tx_exit == TransactionExitStatus::Rejected {
                    return Err(rejected_message());
                }
                let transaction = Transaction {
                    hash: tx_id,
                    inner_hash: None,
                    kind: tx_kind,
                    status: tx_exit,
                    gas_used: gas,
                    memo,
                    index,
                };
                Ok((transaction, raw_header_hash))
            },
        }
    }
}

fn raw_unsupported_message() -> String {
    let r: String = "Raw transaction are not supported.".to_owned();
    r
}

fn protocol_unsupported_message() -> String {
    let r: String = "Protocol transaction are not supported.".to_owned();
    r
}

fn rejected_message() -> String {
    let r: String = "Transaction was rejected".to_owned();
    r
}

} // verus!
