//! Row shapes and enumerations of the relational store, as the scoring core
//! sees them.  Timestamps are held as seconds since the Unix epoch; the
//! binding layer that talks to the real store converts its timestamp columns
//! to and from this representation.

use vstd::prelude::*;

verus! {

/// The closed catalog of identified tasks.
#[derive(Clone, Copy, Debug, PartialEq, Eq, Hash, Structural)]
pub enum TaskTypeDb {
    // crew tasks (tx)
    DelegateStakeOnV0,
    DelegateStakeOnV1,
    ClaimPosRewards,
    ShieldNaan,
    UnshieldNaan,
    ShieldToShielded,
    ShieldAssetOverIbc,
    // pilot tasks (genesis)
    SubmitPreGenesisBondTx,
    // pilot tasks (tx)
    VotePgfStewardProposal,
    VoteUpgradeV0ToV1,
    VoteUpgradeV1ToV2,
    InitPostGenesisValidator,
    // pilot tasks (completable, non-tx)
    StartNode5MinFromGenesis,
    InValidatorSetFor1Epoch,
    SignFirstBlockOfUpgradeToV2,
    // pilot tasks (ongoing, non-tx)
    Keep99PerCentUptime,
    Keep95PerCentUptime,
    Keep99PerCentGovParticipationRate,
    Keep90PerCentGovParticipationRate,
    // manual tasks (either pilot or crew)
    ProvidePublicRpcEndpoint,
    OperateNamadaIndexer,
    OperateNamadaInterface,
    OperateCosmosTestnetRelayer,
    OperateOsmosisTestnetRelayer,
    OperateNobleTestnetRelayer,
    OperateRelayerOnNetWithNfts,
    OperateRelayerOnAnotherNet,
    IntegrateSeInBlockExplorer,
    IntegrateSeInBrowserWallet,
    IntegrateSeInAndroidWallet,
    IntegrateSeInIosWallet,
    IntegrateSeInAnotherWallet,
    SupportShieldedTxsInBlockExplorer,
    SupportShieldedTxsInBrowserWallet,
    SupportShieldedTxsInAndroidWallet,
    SupportShieldedTxsInIosWallet,
    BuildAdditionalFossTooling,
    BuildWebAppWithShieldedActionOnIbcChain,
    OsmosisFrontendShieldedSwaps,
    AnotherAppWithShieldedActionOnIbcChain,
    ReduceMaspProofGenTime,
    IncreaseNoteScanSpeed,
    FindAndProveNamSpecsFlaw,
    OptimizeNamSmExecSpeed,
    FindProtocolSecVulnerability,
}

/// The closed set of transaction kinds the indexer records.
#[derive(Clone, Copy, Debug, PartialEq, Eq, Hash, Structural)]
pub enum TransactionKindDb {
    Wrapper,
    Protocol,
    TransparentTransfer,
    ShieldedTransfer,
    Bond,
    Redelegation,
    Unbond,
    Withdraw,
    ClaimRewards,
    ReactivateValidator,
    DeactivateValidator,
    IbcEnvelop,
    IbcTransparentTransfer,
    IbcShieldedTransfer,
    ChangeConsensusKey,
    ChangeCommission,
    ChangeMetadata,
    BecomeValidator,
    InitAccount,
    InitProposal,
    ResignSteward,
    RevealPublicKey,
    UnjailValidator,
    UpdateAccount,
    UpdateStewardCommissions,
    ProposalVote,
    Unknown,
}

#[derive(Clone, Copy, Debug, PartialEq, Eq, Structural)]
pub enum TransactionExitStatusDb {
    Applied,
    Accepted,
    Rejected,
}

#[derive(Clone, Copy, Debug, PartialEq, Eq, Structural)]
pub enum PlayerKindDb {
    Crew,
    Pilot,
}

#[derive(Clone, Copy, Debug, PartialEq, Eq, Structural)]
pub enum GovernanceProposalKindDb {
    PgfSteward,
    PgfFunding,
    Default,
    DefaultWithWasm,
}

#[derive(Clone, Copy, Debug, PartialEq, Eq, Structural)]
pub enum GovernanceProposalResultDb {
    Passed,
    Rejected,
    Pending,
    Unknown,
    VotingPeriod,
}

#[derive(Clone, Copy, Debug, PartialEq, Eq, Structural)]
pub enum GovernanceVoteKindDb {
    Nay,
    Yay,
    Abstain,
}

#[derive(Clone, Copy, Debug, PartialEq, Eq, Structural)]
pub enum EvidenceKindDb {
    DuplicateVote,
    LightClientAttack,
}

#[derive(Clone, Debug)]
pub struct PlayerDb {
    pub id: String,
    pub moniker: String,
    pub namada_player_address: String,
    pub namada_validator_address: Option<String>,
    pub email: String,
    pub kind: PlayerKindDb,
    pub score: i64,
    pub block_height: Option<i32>,
    pub avatar_url: Option<String>,
    pub is_banned: Option<bool>,
    pub internal_id: i32,
}

#[derive(Clone, Debug)]
pub struct PlayerUpdateValidatorAddressDb {
    pub namada_validator_address: Option<String>,
}

#[derive(Clone, Debug)]
pub struct TaskDb {
    pub id: i32,
    pub task: TaskTypeDb,
    pub player_id: String,
}

#[derive(Clone, Debug)]
pub struct TaskInsertDb {
    pub task: TaskTypeDb,
    pub player_id: String,
}

#[derive(Clone, Debug)]
pub struct UnidentifiedTaskDb {
    pub id: i32,
    pub tx_kind: TransactionKindDb,
    pub player_id: String,
}

#[derive(Clone, Debug)]
pub struct UnidentifiedTaskInsertDb {
    pub tx_kind: TransactionKindDb,
    pub player_id: String,
}

#[derive(Clone, Debug)]
pub struct BlockDb {
    pub id: String,
    pub height: i32,
    /// Seconds since the Unix epoch.
    pub included_at: i64,
    pub proposer_address: String,
    pub epoch: i32,
}

#[derive(Clone, Debug)]
pub struct CommitDb {
    pub id: i32,
    pub signature: Option<String>,
    pub address: String,
    pub block_id: String,
}

#[derive(Clone, Debug)]
pub struct CommitInsertDb {
    pub signature: Option<String>,
    pub address: String,
    pub block_id: String,
}

#[derive(Clone, Debug)]
pub struct TmAddressDb {
    pub id: i32,
    pub tm_address: String,
    pub epoch: i32,
    pub validator_namada_address: String,
}

#[derive(Clone, Debug)]
pub struct TmAddressInsertDb {
    pub tm_address: String,
    pub epoch: i32,
    pub validator_namada_address: String,
}

#[derive(Clone, Debug)]
pub struct TransactionDb {
    pub id: String,
    pub inner_hash: Option<String>,
    pub index: i32,
    pub kind: TransactionKindDb,
    pub associated_data: Option<Vec<u8>>,
    pub exit_status: TransactionExitStatusDb,
    pub gas_used: i32,
    pub block_id: String,
    pub memo: Option<Vec<u8>>,
}

#[derive(Clone, Debug)]
pub struct GovernanceProposalDb {
    pub id: i32,
    pub content: Option<String>,
    pub kind: GovernanceProposalKindDb,
    pub author: String,
    pub start_epoch: i32,
    pub end_epoch: i32,
    pub grace_epoch: i32,
    pub yay_votes: String,
    pub nay_votes: String,
    pub abstain_votes: String,
    pub result: GovernanceProposalResultDb,
    pub transaction_id: String,
}

#[derive(Clone, Debug)]
pub struct GovernanceProposalInsertDb {
    pub id: i32,
    pub content: Option<String>,
    pub kind: GovernanceProposalKindDb,
    pub author: String,
    pub start_epoch: i32,
    pub end_epoch: i32,
    pub grace_epoch: i32,
    pub transaction_id: String,
}

#[derive(Clone, Debug)]
pub struct GovernanceProposalUpdateStatusDb {
    pub yay_votes: String,
    pub nay_votes: String,
    pub abstain_votes: String,
    pub result: GovernanceProposalResultDb,
}

#[derive(Clone, Debug)]
pub struct GovernanceProposalVoteDb {
    pub id: i32,
    pub voter_address: String,
    pub kind: GovernanceVoteKindDb,
    pub proposal_id: i32,
    pub transaction_id: String,
    pub player_id: String,
}

#[derive(Clone, Debug)]
pub struct GovernanceProposalVoteInsertDb {
    pub voter_address: String,
    pub kind: GovernanceVoteKindDb,
    pub proposal_id: i32,
    pub transaction_id: String,
    pub player_id: String,
}

#[derive(Clone, Debug)]
pub struct PlayerRankDb {
    pub id: i32,
    pub ranking: i32,
    pub player_id: String,
}

#[derive(Clone, Debug)]
pub struct PlayerRankInsertDb {
    pub ranking: i32,
    pub player_id: String,
}

#[derive(Clone, Debug)]
pub struct TaskCompletionStateDb {
    pub id: i32,
    /// Seconds since the Unix epoch.
    pub last_processed_time: i64,
    pub last_processed_height: i32,
}

#[derive(Clone, Debug)]
pub struct CrawlerStateDb {
    pub id: i32,
    pub height: i32,
    pub epoch: i32,
}

#[derive(Clone, Debug)]
pub struct EvidenceDb {
    pub id: i32,
    pub kind: EvidenceKindDb,
    pub validator_address: String,
    pub block_id: String,
}

#[derive(Clone, Debug)]
pub struct EvidenceInsertDb {
    pub kind: EvidenceKindDb,
    pub validator_address: String,
    pub block_id: String,
}

#[derive(Clone, Debug)]
pub struct ChainParametersDb {
    pub id: i32,
    pub total_native_token_supply: String,
    pub total_staked_native_token: String,
    pub max_validators: i32,
    pub pos_inflation: String,
    pub pgf_steward_inflation: String,
    pub pgf_treasury_inflation: String,
    pub pgf_treasury: String,
}

#[derive(Clone, Debug)]
pub struct StewardDb {
    pub id: i32,
    pub namada_address: String,
    pub block_height: i32,
}

#[derive(Clone, Debug)]
pub struct StewardInsertDb {
    pub namada_address: String,
    pub block_height: i32,
}

#[derive(Clone, Debug)]
pub struct ValidatorDb {
    pub id: i32,
    pub namada_address: String,
    pub voting_power: i32,
    pub max_commission: String,
    pub commission: String,
    pub email: String,
    pub website: Option<String>,
    pub description: Option<String>,
    pub discord_handle: Option<String>,
    pub avatar: Option<String>,
    pub epoch: i32,
}

#[derive(Clone, Debug)]
pub struct ValidatorInsertDb {
    pub namada_address: String,
    pub voting_power: i32,
    pub max_commission: String,
    pub commission: String,
    pub email: String,
    pub website: Option<String>,
    pub description: Option<String>,
    pub discord_handle: Option<String>,
    pub avatar: Option<String>,
    pub epoch: i32,
}

} // verus!
