//! Pool-prize scoring: every pass recomputes all player scores from the task
//! ledgers.  Each task funds a fixed pot of points; a pot is split either over
//! the whole player class ("fixed") or over the players that completed the
//! task ("relative to completion").
//!
//! Pots are held in centipoints (hundredths of a point), and a pot that funds
//! a family of buckets carries the bucket count, so every share is an exact
//! integer division: `centipoints / (100 * buckets * divisor)`, floored.  The
//! thresholds on participation and uptime rates are likewise exact integer
//! comparisons.

use vstd::prelude::*;

use crate::context::Context;
use crate::context::id_in_set;
use crate::context::lemma_coherent_stable;
use crate::context::lemma_id_in_set_exists;
use crate::db::Db;
use crate::db::joined_not_banned;
use crate::db::lemma_find_player_props;
use crate::db::lemma_player_witness;
use crate::db::player_kind_of;
use crate::db::players_score_only_diff;
use crate::db::scoring_writes_only;
use crate::db::spec_is_banned;
use crate::db::str_eq_string;
use crate::orm::CommitDb;
use crate::orm::GovernanceProposalVoteDb;
use crate::orm::PlayerDb;
use crate::orm::TaskDb;
use crate::orm::TmAddressDb;
use crate::orm::UnidentifiedTaskDb;
use crate::orm::PlayerKindDb;
use crate::orm::TaskTypeDb;
use crate::orm::TransactionKindDb;
use crate::players::NUMBER_CREW_MEMBERS;
use crate::players::PilotValidatorAddress;
use crate::players::NUMBER_PILOTS;
use crate::tasks::CompletableBy;
use crate::tasks::TaskOrTxKind;
use crate::tasks::spec_completable_by;

verus! {

/// The chain-final block count that uptime is measured against.
pub const TOTAL_BLOCKS: i64 = 355326;

/// Crew pool for each unidentified transaction kind, in centipoints, spread
/// over the non-`Unknown` kinds.
pub const CREW_UNIDENTIFIED_POOL_CENTIPOINTS: u64 = 30_000_000_000_000;

/// Pilot pool for each unidentified transaction kind, in centipoints.
pub const PILOT_UNIDENTIFIED_POOL_CENTIPOINTS: u64 = 25_000_000_000_000;

/// The number of transaction kinds that fund unidentified-task pools: every
/// kind except `Unknown`.
pub const UNIDENTIFIED_TASK_BUCKETS: u64 = 26;

/// Pool for each crew transaction task, in centipoints.
pub const CREW_TX_TASK_POOL_CENTIPOINTS: u64 = 4_285_714_285_714;

/// Pool for the pre-genesis bond task, in centipoints.
pub const PRE_GENESIS_BOND_POOL_CENTIPOINTS: u64 = 1_000_000_000_000;

/// Pool for each pilot transaction or one-shot task, in centipoints.
pub const PILOT_TX_TASK_POOL_CENTIPOINTS: u64 = 3_428_571_428_600;

/// Pool for each ongoing pilot task, in centipoints.
pub const ONGOING_TASK_POOL_CENTIPOINTS: u64 = 3_125_000_000_000;

/// Pool for each manual task completed by a crew member, in centipoints.
pub const MANUAL_TASK_CREW_POOL_CENTIPOINTS: u64 = 6_666_666_666_700;

/// Pool for each manual task completed by a pilot, in centipoints.
pub const MANUAL_TASK_PILOT_POOL_CENTIPOINTS: u64 = 6_250_000_000_000;

/// A pot of points: `centipoints / (100 * buckets)` whole points.
#[derive(Clone, Copy, Debug, PartialEq, Eq, Structural)]
pub struct PoolPot {
    pub centipoints: u64,
    pub buckets: u64,
}

#[derive(Clone, Copy, Debug, PartialEq, Eq, Structural)]
pub struct FixedShare(pub PoolPot);

#[derive(Clone, Copy, Debug, PartialEq, Eq, Structural)]
pub struct RelativeToCompletionShare(pub PoolPot);

#[derive(Clone, Copy, Debug, PartialEq, Eq, Structural)]
pub enum Score {
    Fixed(PoolPot),
    RelativeToCompletion(PoolPot),
}

/// The number of players a relative pool is split between.
#[derive(Clone, Copy, Debug, PartialEq, Eq, Structural)]
pub struct CompletedBy(pub i64);

/// A pool together with the class and mode it pays out under.
#[derive(Clone, Copy, Debug, PartialEq, Eq, Structural)]
pub enum PoolPrizeKind {
    FixedCrew(FixedShare),
    FixedPilot(FixedShare),
    RelativeCrew(RelativeToCompletionShare),
    RelativePilot(RelativeToCompletionShare),
}

/// Points one player receives from a pot split `divisor` ways.
pub open spec fn spec_share_amount(pot: PoolPot, divisor: int) -> int {
    if divisor >= 1 && pot.buckets >= 1 {
        (pot.centipoints as int) / (100 * (pot.buckets as int) * divisor)
    } else {
        0
    }
}

/// Points one player receives from a prize, given how many completed.
pub open spec fn spec_prize_share(prize: PoolPrizeKind, completed: int) -> int {
    match prize {
        PoolPrizeKind::FixedCrew(FixedShare(pot)) => spec_share_amount(
            pot,
            NUMBER_CREW_MEMBERS as int,
        ),
        PoolPrizeKind::FixedPilot(FixedShare(pot)) => spec_share_amount(pot, NUMBER_PILOTS as int),
        PoolPrizeKind::RelativeCrew(RelativeToCompletionShare(pot)) => spec_share_amount(
            pot,
            completed,
        ),
        PoolPrizeKind::RelativePilot(RelativeToCompletionShare(pot)) => spec_share_amount(
            pot,
            completed,
        ),
    }
}

fn share_amount(pot: PoolPot, divisor: u64) -> (r: i64)
    requires
        divisor >= 1,
        1 <= pot.buckets <= 1000,
    ensures
        r == spec_share_amount(pot, divisor as int),
        0 <= r,
{
    proof {
        assert(100 * (pot.buckets as int) * (divisor as int) >= 100 && 100 * (pot.buckets as int)
            * (divisor as int) < 0x100000000000000000000000000000000int) by (nonlinear_arith)
            requires
                1 <= pot.buckets <= 1000,
                1 <= divisor <= u64::MAX,
        ;
    }
    let denom: u128 = 100u128 * (pot.buckets as u128) * (divisor as u128);
    let q: u128 = (pot.centipoints as u128) / denom;
    proof {
        assert(q <= (u64::MAX as u128) / 100) by (nonlinear_arith)
            requires
                q == (pot.centipoints as u128) / denom,
                denom >= 100,
                pot.centipoints <= u64::MAX,
        ;
    }
    q as i64
}

/// The single pot a crew manual-task completer draws from.
pub open spec fn spec_manual_pot(player_kind: PlayerKindDb) -> PoolPot {
    match player_kind {
        PlayerKindDb::Crew => PoolPot { centipoints: MANUAL_TASK_CREW_POOL_CENTIPOINTS, buckets: 1 },
        PlayerKindDb::Pilot => PoolPot {
            centipoints: MANUAL_TASK_PILOT_POOL_CENTIPOINTS,
            buckets: 1,
        },
    }
}

/// The pool a `(player class, task or transaction kind)` pair draws from:
/// `None` when the class is ineligible or the kind funds no pool.
pub open spec fn spec_pool(
    player_kind: PlayerKindDb,
    task_type: TaskOrTxKind,
) -> Option<PoolPrizeKind> {
    let completable_by = spec_completable_by(task_type);
    if completable_by is NoOne || (completable_by is OnlyCrew && player_kind is Pilot) || (
    completable_by is OnlyPilots && player_kind is Crew) {
        None
    } else {
        match task_type {
            TaskOrTxKind::Tx(tx_type) => match tx_type {
                TransactionKindDb::Unknown => None,
                _ => match player_kind {
                    PlayerKindDb::Crew => Some(
                        PoolPrizeKind::RelativeCrew(
                            RelativeToCompletionShare(
                                PoolPot {
                                    centipoints: CREW_UNIDENTIFIED_POOL_CENTIPOINTS,
                                    buckets: UNIDENTIFIED_TASK_BUCKETS,
                                },
                            ),
                        ),
                    ),
                    PlayerKindDb::Pilot => Some(
                        PoolPrizeKind::RelativePilot(
                            RelativeToCompletionShare(
                                PoolPot {
                                    centipoints: PILOT_UNIDENTIFIED_POOL_CENTIPOINTS,
                                    buckets: UNIDENTIFIED_TASK_BUCKETS,
                                },
                            ),
                        ),
                    ),
                },
            },
            TaskOrTxKind::Task(task) => match spec_task_score(player_kind, task) {
                None => None,
                Some(Score::Fixed(pot)) => match player_kind {
                    PlayerKindDb::Crew => Some(PoolPrizeKind::FixedCrew(FixedShare(pot))),
                    PlayerKindDb::Pilot => Some(PoolPrizeKind::FixedPilot(FixedShare(pot))),
                },
                Some(Score::RelativeToCompletion(pot)) => match player_kind {
                    PlayerKindDb::Crew => Some(
                        PoolPrizeKind::RelativeCrew(RelativeToCompletionShare(pot)),
                    ),
                    PlayerKindDb::Pilot => Some(
                        PoolPrizeKind::RelativePilot(RelativeToCompletionShare(pot)),
                    ),
                },
            },
        }
    }
}

/// The pot table for identified tasks.
pub open spec fn spec_task_score(player_kind: PlayerKindDb, task: TaskTypeDb) -> Option<Score> {
    match task {
        TaskTypeDb::DelegateStakeOnV0 | TaskTypeDb::DelegateStakeOnV1 => Some(
            Score::Fixed(PoolPot { centipoints: CREW_TX_TASK_POOL_CENTIPOINTS, buckets: 1 }),
        ),
        TaskTypeDb::ClaimPosRewards
        | TaskTypeDb::ShieldNaan
        | TaskTypeDb::UnshieldNaan
        | TaskTypeDb::ShieldToShielded
        | TaskTypeDb::ShieldAssetOverIbc => Some(
            Score::RelativeToCompletion(
                PoolPot { centipoints: CREW_TX_TASK_POOL_CENTIPOINTS, buckets: 1 },
            ),
        ),
        TaskTypeDb::SubmitPreGenesisBondTx => Some(
            Score::RelativeToCompletion(
                PoolPot { centipoints: PRE_GENESIS_BOND_POOL_CENTIPOINTS, buckets: 1 },
            ),
        ),
        TaskTypeDb::StartNode5MinFromGenesis
        | TaskTypeDb::InitPostGenesisValidator
        | TaskTypeDb::InValidatorSetFor1Epoch
        | TaskTypeDb::VotePgfStewardProposal
        | TaskTypeDb::VoteUpgradeV0ToV1
        | TaskTypeDb::VoteUpgradeV1ToV2
        | TaskTypeDb::SignFirstBlockOfUpgradeToV2 => Some(
            Score::RelativeToCompletion(
                PoolPot { centipoints: PILOT_TX_TASK_POOL_CENTIPOINTS, buckets: 1 },
            ),
        ),
        TaskTypeDb::Keep99PerCentUptime
        | TaskTypeDb::Keep95PerCentUptime
        | TaskTypeDb::Keep99PerCentGovParticipationRate
        | TaskTypeDb::Keep90PerCentGovParticipationRate => Some(
            Score::RelativeToCompletion(
                PoolPot { centipoints: ONGOING_TASK_POOL_CENTIPOINTS, buckets: 1 },
            ),
        ),
        _ => Some(Score::RelativeToCompletion(spec_manual_pot(player_kind))),
    }
}

/// The pool a player class draws from for a task or transaction kind.
pub fn get_task_pool_prize(player_kind: &PlayerKindDb, task_type: TaskOrTxKind) -> (r: Option<
    PoolPrizeKind,
>)
    ensures
        r == spec_pool(*player_kind, task_type),
{
    let completable_by = CompletableBy::check(task_type);
    let cannot_be_assigned_points = match (completable_by, player_kind) {
        (CompletableBy::NoOne, _) => true,
        (CompletableBy::OnlyCrew, PlayerKindDb::Pilot) => true,
        (CompletableBy::OnlyPilots, PlayerKindDb::Crew) => true,
        _ => false,
    };
    if cannot_be_assigned_points {
        return None;
    }
    match task_type {
        TaskOrTxKind::Tx(tx_type) => match tx_type {
            TransactionKindDb::Unknown => None,
            _ => match player_kind {
                PlayerKindDb::Crew => Some(
                    PoolPrizeKind::RelativeCrew(
                        RelativeToCompletionShare(
                            PoolPot {
                                centipoints: CREW_UNIDENTIFIED_POOL_CENTIPOINTS,
                                buckets: UNIDENTIFIED_TASK_BUCKETS,
                            },
                        ),
                    ),
                ),
                PlayerKindDb::Pilot => Some(
                    PoolPrizeKind::RelativePilot(
                        RelativeToCompletionShare(
                            PoolPot {
                                centipoints: PILOT_UNIDENTIFIED_POOL_CENTIPOINTS,
                                buckets: UNIDENTIFIED_TASK_BUCKETS,
                            },
                        ),
                    ),
                ),
            },
        },
        TaskOrTxKind::Task(task) => {
            let score: Option<Score> = match task {
                TaskTypeDb::DelegateStakeOnV0 | TaskTypeDb::DelegateStakeOnV1 => Some(
                    Score::Fixed(PoolPot { centipoints: CREW_TX_TASK_POOL_CENTIPOINTS, buckets: 1 }),
                ),
                TaskTypeDb::ClaimPosRewards
                | TaskTypeDb::ShieldNaan
                | TaskTypeDb::UnshieldNaan
                | TaskTypeDb::ShieldToShielded
                | TaskTypeDb::ShieldAssetOverIbc => Some(
                    Score::RelativeToCompletion(
                        PoolPot { centipoints: CREW_TX_TASK_POOL_CENTIPOINTS, buckets: 1 },
                    ),
                ),
                TaskTypeDb::SubmitPreGenesisBondTx => Some(
                    Score::RelativeToCompletion(
                        PoolPot { centipoints: PRE_GENESIS_BOND_POOL_CENTIPOINTS, buckets: 1 },
                    ),
                ),
                TaskTypeDb::StartNode5MinFromGenesis
                | TaskTypeDb::InitPostGenesisValidator
                | TaskTypeDb::InValidatorSetFor1Epoch
                | TaskTypeDb::VotePgfStewardProposal
                | TaskTypeDb::VoteUpgradeV0ToV1
                | TaskTypeDb::VoteUpgradeV1ToV2
                | TaskTypeDb::SignFirstBlockOfUpgradeToV2 => Some(
                    Score::RelativeToCompletion(
                        PoolPot { centipoints: PILOT_TX_TASK_POOL_CENTIPOINTS, buckets: 1 },
                    ),
                ),
                TaskTypeDb::Keep99PerCentUptime
                | TaskTypeDb::Keep95PerCentUptime
                | TaskTypeDb::Keep99PerCentGovParticipationRate
                | TaskTypeDb::Keep90PerCentGovParticipationRate => Some(
                    Score::RelativeToCompletion(
                        PoolPot { centipoints: ONGOING_TASK_POOL_CENTIPOINTS, buckets: 1 },
                    ),
                ),
                _ => Some(
                    Score::RelativeToCompletion(
                        match player_kind {
                            PlayerKindDb::Crew => PoolPot {
                                centipoints: MANUAL_TASK_CREW_POOL_CENTIPOINTS,
                                buckets: 1,
                            },
                            PlayerKindDb::Pilot => PoolPot {
                                centipoints: MANUAL_TASK_PILOT_POOL_CENTIPOINTS,
                                buckets: 1,
                            },
                        },
                    ),
                ),
            };
            match score {
                None => None,
                Some(Score::Fixed(pot)) => match player_kind {
                    PlayerKindDb::Crew => Some(PoolPrizeKind::FixedCrew(FixedShare(pot))),
                    PlayerKindDb::Pilot => Some(PoolPrizeKind::FixedPilot(FixedShare(pot))),
                },
                Some(Score::RelativeToCompletion(pot)) => match player_kind {
                    PlayerKindDb::Crew => Some(
                        PoolPrizeKind::RelativeCrew(RelativeToCompletionShare(pot)),
                    ),
                    PlayerKindDb::Pilot => Some(
                        PoolPrizeKind::RelativePilot(RelativeToCompletionShare(pot)),
                    ),
                },
            }
        },
    }
}


/// Saturating addition over the score domain.
pub open spec fn spec_sat_add_i64(a: int, b: int) -> int {
    if a + b > i64::MAX {
        i64::MAX as int
    } else {
        a + b
    }
}

/// One player row after an award lands on `pid`: a banned row never changes.
pub open spec fn spec_share_row(p: PlayerDb, pid: Seq<char>, share: int) -> PlayerDb {
    if share != 0 && p.id@ == pid && !spec_is_banned(p) {
        PlayerDb { score: spec_sat_add_i64(p.score as int, share) as i64, ..p }
    } else {
        p
    }
}

/// The players table after `share` points land on the unbanned player `pid`.
pub open spec fn spec_apply_share(players: Seq<PlayerDb>, pid: Seq<char>, share: int) -> Seq<
    PlayerDb,
>
    decreases players.len(),
{
    if players.len() == 0 {
        players
    } else {
        spec_apply_share(players.drop_last(), pid, share).push(
            spec_share_row(players.last(), pid, share),
        )
    }
}

pub proof fn lemma_apply_share_pointwise(players: Seq<PlayerDb>, pid: Seq<char>, share: int)
    ensures
        spec_apply_share(players, pid, share).len() == players.len(),
        forall|j: int|
            0 <= j < players.len() ==> spec_apply_share(players, pid, share)[j] == spec_share_row(
                players[j],
                pid,
                share,
            ),
    decreases players.len(),
{
    if players.len() > 0 {
        lemma_apply_share_pointwise(players.drop_last(), pid, share);
    }
}

/// An award changes scores only.
pub proof fn lemma_apply_share_stable(players: Seq<PlayerDb>, pid: Seq<char>, share: int)
    ensures
        players_score_only_diff(players, spec_apply_share(players, pid, share)),
{
    lemma_apply_share_pointwise(players, pid, share);
}

/// The players table after an award of the pool for `task_type` lands on
/// `pid`, split `completed` ways.
pub open spec fn spec_update_score(
    players: Seq<PlayerDb>,
    pid: Seq<char>,
    completed: int,
    task_type: TaskOrTxKind,
) -> Seq<PlayerDb> {
    match player_kind_of(players, pid) {
        None => players,
        Some(k) => match spec_pool(k, task_type) {
            None => players,
            Some(prize) => spec_apply_share(players, pid, spec_prize_share(prize, completed)),
        },
    }
}

pub proof fn lemma_update_score_stable(
    players: Seq<PlayerDb>,
    pid: Seq<char>,
    completed: int,
    task_type: TaskOrTxKind,
)
    ensures
        players_score_only_diff(players, spec_update_score(players, pid, completed, task_type)),
{
    match player_kind_of(players, pid) {
        None => {},
        Some(k) => match spec_pool(k, task_type) {
            None => {},
            Some(prize) => {
                lemma_apply_share_stable(players, pid, spec_prize_share(prize, completed));
            },
        },
    }
}

/// Adds `share` points to the score of the unbanned player `player_id`; a
/// zero share is skipped.
pub fn set_assign_player_score(db: &mut Db, player_id: &str, share: i64)
    requires
        old(db).players_unique(),
        share >= 0,
    ensures
        final(db).players@ == spec_apply_share(old(db).players@, player_id@, share as int),
        players_score_only_diff(old(db).players@, final(db).players@),
        scoring_writes_only(*old(db), *final(db)),
{
    proof {
        lemma_apply_share_pointwise(db.players@, player_id@, share as int);
    }
    if share == 0 {
        proof {
            assert(spec_apply_share(db.players@, player_id@, share as int) =~= db.players@);
        }
        return ;
    }
    match db.find_player(player_id) {
        None => {
            proof {
                lemma_find_player_props(db.players@, player_id@);
                assert(spec_apply_share(db.players@, player_id@, share as int) =~= db.players@);
            }
        },
        Some(i) => {
            let banned = match db.players[i].is_banned {
                Some(true) => true,
                _ => false,
            };
            proof {
                lemma_find_player_props(db.players@, player_id@);
            }
            if banned {
                proof {
                    assert forall|j: int|
                        0 <= j < db.players@.len() implies spec_share_row(
                        db.players@[j],
                        player_id@,
                        share as int,
                    ) == db.players@[j] by {
                        if db.players@[j].id@ == player_id@ {
                            lemma_player_witness(db.players@, player_id@, j);
                        }
                    }
                    assert(spec_apply_share(db.players@, player_id@, share as int)
                        =~= db.players@);
                }
            } else {
                let ghost players0 = db.players@;
                let old_score = db.players[i].score;
                let new_score = if old_score > i64::MAX - share {
                    i64::MAX
                } else {
                    old_score + share
                };
                let row = &mut db.players[i];
                row.score = new_score;
                proof {
                    assert forall|j: int|
                        0 <= j < players0.len() implies db.players@[j] == spec_share_row(
                        players0[j],
                        player_id@,
                        share as int,
                    ) by {
                        if j != i {
                            if players0[j].id@ == player_id@ {
                                lemma_player_witness(players0, player_id@, j);
                            }
                        }
                    }
                    assert(db.players@ =~= spec_apply_share(players0, player_id@, share as int));
                }
            }
        },
    }
}

/// Awards one player its share of the pool for a task or transaction kind.
pub fn update_score(
    db: &mut Db,
    player_id: &str,
    num_completed_players: CompletedBy,
    cx: &mut Context,
    task_type: TaskOrTxKind,
)
    requires
        old(db).players_unique(),
        old(cx).player_kinds.coherent(old(db).players@),
        num_completed_players.0 >= 1,
    ensures
        final(db).players@ == spec_update_score(
            old(db).players@,
            player_id@,
            num_completed_players.0 as int,
            task_type,
        ),
        players_score_only_diff(old(db).players@, final(db).players@),
        scoring_writes_only(*old(db), *final(db)),
        final(cx).player_kinds.coherent(final(db).players@),
        old(cx).config_eq(&*final(cx)),
{
    let player_kind = match cx.player_kinds.get_or_update(player_id, db) {
        Ok(k) => k,
        Err(_) => {
            return ;
        },
    };
    let pool_prize = match get_task_pool_prize(&player_kind, task_type) {
        Some(p) => p,
        None => {
            return ;
        },
    };
    proof {
        lemma_pool_pot_bounds(player_kind, task_type);
    }
    let share = match pool_prize {
        PoolPrizeKind::FixedCrew(FixedShare(pot)) => share_amount(pot, NUMBER_CREW_MEMBERS as u64),
        PoolPrizeKind::FixedPilot(FixedShare(pot)) => share_amount(pot, NUMBER_PILOTS as u64),
        PoolPrizeKind::RelativeCrew(RelativeToCompletionShare(pot)) => share_amount(
            pot,
            num_completed_players.0 as u64,
        ),
        PoolPrizeKind::RelativePilot(RelativeToCompletionShare(pot)) => share_amount(
            pot,
            num_completed_players.0 as u64,
        ),
    };
    let ghost players0 = db.players@;
    set_assign_player_score(db, player_id, share);
    proof {
        lemma_coherent_stable(&cx.player_kinds, players0, db.players@);
    }
}

/// Every pot in the table holds at most a few buckets.
pub proof fn lemma_pool_pot_bounds(player_kind: PlayerKindDb, task_type: TaskOrTxKind)
    ensures
        match spec_pool(player_kind, task_type) {
            Some(PoolPrizeKind::FixedCrew(FixedShare(pot))) => 1 <= pot.buckets <= 1000,
            Some(PoolPrizeKind::FixedPilot(FixedShare(pot))) => 1 <= pot.buckets <= 1000,
            Some(PoolPrizeKind::RelativeCrew(RelativeToCompletionShare(pot))) => 1 <= pot.buckets
                <= 1000,
            Some(PoolPrizeKind::RelativePilot(RelativeToCompletionShare(pot))) => 1 <= pot.buckets
                <= 1000,
            None => true,
        },
{
    match task_type {
        TaskOrTxKind::Tx(_) => {},
        TaskOrTxKind::Task(task) => {
            assert(match spec_task_score(player_kind, task) {
                Some(Score::Fixed(pot)) => 1 <= pot.buckets <= 1000,
                Some(Score::RelativeToCompletion(pot)) => 1 <= pot.buckets <= 1000,
                None => true,
            });
        },
    }
}


/// Number of ledger rows for `task` whose player is enrolled and not banned:
/// the completer count a relative pool is split by.
pub open spec fn spec_count_task_completers(
    tasks: Seq<TaskDb>,
    players: Seq<PlayerDb>,
    task: TaskTypeDb,
) -> int
    decreases tasks.len(),
{
    if tasks.len() == 0 {
        0
    } else {
        spec_count_task_completers(tasks.drop_last(), players, task) + if tasks.last().task == task
            && joined_not_banned(players, tasks.last().player_id@) {
            1int
        } else {
            0int
        }
    }
}

pub proof fn lemma_count_task_completers_bounds(
    tasks: Seq<TaskDb>,
    players: Seq<PlayerDb>,
    task: TaskTypeDb,
)
    ensures
        0 <= spec_count_task_completers(tasks, players, task) <= tasks.len(),
    decreases tasks.len(),
{
    if tasks.len() > 0 {
        lemma_count_task_completers_bounds(tasks.drop_last(), players, task);
    }
}

proof fn lemma_count_task_completers_step(
    tasks: Seq<TaskDb>,
    players: Seq<PlayerDb>,
    task: TaskTypeDb,
    i: int,
)
    requires
        0 <= i < tasks.len(),
    ensures
        spec_count_task_completers(tasks.take(i + 1), players, task)
            == spec_count_task_completers(tasks.take(i), players, task) + if tasks[i].task == task
            && joined_not_banned(players, tasks[i].player_id@) {
            1int
        } else {
            0int
        },
{
    assert(tasks.take(i + 1).drop_last() =~= tasks.take(i));
    assert(tasks.take(i + 1).last() == tasks[i]);
}

pub proof fn lemma_count_task_completers_at_least_one(
    tasks: Seq<TaskDb>,
    players: Seq<PlayerDb>,
    task: TaskTypeDb,
    i: int,
)
    requires
        0 <= i < tasks.len(),
        tasks[i].task == task,
        joined_not_banned(players, tasks[i].player_id@),
    ensures
        spec_count_task_completers(tasks, players, task) >= 1,
    decreases tasks.len(),
{
    if i == tasks.len() - 1 {
        lemma_count_task_completers_bounds(tasks.drop_last(), players, task);
    } else {
        lemma_count_task_completers_at_least_one(tasks.drop_last(), players, task, i);
    }
}

/// Whether `player_id` names an enrolled, unbanned player.
fn row_player_not_banned(db: &Db, player_id: &String) -> (r: bool)
    ensures
        r == joined_not_banned(db.players@, player_id@),
{
    match db.find_player(player_id.as_str()) {
        Some(pi) => match db.players[pi].is_banned {
            Some(true) => false,
            _ => true,
        },
        None => false,
    }
}

fn count_task_completers(db: &Db, task: TaskTypeDb) -> (r: u64)
    ensures
        r as int == spec_count_task_completers(db.tasks@, db.players@, task),
        r <= db.tasks@.len(),
{
    let n = db.tasks.len();
    let mut count: u64 = 0;
    let mut i: usize = 0;
    while i < n
        invariant
            n == db.tasks@.len(),
            0 <= i <= n,
            count <= i,
            count as int == spec_count_task_completers(db.tasks@.take(i as int), db.players@, task),
        decreases n - i,
    {
        proof {
            lemma_count_task_completers_step(db.tasks@, db.players@, task, i as int);
        }
        let pid = db.tasks[i].player_id.clone();
        if db.tasks[i].task == task && row_player_not_banned(db, &pid) {
            count = count + 1;
        }
        i += 1;
    }
    proof {
        assert(db.tasks@.take(n as int) =~= db.tasks@);
    }
    count
}

/// Number of unidentified rows for `tx_kind` whose player is enrolled, not
/// banned, and of the given class.
pub open spec fn spec_count_unid_completers(
    rows: Seq<UnidentifiedTaskDb>,
    players: Seq<PlayerDb>,
    tx_kind: TransactionKindDb,
    player_kind: PlayerKindDb,
) -> int
    decreases rows.len(),
{
    if rows.len() == 0 {
        0
    } else {
        spec_count_unid_completers(rows.drop_last(), players, tx_kind, player_kind) + if rows.last().tx_kind
            == tx_kind && joined_not_banned(players, rows.last().player_id@) && player_kind_of(
            players,
            rows.last().player_id@,
        ) == Some(player_kind) {
            1int
        } else {
            0int
        }
    }
}

pub proof fn lemma_count_unid_completers_bounds(
    rows: Seq<UnidentifiedTaskDb>,
    players: Seq<PlayerDb>,
    tx_kind: TransactionKindDb,
    player_kind: PlayerKindDb,
)
    ensures
        0 <= spec_count_unid_completers(rows, players, tx_kind, player_kind) <= rows.len(),
    decreases rows.len(),
{
    if rows.len() > 0 {
        lemma_count_unid_completers_bounds(rows.drop_last(), players, tx_kind, player_kind);
    }
}

proof fn lemma_count_unid_completers_step(
    rows: Seq<UnidentifiedTaskDb>,
    players: Seq<PlayerDb>,
    tx_kind: TransactionKindDb,
    player_kind: PlayerKindDb,
    i: int,
)
    requires
        0 <= i < rows.len(),
    ensures
        spec_count_unid_completers(rows.take(i + 1), players, tx_kind, player_kind)
            == spec_count_unid_completers(rows.take(i), players, tx_kind, player_kind) + if rows[i].tx_kind
            == tx_kind && joined_not_banned(players, rows[i].player_id@) && player_kind_of(
            players,
            rows[i].player_id@,
        ) == Some(player_kind) {
            1int
        } else {
            0int
        },
{
    assert(rows.take(i + 1).drop_last() =~= rows.take(i));
    assert(rows.take(i + 1).last() == rows[i]);
}

pub proof fn lemma_count_unid_completers_at_least_one(
    rows: Seq<UnidentifiedTaskDb>,
    players: Seq<PlayerDb>,
    tx_kind: TransactionKindDb,
    player_kind: PlayerKindDb,
    i: int,
)
    requires
        0 <= i < rows.len(),
        rows[i].tx_kind == tx_kind,
        joined_not_banned(players, rows[i].player_id@),
        player_kind_of(players, rows[i].player_id@) == Some(player_kind),
    ensures
        spec_count_unid_completers(rows, players, tx_kind, player_kind) >= 1,
    decreases rows.len(),
{
    if i == rows.len() - 1 {
        lemma_count_unid_completers_bounds(rows.drop_last(), players, tx_kind, player_kind);
    } else {
        lemma_count_unid_completers_at_least_one(rows.drop_last(), players, tx_kind, player_kind, i);
    }
}

fn count_unid_completers(db: &Db, tx_kind: TransactionKindDb, player_kind: PlayerKindDb) -> (r: u64)
    ensures
        r as int == spec_count_unid_completers(
            db.unidentified_tasks@,
            db.players@,
            tx_kind,
            player_kind,
        ),
        r <= db.unidentified_tasks@.len(),
{
    let n = db.unidentified_tasks.len();
    let mut count: u64 = 0;
    let mut i: usize = 0;
    while i < n
        invariant
            n == db.unidentified_tasks@.len(),
            0 <= i <= n,
            count <= i,
            count as int == spec_count_unid_completers(
                db.unidentified_tasks@.take(i as int),
                db.players@,
                tx_kind,
                player_kind,
            ),
        decreases n - i,
    {
        proof {
            lemma_count_unid_completers_step(
                db.unidentified_tasks@,
                db.players@,
                tx_kind,
                player_kind,
                i as int,
            );
        }
        let pid = db.unidentified_tasks[i].player_id.clone();
        if db.unidentified_tasks[i].tx_kind == tx_kind {
            match db.find_player(pid.as_str()) {
                Some(pi) => {
                    let banned = match db.players[pi].is_banned {
                        Some(true) => true,
                        _ => false,
                    };
                    if !banned && db.players[pi].kind == player_kind {
                        count = count + 1;
                    }
                },
                None => {},
            }
        }
        i += 1;
    }
    proof {
        assert(db.unidentified_tasks@.take(n as int) =~= db.unidentified_tasks@);
    }
    count
}

/// Number of recorded votes naming the player; duplicate votes for one
/// proposal all count, as the store records them.
pub open spec fn spec_count_votes(votes: Seq<GovernanceProposalVoteDb>, pid: Seq<char>) -> int
    decreases votes.len(),
{
    if votes.len() == 0 {
        0
    } else {
        spec_count_votes(votes.drop_last(), pid) + if votes.last().player_id@ == pid {
            1int
        } else {
            0int
        }
    }
}

proof fn lemma_count_votes_step(votes: Seq<GovernanceProposalVoteDb>, pid: Seq<char>, i: int)
    requires
        0 <= i < votes.len(),
    ensures
        spec_count_votes(votes.take(i + 1), pid) == spec_count_votes(votes.take(i), pid) + if votes[i].player_id@
            == pid {
            1int
        } else {
            0int
        },
{
    assert(votes.take(i + 1).drop_last() =~= votes.take(i));
    assert(votes.take(i + 1).last() == votes[i]);
}

/// A governance participation measurement: raw vote rows over proposals.
#[derive(Clone, Copy, Debug, PartialEq, Eq, Structural)]
pub struct ParticipationRate {
    pub votes: u64,
    pub proposals: u64,
}

/// `votes / proposals >= pct / 100`, with an empty proposal table reading as
/// rate zero.
pub open spec fn spec_gov_rate_at_least(votes: int, proposals: int, pct: int) -> bool {
    proposals > 0 && votes * 100 >= proposals * pct
}

impl ParticipationRate {
    pub fn at_least(&self, pct: u64) -> (r: bool)
        ensures
            r == spec_gov_rate_at_least(self.votes as int, self.proposals as int, pct as int),
    {
        proof {
            assert((self.proposals as u128) * (pct as u128) < 0x100000000000000000000000000000000int)
                by (nonlinear_arith)
                requires
                    self.proposals <= u64::MAX,
                    pct <= u64::MAX,
            ;
        }
        self.proposals > 0 && (self.votes as u128) * 100 >= (self.proposals as u128) * (
        pct as u128)
    }
}

/// The player's governance participation: raw vote count over the number of
/// proposals.
pub fn compute_governance_participation_rate(db: &Db, player_id: &str) -> (r: ParticipationRate)
    ensures
        r.votes as int == spec_count_votes(db.governance_votes@, player_id@),
        r.proposals as int == db.governance_proposals@.len(),
{
    let n = db.governance_votes.len();
    let mut count: u64 = 0;
    let mut i: usize = 0;
    while i < n
        invariant
            n == db.governance_votes@.len(),
            0 <= i <= n,
            count <= i,
            count as int == spec_count_votes(db.governance_votes@.take(i as int), player_id@),
        decreases n - i,
    {
        proof {
            lemma_count_votes_step(db.governance_votes@, player_id@, i as int);
        }
        if str_eq_string(player_id, &db.governance_votes[i].player_id) {
            count = count + 1;
        }
        i += 1;
    }
    proof {
        assert(db.governance_votes@.take(n as int) =~= db.governance_votes@);
    }
    ParticipationRate { votes: count, proposals: db.governance_proposals.len() as u64 }
}

/// Whether some consensus-address row maps the commit's signer back to the
/// given validator address.
pub open spec fn spec_commit_counts_for(
    tm_addresses: Seq<TmAddressDb>,
    c: CommitDb,
    addr: Seq<char>,
) -> bool {
    exists|ti: int|
        0 <= ti < tm_addresses.len() && tm_addresses[ti].tm_address@ == c.address@
            && tm_addresses[ti].validator_namada_address@ == addr
}

/// Number of commits signed by the validator with the given address.
pub open spec fn spec_count_signed(
    commits: Seq<CommitDb>,
    tm_addresses: Seq<TmAddressDb>,
    addr: Seq<char>,
) -> int
    decreases commits.len(),
{
    if commits.len() == 0 {
        0
    } else {
        spec_count_signed(commits.drop_last(), tm_addresses, addr) + if spec_commit_counts_for(
            tm_addresses,
            commits.last(),
            addr,
        ) {
            1int
        } else {
            0int
        }
    }
}

proof fn lemma_count_signed_step(
    commits: Seq<CommitDb>,
    tm_addresses: Seq<TmAddressDb>,
    addr: Seq<char>,
    i: int,
)
    requires
        0 <= i < commits.len(),
    ensures
        spec_count_signed(commits.take(i + 1), tm_addresses, addr) == spec_count_signed(
            commits.take(i),
            tm_addresses,
            addr,
        ) + if spec_commit_counts_for(tm_addresses, commits[i], addr) {
            1int
        } else {
            0int
        },
{
    assert(commits.take(i + 1).drop_last() =~= commits.take(i));
    assert(commits.take(i + 1).last() == commits[i]);
}

fn commit_counts_for(db: &Db, ci: usize, addr: &String) -> (r: bool)
    requires
        ci < db.commits@.len(),
    ensures
        r == spec_commit_counts_for(db.tm_addresses@, db.commits@[ci as int], addr@),
{
    let n = db.tm_addresses.len();
    let mut i: usize = 0;
    while i < n
        invariant
            n == db.tm_addresses@.len(),
            0 <= i <= n,
            ci < db.commits@.len(),
            forall|j: int|
                0 <= j < i ==> !(db.tm_addresses@[j].tm_address@ == db.commits@[ci as int].address@
                    && db.tm_addresses@[j].validator_namada_address@ == addr@),
        decreases n - i,
    {
        if db.tm_addresses[i].tm_address == db.commits[ci].address
            && db.tm_addresses[i].validator_namada_address == *addr {
            return true;
        }
        i += 1;
    }
    false
}

/// An uptime measurement: blocks signed out of the chain-final block count.
#[derive(Clone, Copy, Debug, PartialEq, Eq, Structural)]
pub struct UptimeMeasure {
    pub signed_blocks: u64,
}

/// `signed / TOTAL_BLOCKS >= pct / 100`.
pub open spec fn spec_uptime_at_least(signed: int, pct: int) -> bool {
    signed * 100 >= (TOTAL_BLOCKS as int) * pct
}

impl UptimeMeasure {
    pub fn at_least(&self, pct: u64) -> (r: bool)
        ensures
            r == spec_uptime_at_least(self.signed_blocks as int, pct as int),
    {
        proof {
            assert((TOTAL_BLOCKS as u128) * (pct as u128) < 0x100000000000000000000000000000000int)
                by (nonlinear_arith)
                requires
                    pct <= u64::MAX,
            ;
        }
        (self.signed_blocks as u128) * 100 >= (TOTAL_BLOCKS as u128) * (pct as u128)
    }
}

/// The pilot's uptime: how many commits its consensus addresses signed.
pub fn compute_pilot_uptime(db: &Db, pilot_addr: &PilotValidatorAddress) -> (r: UptimeMeasure)
    ensures
        r.signed_blocks as int == spec_count_signed(db.commits@, db.tm_addresses@, pilot_addr.0@),
{
    let n = db.commits.len();
    let mut count: u64 = 0;
    let mut i: usize = 0;
    while i < n
        invariant
            n == db.commits@.len(),
            0 <= i <= n,
            count <= i,
            count as int == spec_count_signed(
                db.commits@.take(i as int),
                db.tm_addresses@,
                pilot_addr.0@,
            ),
        decreases n - i,
    {
        proof {
            lemma_count_signed_step(db.commits@, db.tm_addresses@, pilot_addr.0@, i as int);
        }
        if commit_counts_for(db, i, &pilot_addr.0) {
            count = count + 1;
        }
        i += 1;
    }
    proof {
        assert(db.commits@.take(n as int) =~= db.commits@);
    }
    UptimeMeasure { signed_blocks: count }
}

/// Whether some player named `pid` holds a positive score.
pub open spec fn spec_nonzero_score(players: Seq<PlayerDb>, pid: Seq<char>) -> bool {
    exists|i: int| 0 <= i < players.len() && players[i].id@ == pid && players[i].score > 0
}

/// The ids of every player holding a positive score, read before the pass
/// resets scores.
pub fn fetch_pilots_with_nonzero_score(db: &Db) -> (r: Vec<String>)
    ensures
        forall|pid: Seq<char>|
            #[trigger] id_in_set(r@, pid) == spec_nonzero_score(db.players@, pid),
{
    let n = db.players.len();
    let mut out: Vec<String> = Vec::new();
    let mut i: usize = 0;
    while i < n
        invariant
            n == db.players@.len(),
            0 <= i <= n,
            forall|pid: Seq<char>|
                #[trigger] id_in_set(out@, pid) == exists|j: int|
                    0 <= j < i && db.players@[j].id@ == pid && db.players@[j].score > 0,
        decreases n - i,
    {
        let ghost out0 = out@;
        if db.players[i].score > 0 {
            out.push(db.players[i].id.clone());
        }
        proof {
            assert forall|pid: Seq<char>|
                #[trigger] id_in_set(out@, pid) == exists|j: int|
                    0 <= j < i + 1 && db.players@[j].id@ == pid && db.players@[j].score > 0 by {
                lemma_id_in_set_exists(out@, pid);
                lemma_id_in_set_exists(out0, pid);
                if id_in_set(out@, pid) {
                    let k = choose|k: int| 0 <= k < out@.len() && out@[k]@ == pid;
                    if k < out0.len() {
                        assert(id_in_set(out0, pid));
                    } else {
                        assert(db.players@[i as int].id@ == pid && db.players@[i as int].score > 0);
                    }
                }
                if exists|j: int| 0 <= j < i + 1 && db.players@[j].id@ == pid && db.players@[j].score
                    > 0 {
                    let j = choose|j: int|
                        0 <= j < i + 1 && db.players@[j].id@ == pid && db.players@[j].score > 0;
                    if j < i {
                        assert(id_in_set(out0, pid));
                        let k = choose|k: int| 0 <= k < out0.len() && out0[k]@ == pid;
                        assert(out@[k]@ == pid);
                    } else {
                        assert(out@[out@.len() - 1]@ == pid);
                    }
                }
            }
        }
        i += 1;
    }
    out
}

/// Resets every player's score to zero.
pub fn reset_player_scores(db: &mut Db)
    ensures
        final(db).players@ == spec_reset(old(db).players@),
        players_score_only_diff(old(db).players@, final(db).players@),
        scoring_writes_only(*old(db), *final(db)),
{
    proof {
        lemma_reset_pointwise(db.players@);
    }
    let n = db.players.len();
    let mut i: usize = 0;
    while i < n
        invariant
            n == db.players@.len(),
            n == old(db).players@.len(),
            0 <= i <= n,
            scoring_writes_only(*old(db), *db),
            forall|j: int|
                0 <= j < n ==> db.players@[j] == if j < i {
                    PlayerDb { score: 0, ..old(db).players@[j] }
                } else {
                    old(db).players@[j]
                },
        decreases n - i,
    {
        let row = &mut db.players[i];
        row.score = 0;
        i += 1;
    }
    proof {
        lemma_reset_pointwise(old(db).players@);
        assert(db.players@ =~= spec_reset(old(db).players@));
    }
}

/// The players table with every score zeroed.
pub open spec fn spec_reset(players: Seq<PlayerDb>) -> Seq<PlayerDb>
    decreases players.len(),
{
    if players.len() == 0 {
        players
    } else {
        spec_reset(players.drop_last()).push(PlayerDb { score: 0, ..players.last() })
    }
}

pub proof fn lemma_reset_pointwise(players: Seq<PlayerDb>)
    ensures
        spec_reset(players).len() == players.len(),
        forall|j: int|
            0 <= j < players.len() ==> spec_reset(players)[j] == (PlayerDb {
                score: 0,
                ..players[j]
            }),
    decreases players.len(),
{
    if players.len() > 0 {
        lemma_reset_pointwise(players.drop_last());
    }
}


/// Score changes compose.
pub proof fn lemma_score_only_diff_trans(a: Seq<PlayerDb>, b: Seq<PlayerDb>, c: Seq<PlayerDb>)
    requires
        players_score_only_diff(a, b),
        players_score_only_diff(b, c),
    ensures
        players_score_only_diff(a, c),
{
    assert forall|i: int| 0 <= i < a.len() implies c[i] == (PlayerDb {
        score: c[i].score,
        ..a[i]
    }) by {
        assert(b[i] == (PlayerDb { score: b[i].score, ..a[i] }));
        assert(c[i] == (PlayerDb { score: c[i].score, ..b[i] }));
    }
}

/// Score changes keep ids unique.
pub proof fn lemma_unique_from_diff(a: Seq<PlayerDb>, b: Seq<PlayerDb>)
    requires
        crate::db::unique_ids(a),
        players_score_only_diff(a, b),
    ensures
        crate::db::unique_ids(b),
{
    assert forall|i: int, j: int| 0 <= i < j < b.len() implies b[i].id@ != b[j].id@ by {
        assert(b[i] == (PlayerDb { score: b[i].score, ..a[i] }));
        assert(b[j] == (PlayerDb { score: b[j].score, ..a[j] }));
    }
}

/// A pilot whose participation rate clears the threshold.
pub open spec fn spec_gov_qualifies(
    p: PlayerDb,
    votes: Seq<GovernanceProposalVoteDb>,
    proposals_len: int,
    pct: int,
) -> bool {
    &&& p.kind == PlayerKindDb::Pilot
    &&& !spec_is_banned(p)
    &&& spec_gov_rate_at_least(spec_count_votes(votes, p.id@), proposals_len, pct)
}

pub open spec fn spec_count_gov_qualifiers(
    players: Seq<PlayerDb>,
    votes: Seq<GovernanceProposalVoteDb>,
    proposals_len: int,
    pct: int,
) -> int
    decreases players.len(),
{
    if players.len() == 0 {
        0
    } else {
        spec_count_gov_qualifiers(players.drop_last(), votes, proposals_len, pct)
            + if spec_gov_qualifies(players.last(), votes, proposals_len, pct) {
            1int
        } else {
            0int
        }
    }
}

pub proof fn lemma_count_gov_qualifiers_bounds(
    players: Seq<PlayerDb>,
    votes: Seq<GovernanceProposalVoteDb>,
    proposals_len: int,
    pct: int,
)
    ensures
        0 <= spec_count_gov_qualifiers(players, votes, proposals_len, pct) <= players.len(),
    decreases players.len(),
{
    if players.len() > 0 {
        lemma_count_gov_qualifiers_bounds(players.drop_last(), votes, proposals_len, pct);
    }
}

proof fn lemma_count_gov_qualifiers_step(
    players: Seq<PlayerDb>,
    votes: Seq<GovernanceProposalVoteDb>,
    proposals_len: int,
    pct: int,
    i: int,
)
    requires
        0 <= i < players.len(),
    ensures
        spec_count_gov_qualifiers(players.take(i + 1), votes, proposals_len, pct)
            == spec_count_gov_qualifiers(players.take(i), votes, proposals_len, pct)
            + if spec_gov_qualifies(players[i], votes, proposals_len, pct) {
            1int
        } else {
            0int
        },
{
    assert(players.take(i + 1).drop_last() =~= players.take(i));
    assert(players.take(i + 1).last() == players[i]);
}

pub proof fn lemma_count_gov_qualifiers_at_least_one(
    players: Seq<PlayerDb>,
    votes: Seq<GovernanceProposalVoteDb>,
    proposals_len: int,
    pct: int,
    i: int,
)
    requires
        0 <= i < players.len(),
        spec_gov_qualifies(players[i], votes, proposals_len, pct),
    ensures
        spec_count_gov_qualifiers(players, votes, proposals_len, pct) >= 1,
    decreases players.len(),
{
    if i == players.len() - 1 {
        lemma_count_gov_qualifiers_bounds(players.drop_last(), votes, proposals_len, pct);
    } else {
        lemma_count_gov_qualifiers_at_least_one(players.drop_last(), votes, proposals_len, pct, i);
    }
}

fn count_gov_qualifiers(db: &Db, pct: u64) -> (r: u64)
    ensures
        r as int == spec_count_gov_qualifiers(
            db.players@,
            db.governance_votes@,
            db.governance_proposals@.len() as int,
            pct as int,
        ),
        r <= db.players@.len(),
{
    let n = db.players.len();
    let mut count: u64 = 0;
    let mut i: usize = 0;
    while i < n
        invariant
            n == db.players@.len(),
            0 <= i <= n,
            count <= i,
            count as int == spec_count_gov_qualifiers(
                db.players@.take(i as int),
                db.governance_votes@,
                db.governance_proposals@.len() as int,
                pct as int,
            ),
        decreases n - i,
    {
        proof {
            lemma_count_gov_qualifiers_step(
                db.players@,
                db.governance_votes@,
                db.governance_proposals@.len() as int,
                pct as int,
                i as int,
            );
        }
        let is_pilot = db.players[i].kind == PlayerKindDb::Pilot;
        let banned = match db.players[i].is_banned {
            Some(true) => true,
            _ => false,
        };
        if is_pilot && !banned {
            let pid = db.players[i].id.clone();
            let rate = compute_governance_participation_rate(db, pid.as_str());
            if rate.at_least(pct) {
                count = count + 1;
            }
        }
        i += 1;
    }
    proof {
        assert(db.players@.take(n as int) =~= db.players@);
    }
    count
}

/// A pilot whose uptime clears the threshold, measured only for pilots with
/// a validator address that held a positive score at the start of the pass.
pub open spec fn spec_uptime_qualifies(
    p: PlayerDb,
    tm_addresses: Seq<TmAddressDb>,
    commits: Seq<CommitDb>,
    source: Seq<PlayerDb>,
    pct: int,
) -> bool {
    &&& p.kind == PlayerKindDb::Pilot
    &&& !spec_is_banned(p)
    &&& spec_nonzero_score(source, p.id@)
    &&& match p.namada_validator_address {
        Some(addr) => spec_uptime_at_least(spec_count_signed(commits, tm_addresses, addr@), pct),
        None => false,
    }
}

pub open spec fn spec_count_uptime_qualifiers(
    players: Seq<PlayerDb>,
    tm_addresses: Seq<TmAddressDb>,
    commits: Seq<CommitDb>,
    source: Seq<PlayerDb>,
    pct: int,
) -> int
    decreases players.len(),
{
    if players.len() == 0 {
        0
    } else {
        spec_count_uptime_qualifiers(players.drop_last(), tm_addresses, commits, source, pct)
            + if spec_uptime_qualifies(players.last(), tm_addresses, commits, source, pct) {
            1int
        } else {
            0int
        }
    }
}

pub proof fn lemma_count_uptime_qualifiers_bounds(
    players: Seq<PlayerDb>,
    tm_addresses: Seq<TmAddressDb>,
    commits: Seq<CommitDb>,
    source: Seq<PlayerDb>,
    pct: int,
)
    ensures
        0 <= spec_count_uptime_qualifiers(players, tm_addresses, commits, source, pct)
            <= players.len(),
    decreases players.len(),
{
    if players.len() > 0 {
        lemma_count_uptime_qualifiers_bounds(
            players.drop_last(),
            tm_addresses,
            commits,
            source,
            pct,
        );
    }
}

proof fn lemma_count_uptime_qualifiers_step(
    players: Seq<PlayerDb>,
    tm_addresses: Seq<TmAddressDb>,
    commits: Seq<CommitDb>,
    source: Seq<PlayerDb>,
    pct: int,
    i: int,
)
    requires
        0 <= i < players.len(),
    ensures
        spec_count_uptime_qualifiers(players.take(i + 1), tm_addresses, commits, source, pct)
            == spec_count_uptime_qualifiers(players.take(i), tm_addresses, commits, source, pct)
            + if spec_uptime_qualifies(players[i], tm_addresses, commits, source, pct) {
            1int
        } else {
            0int
        },
{
    assert(players.take(i + 1).drop_last() =~= players.take(i));
    assert(players.take(i + 1).last() == players[i]);
}

pub proof fn lemma_count_uptime_qualifiers_at_least_one(
    players: Seq<PlayerDb>,
    tm_addresses: Seq<TmAddressDb>,
    commits: Seq<CommitDb>,
    source: Seq<PlayerDb>,
    pct: int,
    i: int,
)
    requires
        0 <= i < players.len(),
        spec_uptime_qualifies(players[i], tm_addresses, commits, source, pct),
    ensures
        spec_count_uptime_qualifiers(players, tm_addresses, commits, source, pct) >= 1,
    decreases players.len(),
{
    if i == players.len() - 1 {
        lemma_count_uptime_qualifiers_bounds(players.drop_last(), tm_addresses, commits, source, pct);
    } else {
        lemma_count_uptime_qualifiers_at_least_one(
            players.drop_last(),
            tm_addresses,
            commits,
            source,
            pct,
            i,
        );
    }
}

fn id_in_vec(set: &Vec<String>, id: &String) -> (r: bool)
    ensures
        r == id_in_set(set@, id@),
{
    proof {
        lemma_id_in_set_exists(set@, id@);
    }
    let n = set.len();
    let mut i: usize = 0;
    while i < n
        invariant
            n == set@.len(),
            0 <= i <= n,
            forall|j: int| 0 <= j < i ==> set@[j]@ != id@,
        decreases n - i,
    {
        if set[i] == *id {
            proof {
                lemma_id_in_set_exists(set@, id@);
            }
            return true;
        }
        i += 1;
    }
    proof {
        lemma_id_in_set_exists(set@, id@);
    }
    false
}

fn count_uptime_qualifiers(
    db: &Db,
    set: &Vec<String>,
    pct: u64,
    Ghost(source): Ghost<Seq<PlayerDb>>,
) -> (r: u64)
    requires
        forall|pid: Seq<char>| #[trigger] id_in_set(set@, pid) == spec_nonzero_score(source, pid),
    ensures
        r as int == spec_count_uptime_qualifiers(
            db.players@,
            db.tm_addresses@,
            db.commits@,
            source,
            pct as int,
        ),
        r <= db.players@.len(),
{
    let n = db.players.len();
    let mut count: u64 = 0;
    let mut i: usize = 0;
    while i < n
        invariant
            n == db.players@.len(),
            0 <= i <= n,
            count <= i,
            forall|pid: Seq<char>|
                #[trigger] id_in_set(set@, pid) == spec_nonzero_score(source, pid),
            count as int == spec_count_uptime_qualifiers(
                db.players@.take(i as int),
                db.tm_addresses@,
                db.commits@,
                source,
                pct as int,
            ),
        decreases n - i,
    {
        proof {
            lemma_count_uptime_qualifiers_step(
                db.players@,
                db.tm_addresses@,
                db.commits@,
                source,
                pct as int,
                i as int,
            );
        }
        let is_pilot = db.players[i].kind == PlayerKindDb::Pilot;
        let banned = match db.players[i].is_banned {
            Some(true) => true,
            _ => false,
        };
        if is_pilot && !banned && id_in_vec(set, &db.players[i].id) {
            match &db.players[i].namada_validator_address {
                Some(addr) => {
                    let measure = compute_pilot_uptime(
                        db,
                        &PilotValidatorAddress(addr.clone()),
                    );
                    if measure.at_least(pct) {
                        count = count + 1;
                    }
                },
                None => {},
            }
        }
        i += 1;
    }
    proof {
        assert(db.players@.take(n as int) =~= db.players@);
    }
    count
}


/// Scores after replaying a prefix of the identified-task ledger: each row
/// whose player is enrolled and not banned is awarded its share of the task's
/// pool, split among all completers of that task.
pub open spec fn spec_score_identified(
    prefix: Seq<TaskDb>,
    all_tasks: Seq<TaskDb>,
    players: Seq<PlayerDb>,
) -> Seq<PlayerDb>
    decreases prefix.len(),
{
    if prefix.len() == 0 {
        players
    } else {
        let ps = spec_score_identified(prefix.drop_last(), all_tasks, players);
        let row = prefix.last();
        if joined_not_banned(ps, row.player_id@) {
            spec_update_score(
                ps,
                row.player_id@,
                spec_count_task_completers(all_tasks, ps, row.task),
                TaskOrTxKind::Task(row.task),
            )
        } else {
            ps
        }
    }
}

proof fn lemma_score_identified_step(
    prefix_src: Seq<TaskDb>,
    all_tasks: Seq<TaskDb>,
    players: Seq<PlayerDb>,
    i: int,
)
    requires
        0 <= i < prefix_src.len(),
    ensures
        spec_score_identified(prefix_src.take(i + 1), all_tasks, players) == ({
            let ps = spec_score_identified(prefix_src.take(i), all_tasks, players);
            let row = prefix_src[i];
            if joined_not_banned(ps, row.player_id@) {
                spec_update_score(
                    ps,
                    row.player_id@,
                    spec_count_task_completers(all_tasks, ps, row.task),
                    TaskOrTxKind::Task(row.task),
                )
            } else {
                ps
            }
        }),
{
    assert(prefix_src.take(i + 1).drop_last() =~= prefix_src.take(i));
    assert(prefix_src.take(i + 1).last() == prefix_src[i]);
}

pub proof fn lemma_score_identified_stable(
    prefix: Seq<TaskDb>,
    all_tasks: Seq<TaskDb>,
    players: Seq<PlayerDb>,
)
    ensures
        players_score_only_diff(players, spec_score_identified(prefix, all_tasks, players)),
    decreases prefix.len(),
{
    if prefix.len() == 0 {
        assert forall|i: int| 0 <= i < players.len() implies players[i] == (PlayerDb {
            score: players[i].score,
            ..players[i]
        }) by {}
    } else {
        lemma_score_identified_stable(prefix.drop_last(), all_tasks, players);
        let ps = spec_score_identified(prefix.drop_last(), all_tasks, players);
        let row = prefix.last();
        if joined_not_banned(ps, row.player_id@) {
            lemma_update_score_stable(
                ps,
                row.player_id@,
                spec_count_task_completers(all_tasks, ps, row.task),
                TaskOrTxKind::Task(row.task),
            );
            lemma_score_only_diff_trans(
                players,
                ps,
                spec_score_identified(prefix, all_tasks, players),
            );
        }
    }
}

/// Scores after replaying a prefix of the unidentified-task ledger.
pub open spec fn spec_score_unidentified(
    prefix: Seq<UnidentifiedTaskDb>,
    all_rows: Seq<UnidentifiedTaskDb>,
    players: Seq<PlayerDb>,
) -> Seq<PlayerDb>
    decreases prefix.len(),
{
    if prefix.len() == 0 {
        players
    } else {
        let ps = spec_score_unidentified(prefix.drop_last(), all_rows, players);
        let row = prefix.last();
        if joined_not_banned(ps, row.player_id@) {
            match player_kind_of(ps, row.player_id@) {
                None => ps,
                Some(k) => spec_update_score(
                    ps,
                    row.player_id@,
                    spec_count_unid_completers(all_rows, ps, row.tx_kind, k),
                    TaskOrTxKind::Tx(row.tx_kind),
                ),
            }
        } else {
            ps
        }
    }
}

proof fn lemma_score_unidentified_step(
    prefix_src: Seq<UnidentifiedTaskDb>,
    all_rows: Seq<UnidentifiedTaskDb>,
    players: Seq<PlayerDb>,
    i: int,
)
    requires
        0 <= i < prefix_src.len(),
    ensures
        spec_score_unidentified(prefix_src.take(i + 1), all_rows, players) == ({
            let ps = spec_score_unidentified(prefix_src.take(i), all_rows, players);
            let row = prefix_src[i];
            if joined_not_banned(ps, row.player_id@) {
                match player_kind_of(ps, row.player_id@) {
                    None => ps,
                    Some(k) => spec_update_score(
                        ps,
                        row.player_id@,
                        spec_count_unid_completers(all_rows, ps, row.tx_kind, k),
                        TaskOrTxKind::Tx(row.tx_kind),
                    ),
                }
            } else {
                ps
            }
        }),
{
    assert(prefix_src.take(i + 1).drop_last() =~= prefix_src.take(i));
    assert(prefix_src.take(i + 1).last() == prefix_src[i]);
}

pub proof fn lemma_score_unidentified_stable(
    prefix: Seq<UnidentifiedTaskDb>,
    all_rows: Seq<UnidentifiedTaskDb>,
    players: Seq<PlayerDb>,
)
    ensures
        players_score_only_diff(players, spec_score_unidentified(prefix, all_rows, players)),
    decreases prefix.len(),
{
    if prefix.len() == 0 {
        assert forall|i: int| 0 <= i < players.len() implies players[i] == (PlayerDb {
            score: players[i].score,
            ..players[i]
        }) by {}
    } else {
        lemma_score_unidentified_stable(prefix.drop_last(), all_rows, players);
        let ps = spec_score_unidentified(prefix.drop_last(), all_rows, players);
        let row = prefix.last();
        if joined_not_banned(ps, row.player_id@) {
            match player_kind_of(ps, row.player_id@) {
                None => {},
                Some(k) => {
                    lemma_update_score_stable(
                        ps,
                        row.player_id@,
                        spec_count_unid_completers(all_rows, ps, row.tx_kind, k),
                        TaskOrTxKind::Tx(row.tx_kind),
                    );
                    lemma_score_only_diff_trans(
                        players,
                        ps,
                        spec_score_unidentified(prefix, all_rows, players),
                    );
                },
            }
        }
    }
}

/// Scores after the governance-participation sweep over a prefix of the
/// players table: qualifiers at ninety percent earn that pool's share, and
/// qualifiers at ninety-nine percent the stricter pool's share on top.
pub open spec fn spec_score_gov(
    prefix: Seq<PlayerDb>,
    votes: Seq<GovernanceProposalVoteDb>,
    proposals_len: int,
    c90: int,
    c99: int,
    players: Seq<PlayerDb>,
) -> Seq<PlayerDb>
    decreases prefix.len(),
{
    if prefix.len() == 0 {
        players
    } else {
        let ps = spec_score_gov(prefix.drop_last(), votes, proposals_len, c90, c99, players);
        let p = prefix.last();
        if spec_gov_qualifies(p, votes, proposals_len, 90) {
            let ps2 = spec_update_score(
                ps,
                p.id@,
                c90,
                TaskOrTxKind::Task(TaskTypeDb::Keep90PerCentGovParticipationRate),
            );
            if spec_gov_rate_at_least(spec_count_votes(votes, p.id@), proposals_len, 99) {
                spec_update_score(
                    ps2,
                    p.id@,
                    c99,
                    TaskOrTxKind::Task(TaskTypeDb::Keep99PerCentGovParticipationRate),
                )
            } else {
                ps2
            }
        } else {
            ps
        }
    }
}

proof fn lemma_score_gov_step(
    prefix_src: Seq<PlayerDb>,
    votes: Seq<GovernanceProposalVoteDb>,
    proposals_len: int,
    c90: int,
    c99: int,
    players: Seq<PlayerDb>,
    i: int,
)
    requires
        0 <= i < prefix_src.len(),
    ensures
        spec_score_gov(prefix_src.take(i + 1), votes, proposals_len, c90, c99, players) == ({
            let ps = spec_score_gov(prefix_src.take(i), votes, proposals_len, c90, c99, players);
            let p = prefix_src[i];
            if spec_gov_qualifies(p, votes, proposals_len, 90) {
                let ps2 = spec_update_score(
                    ps,
                    p.id@,
                    c90,
                    TaskOrTxKind::Task(TaskTypeDb::Keep90PerCentGovParticipationRate),
                );
                if spec_gov_rate_at_least(spec_count_votes(votes, p.id@), proposals_len, 99) {
                    spec_update_score(
                        ps2,
                        p.id@,
                        c99,
                        TaskOrTxKind::Task(TaskTypeDb::Keep99PerCentGovParticipationRate),
                    )
                } else {
                    ps2
                }
            } else {
                ps
            }
        }),
{
    assert(prefix_src.take(i + 1).drop_last() =~= prefix_src.take(i));
    assert(prefix_src.take(i + 1).last() == prefix_src[i]);
}

pub proof fn lemma_score_gov_stable(
    prefix: Seq<PlayerDb>,
    votes: Seq<GovernanceProposalVoteDb>,
    proposals_len: int,
    c90: int,
    c99: int,
    players: Seq<PlayerDb>,
)
    ensures
        players_score_only_diff(
            players,
            spec_score_gov(prefix, votes, proposals_len, c90, c99, players),
        ),
    decreases prefix.len(),
{
    if prefix.len() == 0 {
        assert forall|i: int| 0 <= i < players.len() implies players[i] == (PlayerDb {
            score: players[i].score,
            ..players[i]
        }) by {}
    } else {
        lemma_score_gov_stable(prefix.drop_last(), votes, proposals_len, c90, c99, players);
        let ps = spec_score_gov(prefix.drop_last(), votes, proposals_len, c90, c99, players);
        let p = prefix.last();
        if spec_gov_qualifies(p, votes, proposals_len, 90) {
            let ps2 = spec_update_score(
                ps,
                p.id@,
                c90,
                TaskOrTxKind::Task(TaskTypeDb::Keep90PerCentGovParticipationRate),
            );
            lemma_update_score_stable(
                ps,
                p.id@,
                c90,
                TaskOrTxKind::Task(TaskTypeDb::Keep90PerCentGovParticipationRate),
            );
            lemma_score_only_diff_trans(players, ps, ps2);
            if spec_gov_rate_at_least(spec_count_votes(votes, p.id@), proposals_len, 99) {
                lemma_update_score_stable(
                    ps2,
                    p.id@,
                    c99,
                    TaskOrTxKind::Task(TaskTypeDb::Keep99PerCentGovParticipationRate),
                );
                lemma_score_only_diff_trans(
                    players,
                    ps2,
                    spec_score_gov(prefix, votes, proposals_len, c90, c99, players),
                );
            }
        }
    }
}

/// Scores after the uptime sweep over a prefix of the players table.
pub open spec fn spec_score_uptime(
    prefix: Seq<PlayerDb>,
    tm_addresses: Seq<TmAddressDb>,
    commits: Seq<CommitDb>,
    source: Seq<PlayerDb>,
    c95: int,
    c99: int,
    players: Seq<PlayerDb>,
) -> Seq<PlayerDb>
    decreases prefix.len(),
{
    if prefix.len() == 0 {
        players
    } else {
        let ps = spec_score_uptime(
            prefix.drop_last(),
            tm_addresses,
            commits,
            source,
            c95,
            c99,
            players,
        );
        let p = prefix.last();
        if spec_uptime_qualifies(p, tm_addresses, commits, source, 95) {
            let ps2 = spec_update_score(
                ps,
                p.id@,
                c95,
                TaskOrTxKind::Task(TaskTypeDb::Keep95PerCentUptime),
            );
            if spec_uptime_qualifies(p, tm_addresses, commits, source, 99) {
                spec_update_score(
                    ps2,
                    p.id@,
                    c99,
                    TaskOrTxKind::Task(TaskTypeDb::Keep99PerCentUptime),
                )
            } else {
                ps2
            }
        } else {
            ps
        }
    }
}

proof fn lemma_score_uptime_step(
    prefix_src: Seq<PlayerDb>,
    tm_addresses: Seq<TmAddressDb>,
    commits: Seq<CommitDb>,
    source: Seq<PlayerDb>,
    c95: int,
    c99: int,
    players: Seq<PlayerDb>,
    i: int,
)
    requires
        0 <= i < prefix_src.len(),
    ensures
        spec_score_uptime(prefix_src.take(i + 1), tm_addresses, commits, source, c95, c99, players)
            == ({
            let ps = spec_score_uptime(
                prefix_src.take(i),
                tm_addresses,
                commits,
                source,
                c95,
                c99,
                players,
            );
            let p = prefix_src[i];
            if spec_uptime_qualifies(p, tm_addresses, commits, source, 95) {
                let ps2 = spec_update_score(
                    ps,
                    p.id@,
                    c95,
                    TaskOrTxKind::Task(TaskTypeDb::Keep95PerCentUptime),
                );
                if spec_uptime_qualifies(p, tm_addresses, commits, source, 99) {
                    spec_update_score(
                        ps2,
                        p.id@,
                        c99,
                        TaskOrTxKind::Task(TaskTypeDb::Keep99PerCentUptime),
                    )
                } else {
                    ps2
                }
            } else {
                ps
            }
        }),
{
    assert(prefix_src.take(i + 1).drop_last() =~= prefix_src.take(i));
    assert(prefix_src.take(i + 1).last() == prefix_src[i]);
}

pub proof fn lemma_score_uptime_stable(
    prefix: Seq<PlayerDb>,
    tm_addresses: Seq<TmAddressDb>,
    commits: Seq<CommitDb>,
    source: Seq<PlayerDb>,
    c95: int,
    c99: int,
    players: Seq<PlayerDb>,
)
    ensures
        players_score_only_diff(
            players,
            spec_score_uptime(prefix, tm_addresses, commits, source, c95, c99, players),
        ),
    decreases prefix.len(),
{
    if prefix.len() == 0 {
        assert forall|i: int| 0 <= i < players.len() implies players[i] == (PlayerDb {
            score: players[i].score,
            ..players[i]
        }) by {}
    } else {
        lemma_score_uptime_stable(
            prefix.drop_last(),
            tm_addresses,
            commits,
            source,
            c95,
            c99,
            players,
        );
        let ps = spec_score_uptime(
            prefix.drop_last(),
            tm_addresses,
            commits,
            source,
            c95,
            c99,
            players,
        );
        let p = prefix.last();
        if spec_uptime_qualifies(p, tm_addresses, commits, source, 95) {
            let ps2 = spec_update_score(
                ps,
                p.id@,
                c95,
                TaskOrTxKind::Task(TaskTypeDb::Keep95PerCentUptime),
            );
            lemma_update_score_stable(
                ps,
                p.id@,
                c95,
                TaskOrTxKind::Task(TaskTypeDb::Keep95PerCentUptime),
            );
            lemma_score_only_diff_trans(players, ps, ps2);
            if spec_uptime_qualifies(p, tm_addresses, commits, source, 99) {
                lemma_update_score_stable(
                    ps2,
                    p.id@,
                    c99,
                    TaskOrTxKind::Task(TaskTypeDb::Keep99PerCentUptime),
                );
                lemma_score_only_diff_trans(
                    players,
                    ps2,
                    spec_score_uptime(prefix, tm_addresses, commits, source, c95, c99, players),
                );
            }
        }
    }
}


/// Scores after the two ongoing-task sweeps: governance participation, then
/// uptime.
pub open spec fn spec_ongoing_scores(
    players: Seq<PlayerDb>,
    votes: Seq<GovernanceProposalVoteDb>,
    proposals_len: int,
    tm_addresses: Seq<TmAddressDb>,
    commits: Seq<CommitDb>,
    source: Seq<PlayerDb>,
) -> Seq<PlayerDb> {
    let c90 = spec_count_gov_qualifiers(players, votes, proposals_len, 90);
    let c99 = spec_count_gov_qualifiers(players, votes, proposals_len, 99);
    let p3 = spec_score_gov(players, votes, proposals_len, c90, c99, players);
    let c95 = spec_count_uptime_qualifiers(p3, tm_addresses, commits, source, 95);
    let c99u = spec_count_uptime_qualifiers(p3, tm_addresses, commits, source, 99);
    spec_score_uptime(p3, tm_addresses, commits, source, c95, c99u, p3)
}

/// Scores after one whole scoring pass over the snapshot: reset, the two
/// ledgers, then the ongoing tasks, with uptime eligibility measured against
/// the scores the snapshot held when the pass began.
pub open spec fn spec_scoring(db: Db) -> Seq<PlayerDb> {
    let p0 = spec_reset(db.players@);
    let p1 = spec_score_identified(db.tasks@, db.tasks@, p0);
    let p2 = spec_score_unidentified(db.unidentified_tasks@, db.unidentified_tasks@, p1);
    spec_ongoing_scores(
        p2,
        db.governance_votes@,
        db.governance_proposals@.len() as int,
        db.tm_addresses@,
        db.commits@,
        db.players@,
    )
}

/// Replays both task ledgers against the pool-prize table.
#[verifier::loop_isolation(false)]
fn recompute_completed_task_scores(db: &mut Db, cx: &mut Context)
    requires
        old(db).players_unique(),
        old(cx).player_kinds.coherent(old(db).players@),
        old(db).tasks@.len() <= i64::MAX,
        old(db).unidentified_tasks@.len() <= i64::MAX,
    ensures
        scoring_writes_only(*old(db), *final(db)),
        final(db).players@ == spec_score_unidentified(
            old(db).unidentified_tasks@,
            old(db).unidentified_tasks@,
            spec_score_identified(old(db).tasks@, old(db).tasks@, old(db).players@),
        ),
        players_score_only_diff(old(db).players@, final(db).players@),
        final(db).players_unique(),
        final(cx).player_kinds.coherent(final(db).players@),
        old(cx).config_eq(&*final(cx)),
{
    let n = db.tasks.len();
    let mut i: usize = 0;
    while i < n
        invariant
            n == db.tasks@.len(),
            0 <= i <= n,
            n <= i64::MAX,
            scoring_writes_only(*old(db), *db),
            db.players@ == spec_score_identified(
                old(db).tasks@.take(i as int),
                old(db).tasks@,
                old(db).players@,
            ),
            players_score_only_diff(old(db).players@, db.players@),
            db.players_unique(),
            cx.player_kinds.coherent(db.players@),
            old(cx).config_eq(&*cx),
        decreases n - i,
    {
        proof {
            lemma_score_identified_step(old(db).tasks@, old(db).tasks@, old(db).players@, i as int);
        }
        let row_task = db.tasks[i].task;
        let pid = db.tasks[i].player_id.clone();
        if row_player_not_banned(db, &pid) {
            let c = count_task_completers(db, row_task);
            proof {
                lemma_count_task_completers_at_least_one(
                    db.tasks@,
                    db.players@,
                    row_task,
                    i as int,
                );
            }
            let ghost before = db.players@;
            update_score(db, pid.as_str(), CompletedBy(c as i64), cx, TaskOrTxKind::Task(row_task));
            proof {
                lemma_score_only_diff_trans(old(db).players@, before, db.players@);
                lemma_unique_from_diff(old(db).players@, db.players@);
            }
        }
        i += 1;
    }
    proof {
        assert(old(db).tasks@.take(n as int) =~= old(db).tasks@);
    }

    let ghost p1 = db.players@;
    let m = db.unidentified_tasks.len();
    let mut i: usize = 0;
    while i < m
        invariant
            m == db.unidentified_tasks@.len(),
            0 <= i <= m,
            m <= i64::MAX,
            scoring_writes_only(*old(db), *db),
            db.players@ == spec_score_unidentified(
                old(db).unidentified_tasks@.take(i as int),
                old(db).unidentified_tasks@,
                p1,
            ),
            players_score_only_diff(old(db).players@, db.players@),
            db.players_unique(),
            cx.player_kinds.coherent(db.players@),
            old(cx).config_eq(&*cx),
        decreases m - i,
    {
        proof {
            lemma_score_unidentified_step(
                old(db).unidentified_tasks@,
                old(db).unidentified_tasks@,
                p1,
                i as int,
            );
        }
        let row_kind = db.unidentified_tasks[i].tx_kind;
        let pid = db.unidentified_tasks[i].player_id.clone();
        match db.find_player(pid.as_str()) {
            None => {},
            Some(pi) => {
                let banned = match db.players[pi].is_banned {
                    Some(true) => true,
                    _ => false,
                };
                if !banned {
                    let player_kind = db.players[pi].kind;
                    let c = count_unid_completers(db, row_kind, player_kind);
                    proof {
                        lemma_count_unid_completers_at_least_one(
                            db.unidentified_tasks@,
                            db.players@,
                            row_kind,
                            player_kind,
                            i as int,
                        );
                    }
                    let ghost before = db.players@;
                    update_score(
                        db,
                        pid.as_str(),
                        CompletedBy(c as i64),
                        cx,
                        TaskOrTxKind::Tx(row_kind),
                    );
                    proof {
                        lemma_score_only_diff_trans(old(db).players@, before, db.players@);
                        lemma_unique_from_diff(old(db).players@, db.players@);
                    }
                }
            },
        }
        i += 1;
    }
    proof {
        assert(old(db).unidentified_tasks@.take(m as int) =~= old(db).unidentified_tasks@);
    }
}

/// Awards the governance-participation pools to qualifying pilots.
#[verifier::loop_isolation(false)]
fn recompute_gov_task_scores(db: &mut Db, cx: &mut Context)
    requires
        old(db).players_unique(),
        old(cx).player_kinds.coherent(old(db).players@),
        old(db).players@.len() <= i64::MAX,
    ensures
        scoring_writes_only(*old(db), *final(db)),
        final(db).players@ == ({
            let nprop = old(db).governance_proposals@.len() as int;
            let c90 = spec_count_gov_qualifiers(old(db).players@, old(db).governance_votes@, nprop, 90);
            let c99 = spec_count_gov_qualifiers(old(db).players@, old(db).governance_votes@, nprop, 99);
            spec_score_gov(
                old(db).players@,
                old(db).governance_votes@,
                nprop,
                c90,
                c99,
                old(db).players@,
            )
        }),
        players_score_only_diff(old(db).players@, final(db).players@),
        final(db).players_unique(),
        final(cx).player_kinds.coherent(final(db).players@),
        old(cx).config_eq(&*final(cx)),
{
    let c90 = count_gov_qualifiers(db, 90);
    let c99 = count_gov_qualifiers(db, 99);
    let ghost nprop = db.governance_proposals@.len() as int;
    let n = db.players.len();
    let mut i: usize = 0;
    while i < n
        invariant
            n == old(db).players@.len(),
            0 <= i <= n,
            n <= i64::MAX,
            c90 as int == spec_count_gov_qualifiers(
                old(db).players@,
                old(db).governance_votes@,
                nprop,
                90,
            ),
            c99 as int == spec_count_gov_qualifiers(
                old(db).players@,
                old(db).governance_votes@,
                nprop,
                99,
            ),
            c90 <= n,
            c99 <= n,
            nprop == old(db).governance_proposals@.len() as int,
            scoring_writes_only(*old(db), *db),
            db.players@ == spec_score_gov(
                old(db).players@.take(i as int),
                old(db).governance_votes@,
                nprop,
                c90 as int,
                c99 as int,
                old(db).players@,
            ),
            players_score_only_diff(old(db).players@, db.players@),
            db.players_unique(),
            cx.player_kinds.coherent(db.players@),
            old(cx).config_eq(&*cx),
        decreases n - i,
    {
        proof {
            lemma_score_gov_step(
                old(db).players@,
                old(db).governance_votes@,
                nprop,
                c90 as int,
                c99 as int,
                old(db).players@,
                i as int,
            );
        }
        let is_pilot = db.players[i].kind == PlayerKindDb::Pilot;
        let banned = match db.players[i].is_banned {
            Some(true) => true,
            _ => false,
        };
        if is_pilot && !banned {
            let pid = db.players[i].id.clone();
            let rate = compute_governance_participation_rate(db, pid.as_str());
            if rate.at_least(90) {
                proof {
                    assert(spec_gov_qualifies(
                        old(db).players@[i as int],
                        old(db).governance_votes@,
                        nprop,
                        90,
                    ));
                    lemma_count_gov_qualifiers_at_least_one(
                        old(db).players@,
                        old(db).governance_votes@,
                        nprop,
                        90,
                        i as int,
                    );
                }
                let ghost before = db.players@;
                update_score(
                    db,
                    pid.as_str(),
                    CompletedBy(c90 as i64),
                    cx,
                    TaskOrTxKind::Task(TaskTypeDb::Keep90PerCentGovParticipationRate),
                );
                proof {
                    lemma_score_only_diff_trans(old(db).players@, before, db.players@);
                    lemma_unique_from_diff(old(db).players@, db.players@);
                }
                if rate.at_least(99) {
                    proof {
                        assert(spec_gov_qualifies(
                            old(db).players@[i as int],
                            old(db).governance_votes@,
                            nprop,
                            99,
                        ));
                        lemma_count_gov_qualifiers_at_least_one(
                            old(db).players@,
                            old(db).governance_votes@,
                            nprop,
                            99,
                            i as int,
                        );
                    }
                    let ghost before2 = db.players@;
                    update_score(
                        db,
                        pid.as_str(),
                        CompletedBy(c99 as i64),
                        cx,
                        TaskOrTxKind::Task(TaskTypeDb::Keep99PerCentGovParticipationRate),
                    );
                    proof {
                        lemma_score_only_diff_trans(old(db).players@, before2, db.players@);
                        lemma_unique_from_diff(old(db).players@, db.players@);
                    }
                }
            }
        }
        i += 1;
    }
    proof {
        assert(old(db).players@.take(n as int) =~= old(db).players@);
    }
}

/// Awards the uptime pools to qualifying pilots, measured against the
/// positive-score snapshot taken before the pass reset the scores.
#[verifier::loop_isolation(false)]
fn recompute_uptime_task_scores(
    db: &mut Db,
    cx: &mut Context,
    pilots_with_nonzero_score: &Vec<String>,
    Ghost(source): Ghost<Seq<PlayerDb>>,
)
    requires
        old(db).players_unique(),
        old(cx).player_kinds.coherent(old(db).players@),
        old(db).players@.len() <= i64::MAX,
        forall|pid: Seq<char>|
            #[trigger] id_in_set(pilots_with_nonzero_score@, pid) == spec_nonzero_score(
                source,
                pid,
            ),
    ensures
        scoring_writes_only(*old(db), *final(db)),
        final(db).players@ == ({
            let c95 = spec_count_uptime_qualifiers(
                old(db).players@,
                old(db).tm_addresses@,
                old(db).commits@,
                source,
                95,
            );
            let c99 = spec_count_uptime_qualifiers(
                old(db).players@,
                old(db).tm_addresses@,
                old(db).commits@,
                source,
                99,
            );
            spec_score_uptime(
                old(db).players@,
                old(db).tm_addresses@,
                old(db).commits@,
                source,
                c95,
                c99,
                old(db).players@,
            )
        }),
        players_score_only_diff(old(db).players@, final(db).players@),
        final(db).players_unique(),
        final(cx).player_kinds.coherent(final(db).players@),
        old(cx).config_eq(&*final(cx)),
{
    let c95 = count_uptime_qualifiers(db, pilots_with_nonzero_score, 95, Ghost(source));
    let c99 = count_uptime_qualifiers(db, pilots_with_nonzero_score, 99, Ghost(source));
    let n = db.players.len();
    let mut i: usize = 0;
    while i < n
        invariant
            n == old(db).players@.len(),
            0 <= i <= n,
            n <= i64::MAX,
            c95 as int == spec_count_uptime_qualifiers(
                old(db).players@,
                old(db).tm_addresses@,
                old(db).commits@,
                source,
                95,
            ),
            c99 as int == spec_count_uptime_qualifiers(
                old(db).players@,
                old(db).tm_addresses@,
                old(db).commits@,
                source,
                99,
            ),
            c95 <= n,
            c99 <= n,
            forall|pid: Seq<char>|
                #[trigger] id_in_set(pilots_with_nonzero_score@, pid) == spec_nonzero_score(
                    source,
                    pid,
                ),
            scoring_writes_only(*old(db), *db),
            db.players@ == spec_score_uptime(
                old(db).players@.take(i as int),
                old(db).tm_addresses@,
                old(db).commits@,
                source,
                c95 as int,
                c99 as int,
                old(db).players@,
            ),
            players_score_only_diff(old(db).players@, db.players@),
            db.players_unique(),
            cx.player_kinds.coherent(db.players@),
            old(cx).config_eq(&*cx),
        decreases n - i,
    {
        proof {
            lemma_score_uptime_step(
                old(db).players@,
                old(db).tm_addresses@,
                old(db).commits@,
                source,
                c95 as int,
                c99 as int,
                old(db).players@,
                i as int,
            );
        }
        let is_pilot = db.players[i].kind == PlayerKindDb::Pilot;
        let banned = match db.players[i].is_banned {
            Some(true) => true,
            _ => false,
        };
        if is_pilot && !banned && id_in_vec(pilots_with_nonzero_score, &db.players[i].id) {
            let addr = match &db.players[i].namada_validator_address {
                Some(addr) => Some(addr.clone()),
                None => None,
            };
            match addr {
                None => {},
                Some(addr) => {
                    let pid = db.players[i].id.clone();
                    let measure = compute_pilot_uptime(db, &PilotValidatorAddress(addr));
                    if measure.at_least(95) {
                        proof {
                            assert(spec_uptime_qualifies(
                                old(db).players@[i as int],
                                old(db).tm_addresses@,
                                old(db).commits@,
                                source,
                                95,
                            ));
                            lemma_count_uptime_qualifiers_at_least_one(
                                old(db).players@,
                                old(db).tm_addresses@,
                                old(db).commits@,
                                source,
                                95,
                                i as int,
                            );
                        }
                        let ghost before = db.players@;
                        update_score(
                            db,
                            pid.as_str(),
                            CompletedBy(c95 as i64),
                            cx,
                            TaskOrTxKind::Task(TaskTypeDb::Keep95PerCentUptime),
                        );
                        proof {
                            lemma_score_only_diff_trans(old(db).players@, before, db.players@);
                            lemma_unique_from_diff(old(db).players@, db.players@);
                        }
                        if measure.at_least(99) {
                            proof {
                                assert(spec_uptime_qualifies(
                                    old(db).players@[i as int],
                                    old(db).tm_addresses@,
                                    old(db).commits@,
                                    source,
                                    99,
                                ));
                                lemma_count_uptime_qualifiers_at_least_one(
                                    old(db).players@,
                                    old(db).tm_addresses@,
                                    old(db).commits@,
                                    source,
                                    99,
                                    i as int,
                                );
                            }
                            let ghost before2 = db.players@;
                            update_score(
                                db,
                                pid.as_str(),
                                CompletedBy(c99 as i64),
                                cx,
                                TaskOrTxKind::Task(TaskTypeDb::Keep99PerCentUptime),
                            );
                            proof {
                                lemma_score_only_diff_trans(
                                    old(db).players@,
                                    before2,
                                    db.players@,
                                );
                                lemma_unique_from_diff(old(db).players@, db.players@);
                            }
                        }
                    }
                },
            }
        }
        i += 1;
    }
    proof {
        assert(old(db).players@.take(n as int) =~= old(db).players@);
    }
}

/// Runs the two ongoing-task sweeps.
fn recompute_ongoing_task_scores(
    db: &mut Db,
    cx: &mut Context,
    pilots_with_nonzero_score: &Vec<String>,
    Ghost(source): Ghost<Seq<PlayerDb>>,
)
    requires
        old(db).players_unique(),
        old(cx).player_kinds.coherent(old(db).players@),
        old(db).players@.len() <= i64::MAX,
        forall|pid: Seq<char>|
            #[trigger] id_in_set(pilots_with_nonzero_score@, pid) == spec_nonzero_score(
                source,
                pid,
            ),
    ensures
        scoring_writes_only(*old(db), *final(db)),
        final(db).players@ == spec_ongoing_scores(
            old(db).players@,
            old(db).governance_votes@,
            old(db).governance_proposals@.len() as int,
            old(db).tm_addresses@,
            old(db).commits@,
            source,
        ),
        players_score_only_diff(old(db).players@, final(db).players@),
        final(db).players_unique(),
        final(cx).player_kinds.coherent(final(db).players@),
        old(cx).config_eq(&*final(cx)),
{
    recompute_gov_task_scores(db, cx);
    recompute_uptime_task_scores(db, cx, pilots_with_nonzero_score, Ghost(source));
    proof {
        lemma_score_only_diff_trans(old(db).players@, old(db).players@, db.players@);
    }
}

/// One whole scoring pass: snapshot who holds a positive score, reset every
/// score, replay the ledgers, then evaluate the ongoing tasks.
pub fn recompute_task_scores(db: &mut Db, cx: &mut Context)
    requires
        old(db).players_unique(),
        old(cx).player_kinds.coherent(old(db).players@),
        old(db).players@.len() <= i64::MAX,
        old(db).tasks@.len() <= i64::MAX,
        old(db).unidentified_tasks@.len() <= i64::MAX,
    ensures
        scoring_writes_only(*old(db), *final(db)),
        final(db).players@ == spec_scoring(*old(db)),
        players_score_only_diff(old(db).players@, final(db).players@),
        final(db).players_unique(),
        final(cx).player_kinds.coherent(final(db).players@),
        old(cx).config_eq(&*final(cx)),
{
    let pilots_with_nonzero_score = fetch_pilots_with_nonzero_score(&*db);
    let ghost source = db.players@;
    reset_player_scores(db);
    proof {
        lemma_unique_from_diff(old(db).players@, db.players@);
        lemma_coherent_stable(&cx.player_kinds, old(db).players@, db.players@);
    }
    let ghost after_reset = db.players@;
    recompute_completed_task_scores(db, cx);
    proof {
        lemma_score_only_diff_trans(old(db).players@, after_reset, db.players@);
    }
    let ghost after_ledgers = db.players@;
    recompute_ongoing_task_scores(db, cx, &pilots_with_nonzero_score, Ghost(source));
    proof {
        lemma_score_only_diff_trans(old(db).players@, after_ledgers, db.players@);
    }
}

} // verus!
