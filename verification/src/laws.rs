//! The library-wide laws: what holds of every scoring pass, stated over the
//! same spec functions the phase contracts use.

use vstd::prelude::*;

use crate::context::Context;
use crate::db::Db;
use crate::db::player_kind_of;
use crate::db::players_score_only_diff;
use crate::db::spec_is_banned;
use crate::db::unique_ids;
use crate::orm::PlayerDb;
use crate::orm::PlayerKindDb;
use crate::orm::PlayerRankDb;
use crate::player::PlayerId;
use crate::players::spec_rank_qualifies;
use crate::players::spec_ranks_block_ok;
use crate::scores::PoolPot;
use crate::scores::lemma_apply_share_pointwise;
use crate::scores::lemma_reset_pointwise;
use crate::scores::lemma_score_gov_stable;
use crate::scores::lemma_score_identified_stable;
use crate::scores::lemma_score_only_diff_trans;
use crate::scores::lemma_score_uptime_stable;
use crate::scores::lemma_score_unidentified_stable;
use crate::scores::spec_apply_share;
use crate::scores::spec_count_gov_qualifiers;
use crate::scores::spec_count_uptime_qualifiers;
use crate::scores::spec_nonzero_score;
use crate::scores::spec_pool;
use crate::scores::spec_prize_share;
use crate::scores::spec_reset;
use crate::scores::spec_score_gov;
use crate::scores::spec_score_identified;
use crate::scores::spec_score_uptime;
use crate::scores::spec_score_unidentified;
use crate::scores::spec_scoring;
use crate::scores::spec_share_amount;
use crate::scores::spec_update_score;
use crate::scores::spec_uptime_qualifies;
use crate::tasks::TaskOrTxKind;
use crate::tasks::TxPayloads;
use crate::tasks::spec_classify;
use crate::tasks::spec_classify_kind;
use crate::transaction::Transaction;

verus! {

/// For a pool split `completed` ways, the total the completers receive is
/// the pot rounded down by at most one point per completer: the only loss is
/// floor-division error.
pub proof fn lemma_relative_pool_share_error(pot: PoolPot, completed: int)
    requires
        1 <= completed,
        1 <= pot.buckets,
    ensures
        ({
            let share = spec_share_amount(pot, completed);
            let pot_points = (pot.centipoints as int) / (100 * (pot.buckets as int));
            &&& completed * share <= pot_points
            &&& pot_points < completed * share + completed
        }),
{
    let d = 100 * (pot.buckets as int);
    let c = completed;
    let cp = pot.centipoints as int;
    let share = spec_share_amount(pot, c);
    assert(d >= 100) by (nonlinear_arith)
        requires
            pot.buckets >= 1,
            d == 100 * (pot.buckets as int),
    ;
    assert(share == cp / (d * c));
    assert(d * c > 0) by (nonlinear_arith)
        requires
            d >= 100,
            c >= 1,
    ;
    vstd::arithmetic::div_mod::lemma_fundamental_div_mod(cp, d * c);
    let r = cp % (d * c);
    assert(cp == d * c * share + r && 0 <= r < d * c);
    // c * share == (cp - r) / d exactly
    assert(d * (c * share) == cp - r) by (nonlinear_arith)
        requires
            cp == d * c * share + r,
    ;
    vstd::arithmetic::div_mod::lemma_div_multiples_vanish(c * share, d);
    assert((d * (c * share)) / d == c * share);
    vstd::arithmetic::div_mod::lemma_div_is_ordered(cp - r, cp, d);
    assert(c * share <= cp / d);
    // and cp < (cp - r) + d * c, so cp / d < c * share + c
    vstd::arithmetic::div_mod::lemma_div_is_ordered(cp, cp - r + d * c, d);
    assert((cp - r + d * c) == d * (c * share + c)) by (nonlinear_arith)
        requires
            cp == d * c * share + r,
    ;
    vstd::arithmetic::div_mod::lemma_div_multiples_vanish(c * share + c, d);
    assert(cp / d <= c * share + c);
    if cp / d == c * share + c {
        assert(d * (c * share + c) <= cp) by {
            vstd::arithmetic::div_mod::lemma_fundamental_div_mod(cp, d);
            assert(cp == d * (cp / d) + cp % d && cp % d >= 0);
            assert(d * (cp / d) <= cp) by (nonlinear_arith)
                requires
                    cp == d * (cp / d) + cp % d,
                    cp % d >= 0,
            ;
        }
        assert(false) by (nonlinear_arith)
            requires
                d * (c * share + c) <= cp,
                cp == d * c * share + r,
                r < d * c,
                d > 0,
                c >= 1,
        ;
    }
}

/// A scoring pass changes scores only.
pub proof fn lemma_scoring_stable(db: Db)
    ensures
        players_score_only_diff(db.players@, spec_scoring(db)),
{
    let p0 = spec_reset(db.players@);
    lemma_reset_pointwise(db.players@);
    assert(players_score_only_diff(db.players@, p0));
    let p1 = spec_score_identified(db.tasks@, db.tasks@, p0);
    lemma_score_identified_stable(db.tasks@, db.tasks@, p0);
    lemma_score_only_diff_trans(db.players@, p0, p1);
    let p2 = spec_score_unidentified(db.unidentified_tasks@, db.unidentified_tasks@, p1);
    lemma_score_unidentified_stable(db.unidentified_tasks@, db.unidentified_tasks@, p1);
    lemma_score_only_diff_trans(db.players@, p1, p2);
    let nprop = db.governance_proposals@.len() as int;
    let c90 = spec_count_gov_qualifiers(p2, db.governance_votes@, nprop, 90);
    let c99 = spec_count_gov_qualifiers(p2, db.governance_votes@, nprop, 99);
    let p3 = spec_score_gov(p2, db.governance_votes@, nprop, c90, c99, p2);
    lemma_score_gov_stable(p2, db.governance_votes@, nprop, c90, c99, p2);
    lemma_score_only_diff_trans(db.players@, p2, p3);
    let c95 = spec_count_uptime_qualifiers(p3, db.tm_addresses@, db.commits@, db.players@, 95);
    let c99u = spec_count_uptime_qualifiers(p3, db.tm_addresses@, db.commits@, db.players@, 99);
    lemma_score_uptime_stable(p3, db.tm_addresses@, db.commits@, db.players@, c95, c99u, p3);
    lemma_score_only_diff_trans(
        db.players@,
        p3,
        spec_score_uptime(p3, db.tm_addresses@, db.commits@, db.players@, c95, c99u, p3),
    );
}

/// No award ever touches a banned player's row.
proof fn lemma_apply_share_banned(players: Seq<PlayerDb>, pid: Seq<char>, share: int, i: int)
    requires
        0 <= i < players.len(),
        spec_is_banned(players[i]),
    ensures
        spec_apply_share(players, pid, share)[i] == players[i],
{
    lemma_apply_share_pointwise(players, pid, share);
}

proof fn lemma_update_score_banned(
    players: Seq<PlayerDb>,
    pid: Seq<char>,
    completed: int,
    task_type: TaskOrTxKind,
    i: int,
)
    requires
        0 <= i < players.len(),
        spec_is_banned(players[i]),
    ensures
        spec_update_score(players, pid, completed, task_type)[i] == players[i],
{
    match player_kind_of(players, pid) {
        None => {},
        Some(k) => match spec_pool(k, task_type) {
            None => {},
            Some(prize) => {
                lemma_apply_share_banned(players, pid, spec_prize_share(prize, completed), i);
            },
        },
    }
}

proof fn lemma_score_identified_banned(
    prefix: Seq<crate::orm::TaskDb>,
    all_tasks: Seq<crate::orm::TaskDb>,
    players: Seq<PlayerDb>,
    i: int,
)
    requires
        0 <= i < players.len(),
        spec_is_banned(players[i]),
    ensures
        spec_score_identified(prefix, all_tasks, players)[i] == players[i],
    decreases prefix.len(),
{
    if prefix.len() > 0 {
        lemma_score_identified_banned(prefix.drop_last(), all_tasks, players, i);
        let ps = spec_score_identified(prefix.drop_last(), all_tasks, players);
        lemma_score_identified_stable(prefix.drop_last(), all_tasks, players);
        let row = prefix.last();
        if crate::db::joined_not_banned(ps, row.player_id@) {
            assert(spec_is_banned(ps[i])) by {
                assert(ps[i] == (PlayerDb { score: ps[i].score, ..players[i] }));
            }
            lemma_update_score_banned(
                ps,
                row.player_id@,
                crate::scores::spec_count_task_completers(all_tasks, ps, row.task),
                TaskOrTxKind::Task(row.task),
                i,
            );
        }
    }
}

proof fn lemma_score_unidentified_banned(
    prefix: Seq<crate::orm::UnidentifiedTaskDb>,
    all_rows: Seq<crate::orm::UnidentifiedTaskDb>,
    players: Seq<PlayerDb>,
    i: int,
)
    requires
        0 <= i < players.len(),
        spec_is_banned(players[i]),
    ensures
        spec_score_unidentified(prefix, all_rows, players)[i] == players[i],
    decreases prefix.len(),
{
    if prefix.len() > 0 {
        lemma_score_unidentified_banned(prefix.drop_last(), all_rows, players, i);
        let ps = spec_score_unidentified(prefix.drop_last(), all_rows, players);
        lemma_score_unidentified_stable(prefix.drop_last(), all_rows, players);
        let row = prefix.last();
        if crate::db::joined_not_banned(ps, row.player_id@) {
            assert(spec_is_banned(ps[i])) by {
                assert(ps[i] == (PlayerDb { score: ps[i].score, ..players[i] }));
            }
            match player_kind_of(ps, row.player_id@) {
                None => {},
                Some(k) => {
                    lemma_update_score_banned(
                        ps,
                        row.player_id@,
                        crate::scores::spec_count_unid_completers(all_rows, ps, row.tx_kind, k),
                        TaskOrTxKind::Tx(row.tx_kind),
                        i,
                    );
                },
            }
        }
    }
}

proof fn lemma_score_gov_banned(
    prefix: Seq<PlayerDb>,
    votes: Seq<crate::orm::GovernanceProposalVoteDb>,
    proposals_len: int,
    c90: int,
    c99: int,
    players: Seq<PlayerDb>,
    i: int,
)
    requires
        0 <= i < players.len(),
        spec_is_banned(players[i]),
    ensures
        spec_score_gov(prefix, votes, proposals_len, c90, c99, players)[i] == players[i],
    decreases prefix.len(),
{
    if prefix.len() > 0 {
        lemma_score_gov_banned(prefix.drop_last(), votes, proposals_len, c90, c99, players, i);
        let ps = spec_score_gov(prefix.drop_last(), votes, proposals_len, c90, c99, players);
        lemma_score_gov_stable(prefix.drop_last(), votes, proposals_len, c90, c99, players);
        let p = prefix.last();
        if crate::scores::spec_gov_qualifies(p, votes, proposals_len, 90) {
            assert(spec_is_banned(ps[i])) by {
                assert(ps[i] == (PlayerDb { score: ps[i].score, ..players[i] }));
            }
            let ps2 = spec_update_score(
                ps,
                p.id@,
                c90,
                TaskOrTxKind::Task(crate::orm::TaskTypeDb::Keep90PerCentGovParticipationRate),
            );
            lemma_update_score_banned(
                ps,
                p.id@,
                c90,
                TaskOrTxKind::Task(crate::orm::TaskTypeDb::Keep90PerCentGovParticipationRate),
                i,
            );
            crate::scores::lemma_update_score_stable(
                ps,
                p.id@,
                c90,
                TaskOrTxKind::Task(crate::orm::TaskTypeDb::Keep90PerCentGovParticipationRate),
            );
            if crate::scores::spec_gov_rate_at_least(
                crate::scores::spec_count_votes(votes, p.id@),
                proposals_len,
                99,
            ) {
                assert(spec_is_banned(ps2[i])) by {
                    assert(ps2[i] == (PlayerDb { score: ps2[i].score, ..ps[i] }));
                }
                lemma_update_score_banned(
                    ps2,
                    p.id@,
                    c99,
                    TaskOrTxKind::Task(crate::orm::TaskTypeDb::Keep99PerCentGovParticipationRate),
                    i,
                );
            }
        }
    }
}

proof fn lemma_score_uptime_banned(
    prefix: Seq<PlayerDb>,
    tm_addresses: Seq<crate::orm::TmAddressDb>,
    commits: Seq<crate::orm::CommitDb>,
    source: Seq<PlayerDb>,
    c95: int,
    c99: int,
    players: Seq<PlayerDb>,
    i: int,
)
    requires
        0 <= i < players.len(),
        spec_is_banned(players[i]),
    ensures
        spec_score_uptime(prefix, tm_addresses, commits, source, c95, c99, players)[i]
            == players[i],
    decreases prefix.len(),
{
    if prefix.len() > 0 {
        lemma_score_uptime_banned(
            prefix.drop_last(),
            tm_addresses,
            commits,
            source,
            c95,
            c99,
            players,
            i,
        );
        let ps = spec_score_uptime(
            prefix.drop_last(),
            tm_addresses,
            commits,
            source,
            c95,
            c99,
            players,
        );
        lemma_score_uptime_stable(
            prefix.drop_last(),
            tm_addresses,
            commits,
            source,
            c95,
            c99,
            players,
        );
        let p = prefix.last();
        if spec_uptime_qualifies(p, tm_addresses, commits, source, 95) {
            assert(spec_is_banned(ps[i])) by {
                assert(ps[i] == (PlayerDb { score: ps[i].score, ..players[i] }));
            }
            let ps2 = spec_update_score(
                ps,
                p.id@,
                c95,
                TaskOrTxKind::Task(crate::orm::TaskTypeDb::Keep95PerCentUptime),
            );
            lemma_update_score_banned(
                ps,
                p.id@,
                c95,
                TaskOrTxKind::Task(crate::orm::TaskTypeDb::Keep95PerCentUptime),
                i,
            );
            crate::scores::lemma_update_score_stable(
                ps,
                p.id@,
                c95,
                TaskOrTxKind::Task(crate::orm::TaskTypeDb::Keep95PerCentUptime),
            );
            if spec_uptime_qualifies(p, tm_addresses, commits, source, 99) {
                assert(spec_is_banned(ps2[i])) by {
                    assert(ps2[i] == (PlayerDb { score: ps2[i].score, ..ps[i] }));
                }
                lemma_update_score_banned(
                    ps2,
                    p.id@,
                    c99,
                    TaskOrTxKind::Task(crate::orm::TaskTypeDb::Keep99PerCentUptime),
                    i,
                );
            }
        }
    }
}

/// A banned player's score is zero after every scoring pass: the reset zeroes
/// it and no award ever lands on a banned row.
pub proof fn lemma_banned_score_zero(db: Db, i: int)
    requires
        0 <= i < db.players@.len(),
        spec_is_banned(db.players@[i]),
    ensures
        spec_scoring(db)[i].score == 0,
        spec_is_banned(spec_scoring(db)[i]),
{
    let p0 = spec_reset(db.players@);
    lemma_reset_pointwise(db.players@);
    assert(p0[i].score == 0 && spec_is_banned(p0[i]));
    let p1 = spec_score_identified(db.tasks@, db.tasks@, p0);
    lemma_score_identified_stable(db.tasks@, db.tasks@, p0);
    lemma_score_identified_banned(db.tasks@, db.tasks@, p0, i);
    let p2 = spec_score_unidentified(db.unidentified_tasks@, db.unidentified_tasks@, p1);
    lemma_score_unidentified_stable(db.unidentified_tasks@, db.unidentified_tasks@, p1);
    lemma_score_unidentified_banned(db.unidentified_tasks@, db.unidentified_tasks@, p1, i);
    let nprop = db.governance_proposals@.len() as int;
    let c90 = spec_count_gov_qualifiers(p2, db.governance_votes@, nprop, 90);
    let c99 = spec_count_gov_qualifiers(p2, db.governance_votes@, nprop, 99);
    let p3 = spec_score_gov(p2, db.governance_votes@, nprop, c90, c99, p2);
    lemma_score_gov_stable(p2, db.governance_votes@, nprop, c90, c99, p2);
    lemma_score_gov_banned(p2, db.governance_votes@, nprop, c90, c99, p2, i);
    let c95 = spec_count_uptime_qualifiers(p3, db.tm_addresses@, db.commits@, db.players@, 95);
    let c99u = spec_count_uptime_qualifiers(p3, db.tm_addresses@, db.commits@, db.players@, 99);
    lemma_score_uptime_banned(p3, db.tm_addresses@, db.commits@, db.players@, c95, c99u, p3, i);
}

/// A banned player never holds a row in a well-formed ranking block.
pub proof fn lemma_banned_not_ranked(
    players: Seq<PlayerDb>,
    kind: PlayerKindDb,
    block: Seq<PlayerRankDb>,
    i: int,
)
    requires
        unique_ids(players),
        spec_ranks_block_ok(players, kind, block),
        0 <= i < players.len(),
        spec_is_banned(players[i]),
    ensures
        forall|k: int| 0 <= k < block.len() ==> (#[trigger] block[k]).player_id@ != players[i].id@,
{
    assert forall|k: int|
        0 <= k < block.len() implies (#[trigger] block[k]).player_id@ != players[i].id@ by {
        if block[k].player_id@ == players[i].id@ {
            let j = choose|j: int|
                0 <= j < players.len() && players[j].id@ == block[k].player_id@
                    && spec_rank_qualifies(players[j], kind);
            if j != i {
                assert(players[j].id@ == players[i].id@);
                assert(false);
            }
        }
    }
}

/// Classification reads the snapshot tables and the pass configuration, and
/// nothing else: two stores that agree on players, transactions, blocks and
/// proposals, under configurations that agree on addresses and epochs,
/// classify every transaction identically, whatever their caches hold.
pub proof fn lemma_classifier_deterministic(
    db1: Db,
    db2: Db,
    cx1: Context,
    cx2: Context,
    tx: Transaction<PlayerId>,
    payloads: TxPayloads,
)
    requires
        db1.players@ == db2.players@,
        db1.transactions@ == db2.transactions@,
        db1.blocks@ == db2.blocks@,
        db1.governance_proposals@ == db2.governance_proposals@,
        cx1.config_eq(&cx2),
    ensures
        spec_classify(db1, cx1, tx, payloads) == spec_classify(db2, cx2, tx, payloads),
{
    assert(cx1.address_book.inner.masp@ == cx2.address_book.inner.masp@);
    assert(cx1.address_book.inner.naan@ == cx2.address_book.inner.naan@);
    assert(cx1.address_book.inner.upgrade_proposer@ == cx2.address_book.inner.upgrade_proposer@);
    assert(spec_classify_kind(db1, cx1, tx, payloads) == spec_classify_kind(
        db2,
        cx2,
        tx,
        payloads,
    ));
}


/// Resetting scores forgets exactly the scores: two tables that differ only
/// in scores reset to the same table.
proof fn lemma_reset_of_diff(a: Seq<PlayerDb>, b: Seq<PlayerDb>)
    requires
        players_score_only_diff(a, b),
    ensures
        spec_reset(a) == spec_reset(b),
{
    lemma_reset_pointwise(a);
    lemma_reset_pointwise(b);
    assert forall|j: int| 0 <= j < a.len() implies spec_reset(a)[j] == spec_reset(b)[j] by {
        assert(b[j] == (PlayerDb { score: b[j].score, ..a[j] }));
    }
    assert(spec_reset(a) =~= spec_reset(b));
}

/// The uptime sweep reads its snapshot only through score membership.
proof fn lemma_count_uptime_src_cong(
    players: Seq<PlayerDb>,
    tm_addresses: Seq<crate::orm::TmAddressDb>,
    commits: Seq<crate::orm::CommitDb>,
    s1: Seq<PlayerDb>,
    s2: Seq<PlayerDb>,
    pct: int,
)
    requires
        forall|pid: Seq<char>|
            #[trigger] spec_nonzero_score(s1, pid) == spec_nonzero_score(s2, pid),
    ensures
        spec_count_uptime_qualifiers(players, tm_addresses, commits, s1, pct)
            == spec_count_uptime_qualifiers(players, tm_addresses, commits, s2, pct),
    decreases players.len(),
{
    if players.len() > 0 {
        lemma_count_uptime_src_cong(players.drop_last(), tm_addresses, commits, s1, s2, pct);
        assert(spec_nonzero_score(s1, players.last().id@) == spec_nonzero_score(
            s2,
            players.last().id@,
        ));
    }
}

proof fn lemma_score_uptime_src_cong(
    prefix: Seq<PlayerDb>,
    tm_addresses: Seq<crate::orm::TmAddressDb>,
    commits: Seq<crate::orm::CommitDb>,
    s1: Seq<PlayerDb>,
    s2: Seq<PlayerDb>,
    c95: int,
    c99: int,
    players: Seq<PlayerDb>,
)
    requires
        forall|pid: Seq<char>|
            #[trigger] spec_nonzero_score(s1, pid) == spec_nonzero_score(s2, pid),
    ensures
        spec_score_uptime(prefix, tm_addresses, commits, s1, c95, c99, players)
            == spec_score_uptime(prefix, tm_addresses, commits, s2, c95, c99, players),
    decreases prefix.len(),
{
    if prefix.len() > 0 {
        lemma_score_uptime_src_cong(
            prefix.drop_last(),
            tm_addresses,
            commits,
            s1,
            s2,
            c95,
            c99,
            players,
        );
        assert(spec_nonzero_score(s1, prefix.last().id@) == spec_nonzero_score(
            s2,
            prefix.last().id@,
        ));
    }
}

/// Running the scoring phase again on the state it produced, without any
/// task ingest in between, yields the same scores, provided the pass left
/// the set of players holding a positive score unchanged: the uptime
/// snapshot then sees the same membership both times.  Without that proviso
/// the law fails: a pilot that enters the pass with a zero score, holds a
/// task and clears the uptime threshold earns the task share on the first
/// run and the task and uptime shares on the second.
pub proof fn lemma_scoring_idempotent(db: Db, db2: Db)
    requires
        db2.players@ == spec_scoring(db),
        db2.tasks@ == db.tasks@,
        db2.unidentified_tasks@ == db.unidentified_tasks@,
        db2.governance_votes@ == db.governance_votes@,
        db2.governance_proposals@ == db.governance_proposals@,
        db2.tm_addresses@ == db.tm_addresses@,
        db2.commits@ == db.commits@,
        forall|pid: Seq<char>|
            #[trigger] spec_nonzero_score(db2.players@, pid) == spec_nonzero_score(
                db.players@,
                pid,
            ),
    ensures
        spec_scoring(db2) == spec_scoring(db),
{
    lemma_scoring_stable(db);
    lemma_reset_of_diff(db.players@, db2.players@);
    let p0 = spec_reset(db.players@);
    let p1 = spec_score_identified(db.tasks@, db.tasks@, p0);
    let p2 = spec_score_unidentified(db.unidentified_tasks@, db.unidentified_tasks@, p1);
    let nprop = db.governance_proposals@.len() as int;
    let c90 = spec_count_gov_qualifiers(p2, db.governance_votes@, nprop, 90);
    let c99 = spec_count_gov_qualifiers(p2, db.governance_votes@, nprop, 99);
    let p3 = spec_score_gov(p2, db.governance_votes@, nprop, c90, c99, p2);
    lemma_count_uptime_src_cong(p3, db.tm_addresses@, db.commits@, db2.players@, db.players@, 95);
    lemma_count_uptime_src_cong(p3, db.tm_addresses@, db.commits@, db2.players@, db.players@, 99);
    let c95 = spec_count_uptime_qualifiers(p3, db.tm_addresses@, db.commits@, db.players@, 95);
    let c99u = spec_count_uptime_qualifiers(p3, db.tm_addresses@, db.commits@, db.players@, 99);
    lemma_score_uptime_src_cong(
        p3,
        db.tm_addresses@,
        db.commits@,
        db2.players@,
        db.players@,
        c95,
        c99u,
        p3,
    );
}


/// The total score held by a players table.
pub open spec fn spec_total_score(players: Seq<PlayerDb>) -> int
    decreases players.len(),
{
    if players.len() == 0 {
        0
    } else {
        spec_total_score(players.drop_last()) + players.last().score
    }
}

/// One award moves the total score by exactly the share that landed: on a
/// missing or banned player nothing moves, and a score pinned at the
/// representable maximum absorbs only the remainder.
pub proof fn lemma_apply_share_sum(players: Seq<PlayerDb>, pid: Seq<char>, share: int)
    requires
        unique_ids(players),
        share >= 0,
    ensures
        spec_total_score(spec_apply_share(players, pid, share)) == spec_total_score(players)
            + match crate::db::spec_find_player(players, pid) {
            None => 0int,
            Some(i) => if spec_is_banned(players[i]) || share == 0 {
                0int
            } else if players[i].score + share <= i64::MAX {
                share
            } else {
                i64::MAX - players[i].score
            },
        },
{
    lemma_apply_share_pointwise(players, pid, share);
    crate::db::lemma_find_player_props(players, pid);
    let r = spec_apply_share(players, pid, share);
    match crate::db::spec_find_player(players, pid) {
        None => {
            lemma_total_score_pointwise_eq(players, r);
        },
        Some(i) => {
            if spec_is_banned(players[i]) || share == 0 {
                assert forall|j: int| 0 <= j < players.len() implies r[j] == players[j] by {
                    if players[j].id@ == pid {
                        crate::db::lemma_player_witness(players, pid, j);
                    }
                }
                lemma_total_score_pointwise_eq(players, r);
            } else {
                assert forall|j: int| 0 <= j < players.len() && j != i implies r[j]
                    == players[j] by {
                    if players[j].id@ == pid {
                        crate::db::lemma_player_witness(players, pid, j);
                    }
                }
                lemma_total_score_single_change(players, r, i);
            }
        },
    }
}

proof fn lemma_total_score_pointwise_eq(a: Seq<PlayerDb>, b: Seq<PlayerDb>)
    requires
        a.len() == b.len(),
        forall|j: int| 0 <= j < a.len() ==> a[j] == b[j],
    ensures
        spec_total_score(a) == spec_total_score(b),
    decreases a.len(),
{
    if a.len() > 0 {
        let ta = a.drop_last();
        let tb = b.drop_last();
        assert forall|j: int| 0 <= j < ta.len() implies ta[j] == tb[j] by {
            assert(ta[j] == a[j]);
            assert(tb[j] == b[j]);
        }
        lemma_total_score_pointwise_eq(ta, tb);
    }
}

proof fn lemma_total_score_single_change(a: Seq<PlayerDb>, b: Seq<PlayerDb>, i: int)
    requires
        a.len() == b.len(),
        0 <= i < a.len(),
        forall|j: int| 0 <= j < a.len() && j != i ==> a[j] == b[j],
    ensures
        spec_total_score(b) == spec_total_score(a) + b[i].score - a[i].score,
    decreases a.len(),
{
    let ta = a.drop_last();
    let tb = b.drop_last();
    if i == a.len() - 1 {
        assert forall|j: int| 0 <= j < ta.len() implies ta[j] == tb[j] by {
            assert(ta[j] == a[j]);
            assert(tb[j] == b[j]);
        }
        lemma_total_score_pointwise_eq(ta, tb);
    } else {
        assert forall|j: int| 0 <= j < ta.len() && j != i implies ta[j] == tb[j] by {
            assert(ta[j] == a[j]);
            assert(tb[j] == b[j]);
        }
        lemma_total_score_single_change(ta, tb, i);
        assert(a.last() == b.last());
    }
}

} // verus!
