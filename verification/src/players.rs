//! Player-level constants, lookups and the per-class ranking pass.

use vstd::prelude::*;

use crate::db::Db;
use crate::db::has_player;
use crate::db::spec_find_player;
use crate::db::spec_is_banned;
use crate::orm::PlayerDb;
use crate::orm::PlayerKindDb;
use crate::orm::PlayerRankDb;

verus! {

/// Number of enrolled pilots, from the enrollment records.
pub const NUMBER_PILOTS: usize = 10470;

/// Number of enrolled crew members, from the enrollment records.
pub const NUMBER_CREW_MEMBERS: usize = 129238;

/// The validator address of a pilot, as stored in the players table.
pub struct PilotValidatorAddress(pub String);

/// Whether a player with the given id is enrolled.
pub fn player_exists(db: &Db, player_id: &str) -> (r: bool)
    ensures
        r == has_player(db.players@, player_id@),
{
    db.find_player(player_id).is_some()
}


/// Players that take part in the ranking of a class: enrolled under that
/// class and not banned.
pub open spec fn spec_rank_qualifies(p: PlayerDb, kind: PlayerKindDb) -> bool {
    p.kind == kind && !spec_is_banned(p)
}

/// The ranking order: higher score first, ties broken by the smaller
/// internal id.
pub open spec fn spec_rank_before(a: PlayerDb, b: PlayerDb) -> bool {
    a.score > b.score || (a.score == b.score && a.internal_id < b.internal_id)
}

pub open spec fn spec_rank_le(a: PlayerDb, b: PlayerDb) -> bool {
    spec_rank_before(a, b) || (a.score == b.score && a.internal_id == b.internal_id)
}

/// How many players of the class take part in its ranking.
pub open spec fn spec_count_rank_qualifiers(players: Seq<PlayerDb>, kind: PlayerKindDb) -> int
    decreases players.len(),
{
    if players.len() == 0 {
        0
    } else {
        spec_count_rank_qualifiers(players.drop_last(), kind) + if spec_rank_qualifies(
            players.last(),
            kind,
        ) {
            1int
        } else {
            0int
        }
    }
}

pub proof fn lemma_count_rank_qualifiers_bounds(players: Seq<PlayerDb>, kind: PlayerKindDb)
    ensures
        0 <= spec_count_rank_qualifiers(players, kind) <= players.len(),
    decreases players.len(),
{
    if players.len() > 0 {
        lemma_count_rank_qualifiers_bounds(players.drop_last(), kind);
    }
}

proof fn lemma_count_rank_qualifiers_step(players: Seq<PlayerDb>, kind: PlayerKindDb, i: int)
    requires
        0 <= i < players.len(),
    ensures
        spec_count_rank_qualifiers(players.take(i + 1), kind) == spec_count_rank_qualifiers(
            players.take(i),
            kind,
        ) + if spec_rank_qualifies(players[i], kind) {
            1int
        } else {
            0int
        },
{
    assert(players.take(i + 1).drop_last() =~= players.take(i));
    assert(players.take(i + 1).last() == players[i]);
}

/// The ranking order between the players two rank rows name.
pub open spec fn rank_pair_ordered(players: Seq<PlayerDb>, id1: Seq<char>, id2: Seq<char>) -> bool {
    match (spec_find_player(players, id1), spec_find_player(players, id2)) {
        (Some(a), Some(b)) => spec_rank_le(players[a], players[b]),
        _ => false,
    }
}

/// A well-formed ranking block for one player class: dense rankings from
/// one, exactly one row per qualifying player, ordered by score descending
/// with ties broken by internal id.
pub open spec fn spec_ranks_block_ok(
    players: Seq<PlayerDb>,
    kind: PlayerKindDb,
    block: Seq<PlayerRankDb>,
) -> bool {
    &&& block.len() == spec_count_rank_qualifiers(players, kind)
    &&& forall|k: int| 0 <= k < block.len() ==> #[trigger] block[k].ranking == k + 1
    &&& forall|k: int|
        0 <= k < block.len() ==> exists|j: int|
            0 <= j < players.len() && players[j].id@ == (#[trigger] block[k]).player_id@
                && spec_rank_qualifies(players[j], kind)
    &&& forall|k: int, l: int|
        0 <= k < l < block.len() ==> block[k].player_id@ != block[l].player_id@
    &&& forall|j: int|
        0 <= j < players.len() && spec_rank_qualifies(#[trigger] players[j], kind)
            ==> exists|k: int| 0 <= k < block.len() && block[k].player_id@ == players[j].id@
    &&& forall|k: int, l: int|
        0 <= k < l < block.len() ==> rank_pair_ordered(
            players,
            block[k].player_id@,
            block[l].player_id@,
        )
}

/// Whether the player at `a` ranks strictly before the player at `b`.
fn rank_before(db: &Db, a: usize, b: usize) -> (r: bool)
    requires
        a < db.players@.len(),
        b < db.players@.len(),
    ensures
        r == spec_rank_before(db.players@[a as int], db.players@[b as int]),
{
    db.players[a].score > db.players[b].score || (db.players[a].score == db.players[b].score
        && db.players[a].internal_id < db.players[b].internal_id)
}

/// The qualifying players of a class, as positions into the players table,
/// in ranking order.
fn sorted_qualifier_indices(db: &Db, kind: PlayerKindDb) -> (r: Vec<usize>)
    requires
        db.players_unique(),
        db.internal_ids_unique(),
    ensures
        r@.len() == spec_count_rank_qualifiers(db.players@, kind),
        forall|k: int| 0 <= k < r@.len() ==> (#[trigger] r@[k]) < db.players@.len(),
        forall|k: int|
            0 <= k < r@.len() ==> spec_rank_qualifies(db.players@[#[trigger] r@[k] as int], kind),
        forall|k: int, l: int| 0 <= k < l < r@.len() ==> r@[k] != r@[l],
        forall|j: int|
            0 <= j < db.players@.len() && spec_rank_qualifies(#[trigger] db.players@[j], kind)
                ==> exists|k: int| 0 <= k < r@.len() && r@[k] == j,
        forall|k: int, l: int|
            0 <= k < l < r@.len() ==> spec_rank_le(
                db.players@[r@[k] as int],
                db.players@[r@[l] as int],
            ),
{
    let n = db.players.len();
    let mut out: Vec<usize> = Vec::new();
    let mut i: usize = 0;
    while i < n
        invariant
            n == db.players@.len(),
            0 <= i <= n,
            db.players_unique(),
            db.internal_ids_unique(),
            out@.len() == spec_count_rank_qualifiers(db.players@.take(i as int), kind),
            forall|k: int| 0 <= k < out@.len() ==> (#[trigger] out@[k]) < i,
            forall|k: int|
                0 <= k < out@.len() ==> spec_rank_qualifies(
                    db.players@[#[trigger] out@[k] as int],
                    kind,
                ),
            forall|k: int, l: int| 0 <= k < l < out@.len() ==> out@[k] != out@[l],
            forall|j: int|
                0 <= j < i && spec_rank_qualifies(#[trigger] db.players@[j], kind)
                    ==> exists|k: int| 0 <= k < out@.len() && out@[k] == j,
            forall|k: int, l: int|
                0 <= k < l < out@.len() ==> spec_rank_le(
                    db.players@[out@[k] as int],
                    db.players@[out@[l] as int],
                ),
        decreases n - i,
    {
        proof {
            lemma_count_rank_qualifiers_step(db.players@, kind, i as int);
        }
        let qualifies = db.players[i].kind == kind && (match db.players[i].is_banned {
            Some(true) => false,
            _ => true,
        });
        if qualifies {
            let ghost out0 = out@;
            // find the insertion position: after everything ranked before i
            let mut pos: usize = 0;
            while pos < out.len() && (db.players[out[pos]].score > db.players[i].score || (
            db.players[out[pos]].score == db.players[i].score && db.players[out[pos]].internal_id
                < db.players[i].internal_id))
                invariant
                    out@ == out0,
                    0 <= pos <= out@.len(),
                    i < db.players@.len(),
                    forall|k: int| 0 <= k < out@.len() ==> (#[trigger] out@[k]) < i,
                    forall|k: int|
                        0 <= k < pos ==> spec_rank_before(
                            db.players@[(#[trigger] out@[k]) as int],
                            db.players@[i as int],
                        ),
                decreases out@.len() - pos,
            {
                pos += 1;
            }
            out.insert(pos, i);
            proof {
                let new = out@;
                assert(new.len() == out0.len() + 1);
                assert forall|k: int| 0 <= k < new.len() implies (#[trigger] new[k]) < i + 1 by {
                    if k < pos {
                        assert(new[k] == out0[k]);
                    } else if k > pos {
                        assert(new[k] == out0[k - 1]);
                    }
                }
                // the two totality facts below rest on distinct internal ids
                assert forall|k: int, l: int|
                    0 <= k < l < new.len() implies spec_rank_le(
                    db.players@[new[k] as int],
                    db.players@[new[l] as int],
                ) by {
                    if l < pos {
                        assert(new[k] == out0[k] && new[l] == out0[l]);
                    } else if k > pos {
                        assert(new[k] == out0[k - 1] && new[l] == out0[l - 1]);
                    } else if k < pos && l == pos {
                        assert(new[k] == out0[k]);
                        assert(spec_rank_before(db.players@[out0[k] as int], db.players@[i as int]));
                    } else if k < pos && l > pos {
                        assert(new[k] == out0[k] && new[l] == out0[l - 1]);
                    } else if k == pos && l > pos {
                        assert(new[l] == out0[l - 1]);
                        let a = db.players@[i as int];
                        let b = db.players@[out0[l - 1] as int];
                        if pos < out0.len() {
                            let c = db.players@[out0[pos as int] as int];
                            assert(!spec_rank_before(c, a));
                            assert(out0[pos as int] != i);
                            assert(c.internal_id != a.internal_id);
                            assert(spec_rank_le(a, c));
                            if l - 1 > pos {
                                assert(spec_rank_le(c, b));
                            }
                        }
                    }
                }
                assert forall|k: int, l: int| 0 <= k < l < new.len() implies new[k] != new[l] by {
                    if k < pos {
                        assert(new[k] == out0[k]);
                    } else if k > pos {
                        assert(new[k] == out0[k - 1]);
                    }
                    if l < pos {
                        assert(new[l] == out0[l]);
                    } else if l > pos {
                        assert(new[l] == out0[l - 1]);
                    }
                }
                assert forall|j: int|
                    0 <= j < i + 1 && spec_rank_qualifies(#[trigger] db.players@[j], kind)
                        implies exists|k: int| 0 <= k < new.len() && new[k] == j by {
                    if j == i {
                        assert(new[pos as int] == i);
                    } else {
                        let k0 = choose|k: int| 0 <= k < out0.len() && out0[k] == j;
                        if k0 < pos {
                            assert(new[k0] == j);
                        } else {
                            assert(new[k0 + 1] == j);
                        }
                    }
                }
                assert forall|k: int|
                    0 <= k < new.len() implies spec_rank_qualifies(
                    db.players@[#[trigger] new[k] as int],
                    kind,
                ) by {
                    if k < pos {
                        assert(new[k] == out0[k]);
                    } else if k > pos {
                        assert(new[k] == out0[k - 1]);
                    }
                }
            }
        }
        i += 1;
    }
    proof {
        assert(db.players@.take(n as int) =~= db.players@);
    }
    out
}

/// Clears the rank table; the freshly rebuilt rows number from one again.
fn reset_rankings(db: &mut Db)
    ensures
        crate::db::ranking_writes_only(*old(db), *final(db)),
        final(db).player_ranks@.len() == 0,
{
    db.player_ranks = Vec::new();
}

/// Appends the dense ranking block for one player class.
#[verifier::loop_isolation(false)]
#[verifier::rlimit(60)]
fn set_rankings_for_player_kind(db: &mut Db, player_kind: PlayerKindDb)
    requires
        old(db).players_unique(),
        old(db).internal_ids_unique(),
        old(db).players@.len() <= i32::MAX,
    ensures
        crate::db::ranking_writes_only(*old(db), *final(db)),
        final(db).player_ranks@.len() == old(db).player_ranks@.len()
            + spec_count_rank_qualifiers(old(db).players@, player_kind),
        final(db).player_ranks@.subrange(0, old(db).player_ranks@.len() as int) == old(
            db,
        ).player_ranks@,
        spec_ranks_block_ok(
            old(db).players@,
            player_kind,
            final(db).player_ranks@.subrange(
                old(db).player_ranks@.len() as int,
                final(db).player_ranks@.len() as int,
            ),
        ),
{
    let idxs = sorted_qualifier_indices(&*db, player_kind);
    let base = db.player_ranks.len();
    let total = idxs.len();
    proof {
        lemma_count_rank_qualifiers_bounds(db.players@, player_kind);
    }
    let mut k: usize = 0;
    while k < total
        invariant
            total == idxs@.len(),
            0 <= k <= total,
            base == old(db).player_ranks@.len(),
            db.player_ranks@.len() == base + k,
            crate::db::ranking_writes_only(*old(db), *db),
            db.player_ranks@.subrange(0, base as int) == old(db).player_ranks@,
            forall|m: int|
                0 <= m < k ==> (#[trigger] db.player_ranks@[base + m]).ranking == m + 1,
            forall|m: int|
                0 <= m < k ==> (#[trigger] db.player_ranks@[base + m]).player_id@
                    == db.players@[idxs@[m] as int].id@,
        decreases total - k,
    {
        let ghost ranks0 = db.player_ranks@;
        let idx = idxs[k];
        let row = crate::orm::PlayerRankDb {
            id: rank_row_id(db.player_ranks.len()),
            ranking: (k + 1) as i32,
            player_id: db.players[idx].id.clone(),
        };
        db.player_ranks.push(row);
        proof {
            assert(db.player_ranks@.subrange(0, base as int) =~= ranks0.subrange(0, base as int));
        }
        k += 1;
    }
    proof {
        let players = old(db).players@;
        let block = db.player_ranks@.subrange(base as int, db.player_ranks@.len() as int);
        assert(block.len() == spec_count_rank_qualifiers(players, player_kind));
        assert forall|m: int| 0 <= m < block.len() implies #[trigger] block[m].ranking == m + 1 by {
            assert(block[m] == db.player_ranks@[base + m]);
        }
        assert forall|m: int|
            0 <= m < block.len() implies (#[trigger] block[m]).player_id@
            == players[idxs@[m] as int].id@ by {
            assert(block[m] == db.player_ranks@[base + m]);
        }
        assert forall|m: int|
            0 <= m < block.len() implies exists|j: int|
            0 <= j < players.len() && players[j].id@ == (#[trigger] block[m]).player_id@
                && spec_rank_qualifies(players[j], player_kind) by {
            assert(players[idxs@[m] as int].id@ == block[m].player_id@);
        }
        assert forall|m: int, l: int|
            0 <= m < l < block.len() implies block[m].player_id@ != block[l].player_id@ by {
            assert(idxs@[m] != idxs@[l]);
            assert(players[idxs@[m] as int].id@ != players[idxs@[l] as int].id@);
        }
        assert forall|j: int|
            0 <= j < players.len() && spec_rank_qualifies(#[trigger] players[j], player_kind)
                implies exists|m: int|
            0 <= m < block.len() && block[m].player_id@ == players[j].id@ by {
            let m = choose|m: int| 0 <= m < idxs@.len() && idxs@[m] == j;
            assert(block[m].player_id@ == players[j].id@);
        }
        assert forall|m: int, l: int|
            0 <= m < l < block.len() implies rank_pair_ordered(
            players,
            block[m].player_id@,
            block[l].player_id@,
        ) by {
            crate::db::lemma_player_witness(players, players[idxs@[m] as int].id@, idxs@[m] as int);
            crate::db::lemma_player_witness(players, players[idxs@[l] as int].id@, idxs@[l] as int);
        }
    }
}

/// The id a freshly inserted rank row gets.
fn rank_row_id(len: usize) -> (r: i32)
    ensures
        r == crate::db::spec_next_row_id(len as int),
{
    if len <= (i32::MAX as usize) - 1 {
        (len + 1) as i32
    } else {
        i32::MAX
    }
}

/// Rebuilds the whole rank table: pilots first, then crew, each class ranked
/// densely from one.
pub fn update_rankings(db: &mut Db)
    requires
        old(db).players_unique(),
        old(db).internal_ids_unique(),
        old(db).players@.len() <= i32::MAX,
    ensures
        crate::db::ranking_writes_only(*old(db), *final(db)),
        ({
            let players = old(db).players@;
            let ranks = final(db).player_ranks@;
            let np = spec_count_rank_qualifiers(players, PlayerKindDb::Pilot);
            let nc = spec_count_rank_qualifiers(players, PlayerKindDb::Crew);
            &&& ranks.len() == np + nc
            &&& spec_ranks_block_ok(players, PlayerKindDb::Pilot, ranks.subrange(0, np))
            &&& spec_ranks_block_ok(players, PlayerKindDb::Crew, ranks.subrange(np, np + nc))
        }),
{
    reset_rankings(db);
    set_rankings_for_player_kind(db, PlayerKindDb::Pilot);
    proof {
        lemma_count_rank_qualifiers_bounds(old(db).players@, PlayerKindDb::Pilot);
        assert(db.player_ranks@.subrange(
            0,
            spec_count_rank_qualifiers(old(db).players@, PlayerKindDb::Pilot),
        ) =~= db.player_ranks@);
    }
    let ghost after_pilots = db.player_ranks@;
    set_rankings_for_player_kind(db, PlayerKindDb::Crew);
    proof {
        let players = old(db).players@;
        let np = spec_count_rank_qualifiers(players, PlayerKindDb::Pilot);
        let nc = spec_count_rank_qualifiers(players, PlayerKindDb::Crew);
        lemma_count_rank_qualifiers_bounds(players, PlayerKindDb::Crew);
        assert(db.player_ranks@.subrange(0, np) =~= after_pilots.subrange(0, np));
        assert(after_pilots.subrange(0, np) =~= after_pilots);
    }
}

} // verus!
