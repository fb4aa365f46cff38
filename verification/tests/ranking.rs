//! The ranking pass against concrete player tables.

use score_extractor::db::Db;
use score_extractor::orm::PlayerDb;
use score_extractor::orm::PlayerKindDb;
use score_extractor::players::update_rankings;

fn empty_db() -> Db {
    Db {
        players: vec![],
        blocks: vec![],
        commits: vec![],
        tm_addresses: vec![],
        transactions: vec![],
        governance_proposals: vec![],
        governance_votes: vec![],
        manual_tasks: vec![],
        tasks: vec![],
        unidentified_tasks: vec![],
        player_ranks: vec![],
        task_completion_state: None,
        crawler_state: vec![],
    }
}

fn player(id: &str, kind: PlayerKindDb, score: i64, internal_id: i32) -> PlayerDb {
    PlayerDb {
        id: id.to_owned(),
        moniker: format!("{id}-moniker"),
        namada_player_address: format!("addr-{id}"),
        namada_validator_address: None,
        email: format!("{id}@example.net"),
        kind,
        score,
        block_height: None,
        avatar_url: None,
        is_banned: None,
        internal_id,
    }
}

fn ranking_of(db: &Db, id: &str) -> i32 {
    db.player_ranks
        .iter()
        .find(|r| r.player_id == id)
        .expect("player must be ranked")
        .ranking
}

#[test]
fn equal_scores_rank_by_internal_id() {
    let mut db = empty_db();
    db.players.push(player("P1", PlayerKindDb::Pilot, 500, 9));
    db.players.push(player("P2", PlayerKindDb::Pilot, 500, 3));
    update_rankings(&mut db);
    // the smaller internal id takes the lower ranking value
    assert_eq!(ranking_of(&db, "P2"), 1);
    assert_eq!(ranking_of(&db, "P1"), 2);
}

#[test]
fn rankings_are_dense_per_class() {
    let mut db = empty_db();
    db.players.push(player("P1", PlayerKindDb::Pilot, 10, 1));
    db.players.push(player("C1", PlayerKindDb::Crew, 90, 2));
    db.players.push(player("P2", PlayerKindDb::Pilot, 70, 3));
    db.players.push(player("C2", PlayerKindDb::Crew, 20, 4));
    db.players.push(player("P3", PlayerKindDb::Pilot, 40, 5));
    update_rankings(&mut db);

    assert_eq!(db.player_ranks.len(), 5);
    // pilots first, ranked one to three by score descending
    assert_eq!(ranking_of(&db, "P2"), 1);
    assert_eq!(ranking_of(&db, "P3"), 2);
    assert_eq!(ranking_of(&db, "P1"), 3);
    // crew ranked one and two again, in their own block
    assert_eq!(ranking_of(&db, "C1"), 1);
    assert_eq!(ranking_of(&db, "C2"), 2);
    let pilot_block: Vec<i32> = db.player_ranks[0..3].iter().map(|r| r.ranking).collect();
    assert_eq!(pilot_block, vec![1, 2, 3]);
    let crew_block: Vec<i32> = db.player_ranks[3..5].iter().map(|r| r.ranking).collect();
    assert_eq!(crew_block, vec![1, 2]);
}

#[test]
fn banned_players_are_not_ranked() {
    let mut db = empty_db();
    db.players.push(player("P1", PlayerKindDb::Pilot, 10, 1));
    let mut banned = player("P2", PlayerKindDb::Pilot, 99, 2);
    banned.is_banned = Some(true);
    db.players.push(banned);
    update_rankings(&mut db);
    assert_eq!(db.player_ranks.len(), 1);
    assert_eq!(db.player_ranks[0].player_id, "P1");
    assert_eq!(db.player_ranks[0].ranking, 1);
}

#[test]
fn ranking_pass_rebuilds_the_table() {
    let mut db = empty_db();
    db.players.push(player("P1", PlayerKindDb::Pilot, 10, 1));
    update_rankings(&mut db);
    update_rankings(&mut db);
    // a second pass does not stack a second copy
    assert_eq!(db.player_ranks.len(), 1);
}
