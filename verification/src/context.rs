//! Pass-wide configuration and the process-wide player-kind cache.

use vstd::prelude::*;

use crate::db::Db;
use crate::db::has_player;
use crate::db::player_kind_of;
use crate::db::lemma_find_player_congruent;
use crate::db::lemma_find_player_props;
use crate::db::spec_find_player;
use crate::db::str_eq_string;
use crate::orm::PlayerDb;
use crate::orm::PlayerKindDb;

verus! {

/// The chain addresses classification compares against.  `naan` is the native
/// token, `masp` the canonical shielded pool, and `upgrade_proposer` the
/// account whose proposals count as upgrade proposals.
#[derive(Clone, Debug)]
pub struct Addresses {
    pub naan: String,
    pub upgrade_proposer: String,
    pub masp: String,
}

#[derive(Debug)]
pub struct AddressBook {
    pub inner: Addresses,
}

/// The configured epoch boundaries of the two chain upgrades.
#[derive(Clone, Copy, Debug, PartialEq, Eq, Structural)]
pub struct Epochs {
    pub v0_to_v1: u32,
    pub v1_to_v2: u32,
}

pub struct GenesisTime(pub Option<i64>);

pub struct UpgradeProposer(pub String);

pub struct DatabaseUrl(pub String);

pub struct CometBftUrl(pub String);

/// Read-through cache of player kinds.  Player kind is immutable after
/// enrollment, so entries never need invalidation.
pub struct PlayerKinds {
    pub cache: Vec<(String, PlayerKindDb)>,
}

impl PlayerKinds {
    /// Every cached entry agrees with the players table.
    pub open spec fn coherent(&self, players: Seq<PlayerDb>) -> bool {
        forall|i: int|
            0 <= i < self.cache@.len() ==> player_kind_of(players, self.cache@[i].0@) == Some(
                self.cache@[i].1,
            )
    }

    pub fn new() -> (r: Self)
        ensures
            r.cache@.len() == 0,
    {
        PlayerKinds { cache: Vec::new() }
    }

    /// The kind of the player named `player_id`, read through the cache.
    pub fn get_or_update(&mut self, player_id: &str, db: &Db) -> (r: Result<
        PlayerKindDb,
        PlayerKindError,
    >)
        requires
            old(self).coherent(db.players@),
        ensures
            final(self).coherent(db.players@),
            match r {
                Ok(k) => player_kind_of(db.players@, player_id@) == Some(k),
                Err(_) => !has_player(db.players@, player_id@),
            },
    {
        let n = self.cache.len();
        let mut i: usize = 0;
        while i < n
            invariant
                n == self.cache@.len(),
                0 <= i <= n,
                self.coherent(db.players@),
            decreases n - i,
        {
            if str_eq_string(player_id, &self.cache[i].0) {
                return Ok(self.cache[i].1);
            }
            i += 1;
        }
        match db.find_player(player_id) {
            Some(idx) => {
                proof {
                    lemma_find_player_props(db.players@, player_id@);
                }
                let kind = db.players[idx].kind;
                let owned: String = player_id.to_owned();
                self.cache.push((owned, kind));
                assert forall|j: int|
                    0 <= j < self.cache@.len() implies player_kind_of(
                    db.players@,
                    self.cache@[j].0@,
                ) == Some(self.cache@[j].1) by {
                    if j == self.cache@.len() - 1 {
                        assert(spec_find_player(db.players@, player_id@) == Some(idx as int));
                    }
                }
                Ok(kind)
            },
            None => Err(PlayerKindError::PlayerNotFound),
        }
    }
}

#[derive(Clone, Copy, Debug, PartialEq, Eq, Structural)]
pub enum PlayerKindError {
    PlayerNotFound,
}

/// A coherent cache stays coherent when only player scores change.
pub proof fn lemma_coherent_stable(pk: &PlayerKinds, a: Seq<PlayerDb>, b: Seq<PlayerDb>)
    requires
        pk.coherent(a),
        a.len() == b.len(),
        forall|i: int| 0 <= i < a.len() ==> a[i].id@ == b[i].id@ && a[i].kind == b[i].kind,
    ensures
        pk.coherent(b),
{
    assert forall|j: int|
        0 <= j < pk.cache@.len() implies player_kind_of(b, pk.cache@[j].0@) == Some(
        pk.cache@[j].1,
    ) by {
        let id = pk.cache@[j].0@;
        lemma_find_player_congruent(a, b, id);
        lemma_find_player_props(a, id);
        assert(player_kind_of(a, id) == Some(pk.cache@[j].1));
        match spec_find_player(a, id) {
            Some(i) => {
                assert(a[i].kind == b[i].kind);
            },
            None => {},
        }
    }
}

/// Everything a pass needs besides the store itself.
pub struct Context {
    pub address_book: AddressBook,
    pub genesis_time: Option<i64>,
    pub epochs: Epochs,
    pub player_kinds: PlayerKinds,
}

impl Context {
    /// The fixed configuration of the pass: everything but the cache.
    pub open spec fn config_eq(&self, other: &Context) -> bool {
        &&& self.address_book.inner.naan == other.address_book.inner.naan
        &&& self.address_book.inner.upgrade_proposer == other.address_book.inner.upgrade_proposer
        &&& self.address_book.inner.masp == other.address_book.inner.masp
        &&& self.genesis_time == other.genesis_time
        &&& self.epochs == other.epochs
    }

    pub fn new(
        epochs: Epochs,
        upgrade_proposer: UpgradeProposer,
        genesis_time: GenesisTime,
        naan: String,
        masp: String,
    ) -> (r: Context)
        ensures
            r.address_book.inner.naan == naan,
            r.address_book.inner.masp == masp,
            r.address_book.inner.upgrade_proposer == upgrade_proposer.0,
            r.genesis_time == genesis_time.0,
            r.epochs == epochs,
            r.player_kinds.cache@.len() == 0,
    {
        let UpgradeProposer(proposer) = upgrade_proposer;
        let GenesisTime(genesis) = genesis_time;
        Context {
            address_book: AddressBook {
                inner: Addresses { naan, upgrade_proposer: proposer, masp },
            },
            genesis_time: genesis,
            epochs,
            player_kinds: PlayerKinds::new(),
        }
    }
}

/// Whether `id` is one of the identifiers in `set`.
pub open spec fn id_in_set(set: Seq<String>, id: Seq<char>) -> bool
    decreases set.len(),
{
    if set.len() == 0 {
        false
    } else {
        set.first()@ == id || id_in_set(set.drop_first(), id)
    }
}

/// Membership in the set is having some element with the same text.
pub proof fn lemma_id_in_set_exists(set: Seq<String>, id: Seq<char>)
    ensures
        id_in_set(set, id) == exists|i: int| 0 <= i < set.len() && set[i]@ == id,
    decreases set.len(),
{
    if set.len() > 0 {
        let t = set.drop_first();
        lemma_id_in_set_exists(t, id);
        if set.first()@ == id {
        } else if id_in_set(t, id) {
            let i = choose|i: int| 0 <= i < t.len() && t[i]@ == id;
            assert(set[i + 1] == t[i]);
        } else {
            assert forall|i: int| 0 <= i < set.len() implies set[i]@ != id by {
                if i > 0 {
                    assert(set[i] == t[i - 1]);
                }
            }
        }
    }
}

} // verus!
