//! Players and the memo-borne player identifier.

use vstd::prelude::*;

use crate::codec::utf8_decode;
use crate::codec::string_from_utf8;
use crate::id::Id;
use crate::orm::PlayerKindDb;
use crate::transaction::RawMemo;

verus! {

#[derive(Clone, Copy, Debug, PartialEq, Eq, Structural)]
pub enum PlayerKind {
    Pilot,
    Crew,
}

impl PlayerKind {
    pub fn to_db(&self) -> (r: PlayerKindDb)
        ensures
            r == match self {
                PlayerKind::Pilot => PlayerKindDb::Pilot,
                PlayerKind::Crew => PlayerKindDb::Crew,
            },
    {
        match self {
            PlayerKind::Pilot => PlayerKindDb::Pilot,
            PlayerKind::Crew => PlayerKindDb::Crew,
        }
    }
}

#[derive(Clone, Debug)]
pub struct Player {
    pub id: u32,
    pub moniker: String,
    pub namada_public_key: Id,
    pub email: String,
    pub kind: PlayerKind,
}

/// A player identifier: the textual public key a transaction memo names.
#[derive(Clone, Debug)]
pub struct PlayerId(pub String);

#[derive(Clone, Copy, Debug, PartialEq, Eq, Structural)]
pub enum MemoError {
    NotUtf8,
}

impl PlayerId {
    /// Reads a player identifier out of a raw transaction memo.  A memo is
    /// accepted when it is UTF-8 text; whether it names a known player is
    /// checked at classification time against the players table.
    pub fn try_from(raw_memo: RawMemo) -> (r: Result<PlayerId, MemoError>)
        ensures
            match r {
                Ok(p) => p == PlayerId(crate::codec::utf8_string_of(raw_memo.0@)) && utf8_decode(
                    raw_memo.0@,
                ) == Some(p.0@),
                Err(e) => utf8_decode(raw_memo.0@) is None && e == MemoError::NotUtf8,
            },
    {
        let RawMemo(raw) = raw_memo;
        match string_from_utf8(raw) {
            Some(text) => Ok(PlayerId(text)),
            None => Err(MemoError::NotUtf8),
        }
    }
}

} // verus!
