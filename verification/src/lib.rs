//! Verified core of a periodic scoring extractor for a blockchain testnet
//! game.  Players — pilots (validator operators) and crew (end users) — earn
//! points by completing a fixed catalog of tasks.  Each pass of the extractor
//! ingests newly indexed transactions, classifies them into tasks, recomputes
//! every player's score from the task ledgers under the pool-prize rules, and
//! rebuilds the per-class rankings.
//!
//! The database is modeled as an in-memory snapshot of plain rows
//! ([`db::Db`]); every phase of a pass is a verified function over that
//! snapshot.  The binding that loads rows from the real store and writes the
//! results back lives outside this library.

pub mod block;
pub mod block_result;
pub mod chain_parameters;
pub mod checksums;
pub mod codec;
pub mod commit;
pub mod context;
pub mod db;
pub mod evidence;
pub mod governance;
pub mod id;
pub mod last_state;
pub mod laws;
pub mod orm;
pub mod player;
pub mod players;
pub mod scores;
pub mod seq_util;
pub mod tasks;
pub mod transaction;
pub mod transactions;
pub mod validator;
