//! The in-memory snapshot of the relational store that a scoring pass works
//! on, with its well-formedness invariant and the row lookups the pipeline
//! needs.  Lookups resolve to the first matching row, and the invariant makes
//! the keyed rows unique, so first-match lookup is lookup.

use vstd::prelude::*;

use crate::orm::BlockDb;
use crate::orm::CommitDb;
use crate::orm::CrawlerStateDb;
use crate::orm::GovernanceProposalDb;
use crate::orm::GovernanceProposalVoteDb;
use crate::orm::PlayerDb;
use crate::orm::PlayerKindDb;
use crate::orm::PlayerRankDb;
use crate::orm::TaskCompletionStateDb;
use crate::orm::TaskDb;
use crate::orm::TaskInsertDb;
use crate::orm::TaskTypeDb;
use crate::orm::TmAddressDb;
use crate::orm::TransactionDb;
use crate::orm::TransactionKindDb;
use crate::orm::UnidentifiedTaskDb;
use crate::seq_util::exists_where;

verus! {

/// All tables the scoring core reads or writes.
pub struct Db {
    pub players: Vec<PlayerDb>,
    pub blocks: Vec<BlockDb>,
    pub commits: Vec<CommitDb>,
    pub tm_addresses: Vec<TmAddressDb>,
    pub transactions: Vec<TransactionDb>,
    pub governance_proposals: Vec<GovernanceProposalDb>,
    pub governance_votes: Vec<GovernanceProposalVoteDb>,
    pub manual_tasks: Vec<TaskInsertDb>,
    pub tasks: Vec<TaskDb>,
    pub unidentified_tasks: Vec<UnidentifiedTaskDb>,
    pub player_ranks: Vec<PlayerRankDb>,
    pub task_completion_state: Option<TaskCompletionStateDb>,
    pub crawler_state: Vec<CrawlerStateDb>,
}

/// A player is banned exactly when the flag is set and true.
pub open spec fn spec_is_banned(p: PlayerDb) -> bool {
    p.is_banned == Some(true)
}

pub open spec fn spec_find_player(players: Seq<PlayerDb>, id: Seq<char>) -> Option<int>
    decreases players.len(),
{
    if players.len() == 0 {
        None
    } else if players.first().id@ == id {
        Some(0)
    } else {
        match spec_find_player(players.drop_first(), id) {
            Some(i) => Some(i + 1),
            None => None,
        }
    }
}

pub open spec fn has_player(players: Seq<PlayerDb>, id: Seq<char>) -> bool {
    spec_find_player(players, id) is Some
}

pub open spec fn spec_find_block_by_id(blocks: Seq<BlockDb>, id: Seq<char>) -> Option<int>
    decreases blocks.len(),
{
    if blocks.len() == 0 {
        None
    } else if blocks.first().id@ == id {
        Some(0)
    } else {
        match spec_find_block_by_id(blocks.drop_first(), id) {
            Some(i) => Some(i + 1),
            None => None,
        }
    }
}

pub open spec fn spec_find_block_by_height(blocks: Seq<BlockDb>, height: i32) -> Option<int>
    decreases blocks.len(),
{
    if blocks.len() == 0 {
        None
    } else if blocks.first().height == height {
        Some(0)
    } else {
        match spec_find_block_by_height(blocks.drop_first(), height) {
            Some(i) => Some(i + 1),
            None => None,
        }
    }
}

pub open spec fn spec_find_transaction(txs: Seq<TransactionDb>, id: Seq<char>) -> Option<int>
    decreases txs.len(),
{
    if txs.len() == 0 {
        None
    } else if txs.first().id@ == id {
        Some(0)
    } else {
        match spec_find_transaction(txs.drop_first(), id) {
            Some(i) => Some(i + 1),
            None => None,
        }
    }
}

pub open spec fn spec_find_proposal(
    proposals: Seq<GovernanceProposalDb>,
    proposal_id: u64,
) -> Option<int>
    decreases proposals.len(),
{
    if proposals.len() == 0 {
        None
    } else if proposal_row_matches(proposals.first(), proposal_id) {
        Some(0)
    } else {
        match spec_find_proposal(proposals.drop_first(), proposal_id) {
            Some(i) => Some(i + 1),
            None => None,
        }
    }
}

/// The kind of the player named `id`, if there is one.
pub open spec fn player_kind_of(players: Seq<PlayerDb>, id: Seq<char>) -> Option<PlayerKindDb> {
    match spec_find_player(players, id) {
        Some(i) => Some(players[i].kind),
        None => None,
    }
}

/// Whether `id` names a player that is not banned: the join every scoring
/// query runs.
pub open spec fn joined_not_banned(players: Seq<PlayerDb>, id: Seq<char>) -> bool {
    match spec_find_player(players, id) {
        Some(i) => !spec_is_banned(players[i]),
        None => false,
    }
}

pub open spec fn has_task(tasks: Seq<TaskDb>, player_id: Seq<char>, task: TaskTypeDb) -> bool {
    exists_where(tasks, |r: TaskDb| r.player_id@ == player_id && r.task == task)
}

pub open spec fn has_unidentified(
    rows: Seq<UnidentifiedTaskDb>,
    player_id: Seq<char>,
    tx_kind: TransactionKindDb,
) -> bool {
    exists_where(rows, |r: UnidentifiedTaskDb| r.player_id@ == player_id && r.tx_kind == tx_kind)
}

impl Db {
    pub open spec fn players_unique(&self) -> bool {
        unique_ids(self.players@)
    }

    pub open spec fn internal_ids_unique(&self) -> bool {
        forall|i: int, j: int|
            0 <= i < j < self.players@.len() ==> self.players@[i].internal_id
                != self.players@[j].internal_id
    }

    pub open spec fn blocks_unique(&self) -> bool {
        forall|i: int, j: int|
            0 <= i < j < self.blocks@.len() ==> self.blocks@[i].id@ != self.blocks@[j].id@
    }

    /// Every task row names an existing player.
    pub open spec fn task_refs_ok(&self) -> bool {
        &&& forall|i: int|
            0 <= i < self.tasks@.len() ==> has_player(self.players@, self.tasks@[i].player_id@)
        &&& forall|i: int|
            0 <= i < self.unidentified_tasks@.len() ==> has_player(
                self.players@,
                self.unidentified_tasks@[i].player_id@,
            )
    }

    pub open spec fn manual_refs_ok(&self) -> bool {
        forall|i: int|
            0 <= i < self.manual_tasks@.len() ==> has_player(
                self.players@,
                self.manual_tasks@[i].player_id@,
            )
    }

    /// One task row per `(player, task)` pair.
    pub open spec fn tasks_unique(&self) -> bool {
        forall|i: int, j: int|
            0 <= i < j < self.tasks@.len() ==> !(self.tasks@[i].player_id@
                == self.tasks@[j].player_id@ && self.tasks@[i].task == self.tasks@[j].task)
    }

    /// One unidentified-task row per `(player, tx kind)` pair.
    pub open spec fn unidentified_unique(&self) -> bool {
        forall|i: int, j: int|
            0 <= i < j < self.unidentified_tasks@.len() ==> !(self.unidentified_tasks@[i].player_id@
                == self.unidentified_tasks@[j].player_id@ && self.unidentified_tasks@[i].tx_kind
                == self.unidentified_tasks@[j].tx_kind)
    }

    pub open spec fn wf(&self) -> bool {
        &&& self.players_unique()
        &&& self.internal_ids_unique()
        &&& self.blocks_unique()
        &&& self.task_refs_ok()
        &&& self.manual_refs_ok()
        &&& self.tasks_unique()
        &&& self.unidentified_unique()
    }

    /// Position of the player row named `player_id`.
    pub fn find_player(&self, player_id: &str) -> (r: Option<usize>)
        ensures
            match r {
                Some(i) => spec_find_player(self.players@, player_id@) == Some(i as int) && i
                    < self.players@.len(),
                None => spec_find_player(self.players@, player_id@) is None,
            },
    {
        let n = self.players.len();
        let mut i: usize = 0;
        while i < n
            invariant
                n == self.players@.len(),
                0 <= i <= n,
                forall|j: int| 0 <= j < i ==> self.players@[j].id@ != player_id@,
            decreases n - i,
        {
            if str_eq_string(player_id, &self.players[i].id) {
                proof {
                    lemma_find_player_props(self.players@, player_id@);
                }
                return Some(i);
            }
            i += 1;
        }
        proof {
            lemma_find_player_props(self.players@, player_id@);
        }
        None
    }

    /// Position of the block row whose id is `block_id`.
    pub fn find_block_by_id(&self, block_id: &str) -> (r: Option<usize>)
        ensures
            match r {
                Some(i) => spec_find_block_by_id(self.blocks@, block_id@) == Some(i as int) && i
                    < self.blocks@.len(),
                None => spec_find_block_by_id(self.blocks@, block_id@) is None,
            },
    {
        let n = self.blocks.len();
        let mut i: usize = 0;
        while i < n
            invariant
                n == self.blocks@.len(),
                0 <= i <= n,
                forall|j: int| 0 <= j < i ==> self.blocks@[j].id@ != block_id@,
            decreases n - i,
        {
            if str_eq_string(block_id, &self.blocks[i].id) {
                proof {
                    lemma_find_block_by_id_props(self.blocks@, block_id@);
                }
                return Some(i);
            }
            i += 1;
        }
        proof {
            lemma_find_block_by_id_props(self.blocks@, block_id@);
        }
        None
    }

    /// Position of the first block row at the given height.
    pub fn find_block_by_height(&self, height: i32) -> (r: Option<usize>)
        ensures
            match r {
                Some(i) => spec_find_block_by_height(self.blocks@, height) == Some(i as int) && i
                    < self.blocks@.len(),
                None => spec_find_block_by_height(self.blocks@, height) is None,
            },
    {
        let n = self.blocks.len();
        let mut i: usize = 0;
        while i < n
            invariant
                n == self.blocks@.len(),
                0 <= i <= n,
                forall|j: int| 0 <= j < i ==> self.blocks@[j].height != height,
            decreases n - i,
        {
            if self.blocks[i].height == height {
                proof {
                    lemma_find_block_by_height_props(self.blocks@, height);
                }
                return Some(i);
            }
            i += 1;
        }
        proof {
            lemma_find_block_by_height_props(self.blocks@, height);
        }
        None
    }

    /// Position of the transaction row whose id is `tx_id`.
    pub fn find_transaction_by_id(&self, tx_id: &str) -> (r: Option<usize>)
        ensures
            match r {
                Some(i) => spec_find_transaction(self.transactions@, tx_id@) == Some(i as int) && i
                    < self.transactions@.len(),
                None => spec_find_transaction(self.transactions@, tx_id@) is None,
            },
    {
        let n = self.transactions.len();
        let mut i: usize = 0;
        while i < n
            invariant
                n == self.transactions@.len(),
                0 <= i <= n,
                forall|j: int| 0 <= j < i ==> self.transactions@[j].id@ != tx_id@,
            decreases n - i,
        {
            if str_eq_string(tx_id, &self.transactions[i].id) {
                proof {
                    lemma_find_transaction_props(self.transactions@, tx_id@);
                }
                return Some(i);
            }
            i += 1;
        }
        proof {
            lemma_find_transaction_props(self.transactions@, tx_id@);
        }
        None
    }

    /// Position of the governance proposal with the given chain-level id.
    pub fn find_proposal(&self, proposal_id: u64) -> (r: Option<usize>)
        ensures
            match r {
                Some(i) => spec_find_proposal(self.governance_proposals@, proposal_id) == Some(
                    i as int,
                ) && i < self.governance_proposals@.len(),
                None => spec_find_proposal(self.governance_proposals@, proposal_id) is None,
            },
    {
        let n = self.governance_proposals.len();
        let mut i: usize = 0;
        while i < n
            invariant
                n == self.governance_proposals@.len(),
                0 <= i <= n,
                forall|j: int|
                    0 <= j < i ==> !proposal_row_matches(self.governance_proposals@[j], proposal_id),
            decreases n - i,
        {
            let row_id = self.governance_proposals[i].id;
            if row_id >= 0 && row_id as u64 == proposal_id {
                proof {
                    lemma_find_proposal_props(self.governance_proposals@, proposal_id);
                }
                return Some(i);
            }
            i += 1;
        }
        proof {
            lemma_find_proposal_props(self.governance_proposals@, proposal_id);
        }
        None
    }

    /// Whether the identified-task ledger already holds `(player_id, task)`.
    pub fn has_task_row(&self, player_id: &str, task: TaskTypeDb) -> (r: bool)
        ensures
            r == has_task(self.tasks@, player_id@, task),
    {
        let ghost p = |t: TaskDb| t.player_id@ == player_id@ && t.task == task;
        let n = self.tasks.len();
        let mut i: usize = 0;
        while i < n
            invariant
                n == self.tasks@.len(),
                0 <= i <= n,
                forall|j: int| 0 <= j < i ==> !p(self.tasks@[j]),
                p == (|t: TaskDb| t.player_id@ == player_id@ && t.task == task),
            decreases n - i,
        {
            if self.tasks[i].task == task && str_eq_string(player_id, &self.tasks[i].player_id) {
                assert(p(self.tasks@[i as int]));
                return true;
            }
            i += 1;
        }
        false
    }

    /// Whether the unidentified-task ledger already holds `(player_id, kind)`.
    pub fn has_unidentified_row(&self, player_id: &str, tx_kind: TransactionKindDb) -> (r: bool)
        ensures
            r == has_unidentified(self.unidentified_tasks@, player_id@, tx_kind),
    {
        let ghost p = |t: UnidentifiedTaskDb| t.player_id@ == player_id@ && t.tx_kind == tx_kind;
        let n = self.unidentified_tasks.len();
        let mut i: usize = 0;
        while i < n
            invariant
                n == self.unidentified_tasks@.len(),
                0 <= i <= n,
                forall|j: int| 0 <= j < i ==> !p(self.unidentified_tasks@[j]),
                p == (|t: UnidentifiedTaskDb| t.player_id@ == player_id@ && t.tx_kind == tx_kind),
            decreases n - i,
        {
            if self.unidentified_tasks[i].tx_kind == tx_kind && str_eq_string(
                player_id,
                &self.unidentified_tasks[i].player_id,
            ) {
                assert(p(self.unidentified_tasks@[i as int]));
                return true;
            }
            i += 1;
        }
        false
    }
}

pub proof fn lemma_find_player_props(players: Seq<PlayerDb>, id: Seq<char>)
    ensures
        match spec_find_player(players, id) {
            Some(i) => 0 <= i < players.len() && players[i].id@ == id && forall|j: int|
                0 <= j < i ==> players[j].id@ != id,
            None => forall|j: int| 0 <= j < players.len() ==> players[j].id@ != id,
        },
    decreases players.len(),
{
    if players.len() > 0 && players.first().id@ != id {
        let t = players.drop_first();
        lemma_find_player_props(t, id);
        match spec_find_player(t, id) {
            Some(i) => {
                assert(players[i + 1] == t[i]);
                assert forall|j: int| 0 <= j < i + 1 implies players[j].id@ != id by {
                    if j > 0 {
                        assert(players[j] == t[j - 1]);
                    }
                }
            },
            None => {
                assert forall|j: int| 0 <= j < players.len() implies players[j].id@ != id by {
                    if j > 0 {
                        assert(players[j] == t[j - 1]);
                    }
                }
            },
        }
    }
}

pub proof fn lemma_find_block_by_id_props(blocks: Seq<BlockDb>, id: Seq<char>)
    ensures
        match spec_find_block_by_id(blocks, id) {
            Some(i) => 0 <= i < blocks.len() && blocks[i].id@ == id && forall|j: int|
                0 <= j < i ==> blocks[j].id@ != id,
            None => forall|j: int| 0 <= j < blocks.len() ==> blocks[j].id@ != id,
        },
    decreases blocks.len(),
{
    if blocks.len() > 0 && blocks.first().id@ != id {
        let t = blocks.drop_first();
        lemma_find_block_by_id_props(t, id);
        match spec_find_block_by_id(t, id) {
            Some(i) => {
                assert(blocks[i + 1] == t[i]);
                assert forall|j: int| 0 <= j < i + 1 implies blocks[j].id@ != id by {
                    if j > 0 {
                        assert(blocks[j] == t[j - 1]);
                    }
                }
            },
            None => {
                assert forall|j: int| 0 <= j < blocks.len() implies blocks[j].id@ != id by {
                    if j > 0 {
                        assert(blocks[j] == t[j - 1]);
                    }
                }
            },
        }
    }
}

pub proof fn lemma_find_block_by_height_props(blocks: Seq<BlockDb>, height: i32)
    ensures
        match spec_find_block_by_height(blocks, height) {
            Some(i) => 0 <= i < blocks.len() && blocks[i].height == height && forall|j: int|
                0 <= j < i ==> blocks[j].height != height,
            None => forall|j: int| 0 <= j < blocks.len() ==> blocks[j].height != height,
        },
    decreases blocks.len(),
{
    if blocks.len() > 0 && blocks.first().height != height {
        let t = blocks.drop_first();
        lemma_find_block_by_height_props(t, height);
        match spec_find_block_by_height(t, height) {
            Some(i) => {
                assert(blocks[i + 1] == t[i]);
                assert forall|j: int| 0 <= j < i + 1 implies blocks[j].height != height by {
                    if j > 0 {
                        assert(blocks[j] == t[j - 1]);
                    }
                }
            },
            None => {
                assert forall|j: int| 0 <= j < blocks.len() implies blocks[j].height != height by {
                    if j > 0 {
                        assert(blocks[j] == t[j - 1]);
                    }
                }
            },
        }
    }
}

pub proof fn lemma_find_transaction_props(txs: Seq<TransactionDb>, id: Seq<char>)
    ensures
        match spec_find_transaction(txs, id) {
            Some(i) => 0 <= i < txs.len() && txs[i].id@ == id && forall|j: int|
                0 <= j < i ==> txs[j].id@ != id,
            None => forall|j: int| 0 <= j < txs.len() ==> txs[j].id@ != id,
        },
    decreases txs.len(),
{
    if txs.len() > 0 && txs.first().id@ != id {
        let t = txs.drop_first();
        lemma_find_transaction_props(t, id);
        match spec_find_transaction(t, id) {
            Some(i) => {
                assert(txs[i + 1] == t[i]);
                assert forall|j: int| 0 <= j < i + 1 implies txs[j].id@ != id by {
                    if j > 0 {
                        assert(txs[j] == t[j - 1]);
                    }
                }
            },
            None => {
                assert forall|j: int| 0 <= j < txs.len() implies txs[j].id@ != id by {
                    if j > 0 {
                        assert(txs[j] == t[j - 1]);
                    }
                }
            },
        }
    }
}

pub proof fn lemma_find_proposal_props(proposals: Seq<GovernanceProposalDb>, proposal_id: u64)
    ensures
        match spec_find_proposal(proposals, proposal_id) {
            Some(i) => 0 <= i < proposals.len() && proposal_row_matches(proposals[i], proposal_id)
                && forall|j: int| 0 <= j < i ==> !proposal_row_matches(proposals[j], proposal_id),
            None => forall|j: int|
                0 <= j < proposals.len() ==> !proposal_row_matches(proposals[j], proposal_id),
        },
    decreases proposals.len(),
{
    if proposals.len() > 0 && !proposal_row_matches(proposals.first(), proposal_id) {
        let t = proposals.drop_first();
        lemma_find_proposal_props(t, proposal_id);
        match spec_find_proposal(t, proposal_id) {
            Some(i) => {
                assert(proposals[i + 1] == t[i]);
                assert forall|j: int|
                    0 <= j < i + 1 implies !proposal_row_matches(proposals[j], proposal_id) by {
                    if j > 0 {
                        assert(proposals[j] == t[j - 1]);
                    }
                }
            },
            None => {
                assert forall|j: int|
                    0 <= j < proposals.len() implies !proposal_row_matches(
                    proposals[j],
                    proposal_id,
                ) by {
                    if j > 0 {
                        assert(proposals[j] == t[j - 1]);
                    }
                }
            },
        }
    }
}

/// Lookup sees only ids: sequences that agree on ids agree on lookup.
pub proof fn lemma_find_player_congruent(a: Seq<PlayerDb>, b: Seq<PlayerDb>, id: Seq<char>)
    requires
        a.len() == b.len(),
        forall|i: int| 0 <= i < a.len() ==> a[i].id@ == b[i].id@,
    ensures
        spec_find_player(a, id) == spec_find_player(b, id),
    decreases a.len(),
{
    if a.len() > 0 {
        assert(a[0].id@ == b[0].id@);
        let ta = a.drop_first();
        let tb = b.drop_first();
        assert forall|i: int| 0 <= i < ta.len() implies ta[i].id@ == tb[i].id@ by {
            assert(ta[i] == a[i + 1]);
            assert(tb[i] == b[i + 1]);
        }
        lemma_find_player_congruent(ta, tb, id);
    }
}

/// Sequences that agree pointwise on every field but the score.
pub open spec fn players_score_only_diff(a: Seq<PlayerDb>, b: Seq<PlayerDb>) -> bool {
    &&& a.len() == b.len()
    &&& forall|i: int| 0 <= i < a.len() ==> b[i] == PlayerDb { score: b[i].score, ..a[i] }
}

/// Pairwise-distinct player ids.
pub open spec fn unique_ids(players: Seq<PlayerDb>) -> bool {
    forall|i: int, j: int| 0 <= i < j < players.len() ==> players[i].id@ != players[j].id@
}

/// Under unique ids, any row with a matching id is the row lookup finds.
pub proof fn lemma_player_witness(players: Seq<PlayerDb>, id: Seq<char>, i: int)
    requires
        unique_ids(players),
        0 <= i < players.len(),
        players[i].id@ == id,
    ensures
        spec_find_player(players, id) == Some(i),
{
    lemma_find_player_props(players, id);
    match spec_find_player(players, id) {
        Some(k) => {
            if k != i {
                assert(players[k].id@ == players[i].id@);
                assert(false);
            }
        },
        None => {
            assert(false);
        },
    }
}

/// The tables no phase of a pass ever writes.
pub open spec fn base_tables_eq(a: Db, b: Db) -> bool {
    &&& a.blocks@ == b.blocks@
    &&& a.commits@ == b.commits@
    &&& a.tm_addresses@ == b.tm_addresses@
    &&& a.transactions@ == b.transactions@
    &&& a.governance_proposals@ == b.governance_proposals@
    &&& a.governance_votes@ == b.governance_votes@
    &&& a.manual_tasks@ == b.manual_tasks@
    &&& a.crawler_state@ == b.crawler_state@
}

/// The ingest phase writes the task ledgers and the checkpoint, nothing else.
pub open spec fn ingest_writes_only(a: Db, b: Db) -> bool {
    &&& base_tables_eq(a, b)
    &&& a.players@ == b.players@
    &&& a.player_ranks@ == b.player_ranks@
}

/// The scoring phase writes player scores, nothing else.
pub open spec fn scoring_writes_only(a: Db, b: Db) -> bool {
    &&& base_tables_eq(a, b)
    &&& a.tasks@ == b.tasks@
    &&& a.unidentified_tasks@ == b.unidentified_tasks@
    &&& a.player_ranks@ == b.player_ranks@
    &&& a.task_completion_state == b.task_completion_state
}

/// The checkpoint update writes the checkpoint row, nothing else.
pub open spec fn checkpoint_writes_only(a: Db, b: Db) -> bool {
    &&& base_tables_eq(a, b)
    &&& a.players@ == b.players@
    &&& a.tasks@ == b.tasks@
    &&& a.unidentified_tasks@ == b.unidentified_tasks@
    &&& a.player_ranks@ == b.player_ranks@
}

/// The height up to which transactions have been ingested: zero before the
/// first pass.
pub open spec fn spec_checkpoint_height(db: Db) -> int {
    match db.task_completion_state {
        Some(s) => s.last_processed_height as int,
        None => 0,
    }
}

/// The ranking phase rebuilds the rank table, nothing else.
pub open spec fn ranking_writes_only(a: Db, b: Db) -> bool {
    &&& base_tables_eq(a, b)
    &&& a.players@ == b.players@
    &&& a.tasks@ == b.tasks@
    &&& a.unidentified_tasks@ == b.unidentified_tasks@
    &&& a.task_completion_state == b.task_completion_state
}

/// The id a freshly inserted ledger row gets: rows are numbered from one.
pub open spec fn spec_next_row_id(len: int) -> i32 {
    if len + 1 <= i32::MAX {
        (len + 1) as i32
    } else {
        i32::MAX
    }
}

/// Whether a proposal row's stored id equals the chain-level proposal id.
pub open spec fn proposal_row_matches(g: GovernanceProposalDb, proposal_id: u64) -> bool {
    g.id >= 0 && g.id as u64 == proposal_id
}

/// String comparison between a borrowed key and a row field.
pub fn str_eq_string(a: &str, b: &String) -> (r: bool)
    ensures
        r == (a@ == b@),
{
    let a_owned: String = a.to_owned();
    a_owned == *b
}

} // verus!
