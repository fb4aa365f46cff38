//! The ingest checkpoint: which block heights have been processed, and the
//! window the next pass should cover.

use vstd::prelude::*;

use crate::db::Db;
use crate::db::checkpoint_writes_only;
use crate::db::spec_checkpoint_height;
use crate::orm::CrawlerStateDb;
use crate::orm::TaskCompletionStateDb;

verus! {

/// The highest height the indexer has committed, or zero with no rows.
pub open spec fn spec_crawler_max(rows: Seq<CrawlerStateDb>) -> i32
    decreases rows.len(),
{
    if rows.len() == 0 {
        0
    } else if rows.len() == 1 {
        rows.last().height
    } else {
        let m = spec_crawler_max(rows.drop_last());
        if rows.last().height > m {
            rows.last().height
        } else {
            m
        }
    }
}

proof fn lemma_crawler_max_step(rows: Seq<CrawlerStateDb>, i: int)
    requires
        0 <= i < rows.len(),
    ensures
        spec_crawler_max(rows.take(i + 1)) == if i == 0 {
            rows[0].height
        } else {
            let m = spec_crawler_max(rows.take(i));
            if rows[i].height > m {
                rows[i].height
            } else {
                m
            }
        },
{
    assert(rows.take(i + 1).drop_last() =~= rows.take(i));
    assert(rows.take(i + 1).last() == rows[i]);
}

/// Reads the pass's own checkpoint and the indexer's checkpoint.
pub fn read_last_processed_task_heights(db: &Db) -> (r: (i32, i32))
    ensures
        r.0 as int == spec_checkpoint_height(*db),
        r.1 == spec_crawler_max(db.crawler_state@),
{
    let our_height = match &db.task_completion_state {
        Some(s) => s.last_processed_height,
        None => 0,
    };
    let n = db.crawler_state.len();
    let mut crawler_height: i32 = 0;
    let mut i: usize = 0;
    while i < n
        invariant
            n == db.crawler_state@.len(),
            0 <= i <= n,
            crawler_height == if i == 0 {
                0i32
            } else {
                spec_crawler_max(db.crawler_state@.take(i as int))
            },
        decreases n - i,
    {
        proof {
            lemma_crawler_max_step(db.crawler_state@, i as int);
        }
        if i == 0 || db.crawler_state[i].height > crawler_height {
            crawler_height = db.crawler_state[i].height;
        }
        i += 1;
    }
    proof {
        if n > 0 {
            assert(db.crawler_state@.take(n as int) =~= db.crawler_state@);
        }
    }
    (our_height, crawler_height)
}

/// The height window `(last processed, indexer head]` the next ingest should
/// cover, or nothing when the indexer has not moved past the checkpoint.
pub fn compute_task_heights_to_process(db: &Db) -> (r: Option<(i32, i32)>)
    ensures
        match r {
            Some(w) => spec_crawler_max(db.crawler_state@) > spec_checkpoint_height(*db) && w.0
                as int == spec_checkpoint_height(*db) + 1 && w.1 == spec_crawler_max(
                db.crawler_state@,
            ),
            None => spec_crawler_max(db.crawler_state@) <= spec_checkpoint_height(*db),
        },
{
    let (our_height, crawler_height) = read_last_processed_task_heights(db);
    if crawler_height > our_height {
        Some((our_height + 1, crawler_height))
    } else {
        None
    }
}

/// Writes the checkpoint row: the ingested height and the wall-clock time
/// the caller observed.
pub fn update_last_processed_tasks_block(db: &mut Db, last_block_height: i32, now: i64)
    ensures
        checkpoint_writes_only(*old(db), *final(db)),
        final(db).task_completion_state == Some(
            TaskCompletionStateDb {
                id: 0,
                last_processed_time: now,
                last_processed_height: last_block_height,
            },
        ),
{
    db.task_completion_state = Some(
        TaskCompletionStateDb {
            id: 0,
            last_processed_time: now,
            last_processed_height: last_block_height,
        },
    );
}

} // verus!
