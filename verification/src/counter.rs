//! The realtime counter: derives "successful scans since local midnight" from
//! the stored scan log. Nothing is cached, so every read recomputes the day
//! boundary and rescans the log.

use vstd::prelude::*;

use crate::store::{ScanRow, StorageError, Store};
use crate::time::{day_start, local_day_start, valid_offset, valid_timestamp};

verus! {

/// How many events in `log` are successes with a timestamp at or after
/// `bound`.
pub open spec fn success_count_since(log: Seq<(Seq<char>, bool, int)>, bound: int) -> int
    decreases log.len(),
{
    if log.len() == 0 {
        0
    } else {
        success_count_since(log.drop_last(), bound) + (if log.last().1 && log.last().2 >= bound {
            1int
        } else {
            0int
        })
    }
}

/// How many events in `events` are successes, regardless of timestamp.
pub open spec fn successes_in(events: Seq<(Seq<char>, bool, int)>) -> int
    decreases events.len(),
{
    if events.len() == 0 {
        0
    } else {
        successes_in(events.drop_last()) + (if events.last().1 {
            1int
        } else {
            0int
        })
    }
}

/// Appending one event raises the count by one exactly when the event is a
/// success timestamped at or after the bound.
pub proof fn lemma_count_push(log: Seq<(Seq<char>, bool, int)>, e: (Seq<char>, bool, int), bound: int)
    ensures
        success_count_since(log.push(e), bound) == success_count_since(log, bound) + (if e.1 && e.2
            >= bound {
            1int
        } else {
            0int
        }),
{
    assert(log.push(e).drop_last() =~= log);
}

/// The count never exceeds the number of events and is never negative.
pub proof fn lemma_count_bounds(log: Seq<(Seq<char>, bool, int)>, bound: int)
    ensures
        0 <= success_count_since(log, bound) <= log.len(),
    decreases log.len(),
{
    if log.len() > 0 {
        lemma_count_bounds(log.drop_last(), bound);
    }
}

/// Scans all timestamped on or after the day start contribute exactly their
/// successes to the count: after appending them, the count has grown by the
/// number of successful outcomes among them.
pub proof fn lemma_count_same_day(
    log: Seq<(Seq<char>, bool, int)>,
    added: Seq<(Seq<char>, bool, int)>,
    bound: int,
)
    requires
        forall|i: int| 0 <= i < added.len() ==> (#[trigger] added[i]).2 >= bound,
    ensures
        success_count_since(log + added, bound) == success_count_since(log, bound) + successes_in(
            added,
        ),
    decreases added.len(),
{
    if added.len() == 0 {
        assert(log + added =~= log);
    } else {
        lemma_count_same_day(log, added.drop_last(), bound);
        assert((log + added).drop_last() =~= log + added.drop_last());
        assert((log + added).last() == added.last());
        assert(added.last().2 >= bound);
    }
}

/// A successful scan timestamped before the local day start is excluded from
/// that day's count: crossing midnight needs no reset step, because the
/// boundary is recomputed by every query.
pub proof fn lemma_prior_day_excluded(
    log: Seq<(Seq<char>, bool, int)>,
    barcode: Seq<char>,
    ts: int,
    now: int,
    off: int,
)
    requires
        ts < day_start(now, off),
    ensures
        success_count_since(log.push((barcode, true, ts)), day_start(now, off))
            == success_count_since(log, day_start(now, off)),
{
    lemma_count_push(log, (barcode, true, ts), day_start(now, off));
}

/// Counts the successful scans among `rows` timestamped at or after `bound`.
pub fn count_success_rows(rows: &Vec<ScanRow>, bound: i64) -> (r: usize)
    ensures
        r == success_count_since(rows@.map_values(|e: ScanRow| e@), bound as int),
{
    let mut count: usize = 0;
    let mut i: usize = 0;
    while i < rows.len()
        invariant
            i <= rows.len(),
            count <= i,
            count == success_count_since(
                rows@.subrange(0, i as int).map_values(|e: ScanRow| e@),
                bound as int,
            ),
        decreases rows.len() - i,
    {
        proof {
            let prefix = rows@.subrange(0, i as int).map_values(|e: ScanRow| e@);
            let next = rows@.subrange(0, i as int + 1).map_values(|e: ScanRow| e@);
            assert(next =~= prefix.push(rows@[i as int]@));
            lemma_count_push(prefix, rows@[i as int]@, bound as int);
        }
        if rows[i].success && rows[i].ts >= bound {
            count = count + 1;
        }
        i = i + 1;
    }
    proof {
        assert(rows@.subrange(0, rows.len() as int) =~= rows@);
    }
    count
}

impl Store {
    /// Counts the stored successful scans timestamped at or after `bound`.
    pub fn count_success_since(&self, bound: i64) -> (r: Result<usize, StorageError>)
        ensures
            r matches Ok(c) ==> c == success_count_since(self.log(), bound as int),
    {
        let rows = match self.scans() {
            Ok(rows) => rows,
            Err(e) => {
                return Err(e);
            },
        };
        Ok(count_success_rows(&rows, bound))
    }
}

/// The realtime count: successful scans recorded since the start of the local
/// calendar day containing `now`, recomputed fresh from the stored log.
pub fn realtime_count(store: &Store, now: i64, off: i32) -> (r: Result<usize, StorageError>)
    requires
        valid_offset(off as int),
        valid_timestamp(now as int),
    ensures
        r matches Ok(c) ==> c == success_count_since(
            store.log(),
            day_start(now as int, off as int),
        ),
{
    let bound = local_day_start(now, off);
    store.count_success_since(bound)
}

} // verus!
