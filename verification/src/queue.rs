//! Queue store: an ordered, line-oriented list of job records together with
//! the marker lock that guards it.
//!
//! A [`QueueFile`] models one backing file: `records` holds its lines in
//! order and `locked` holds the existence of the sibling marker file whose
//! presence means exclusive ownership.  Callers that keep such a file on
//! disk mirror each operation here onto the real file and marker.

use vstd::prelude::*;
use crate::text::line_in;

verus! {

/// Failure of a store operation.
#[derive(Clone, Copy, Debug, PartialEq, Eq, Structural)]
pub enum StoreError {
    /// The marker lock already exists, so the resource is owned elsewhere.
    LockBusy,
}

/// One line-oriented backing file and its marker lock.
pub struct QueueFile {
    /// The records (complete lines) the file holds, oldest first.
    pub records: Vec<String>,
    /// Whether the marker lock for this file currently exists.
    pub locked: bool,
}

impl QueueFile {
    /// The records as a sequence of character sequences.
    pub open spec fn lines(&self) -> Seq<Seq<char>> {
        self.records.deep_view()
    }

    /// An empty, unlocked store.
    pub fn new() -> (q: QueueFile)
        ensures
            q.records@.len() == 0,
            !q.locked,
    {
        QueueFile { records: Vec::new(), locked: false }
    }
}

/// Value-preserving copy of a record list.
pub fn clone_lines(v: &Vec<String>) -> (r: Vec<String>)
    ensures
        r@ =~= v@,
{
    let n: usize = v.len();
    let mut out: Vec<String> = Vec::new();
    let mut i: usize = 0;
    while i < n
        invariant
            n == v@.len(),
            i <= n,
            out@.len() == i,
            forall|k: int| 0 <= k < i ==> out@[k] == v@[k],
        decreases n - i,
    {
        out.push(v[i].clone());
        i = i + 1;
    }
    out
}

/// Exclusive, non-blocking acquisition of the marker lock: fails, changing
/// nothing, when the marker already exists.
pub fn lock_file(f: &mut QueueFile) -> (r: Result<(), StoreError>)
    ensures
        final(f).records == old(f).records,
        final(f).locked,
        r == if old(f).locked {
            Err::<(), StoreError>(StoreError::LockBusy)
        } else {
            Ok::<(), StoreError>(())
        },
{
    if f.locked {
        Err(StoreError::LockBusy)
    } else {
        f.locked = true;
        Ok(())
    }
}

/// Idempotent release of the marker lock: succeeds whether or not the
/// marker still exists, so a double release or a release after a crash
/// that left no marker is not an error.
pub fn unlock_file(f: &mut QueueFile) -> (r: Result<(), StoreError>)
    ensures
        final(f).records == old(f).records,
        !final(f).locked,
        r is Ok,
{
    f.locked = false;
    Ok(())
}

/// Atomically acquire the marker lock and read the whole file: when the
/// marker already exists the call fails without reading anything, and
/// otherwise the caller ends up holding the lock and sees every record in
/// order.
pub fn read_list_lock(f: &mut QueueFile) -> (r: Result<Vec<String>, StoreError>)
    ensures
        final(f).records == old(f).records,
        match r {
            Ok(lines) => !old(f).locked && final(f).locked && lines@ =~= old(f).records@,
            Err(e) => old(f).locked && final(f).locked && e == StoreError::LockBusy,
        },
{
    if f.locked {
        Err(StoreError::LockBusy)
    } else {
        f.locked = true;
        Ok(clone_lines(&f.records))
    }
}

/// Read the whole file without taking the lock, refusing to read while the
/// marker exists.
pub fn read_nolock(f: &QueueFile) -> (r: Result<Vec<String>, StoreError>)
    ensures
        match r {
            Ok(lines) => !f.locked && lines@ =~= f.records@,
            Err(e) => f.locked && e == StoreError::LockBusy,
        },
{
    if f.locked {
        Err(StoreError::LockBusy)
    } else {
        Ok(clone_lines(&f.records))
    }
}

/// Append `records` to the file in order, one complete line each.
///
/// `fault_after` injects the write failure the caller observed (or `None`
/// for a clean append): with `Some(n)`, `n < records.len()`, the first `n`
/// records are durably appended and the call reports exactly the records
/// not yet written, in their original input order, so an operator can add
/// them back by hand.  No record that was written is ever reported as
/// unwritten.  The lock state is untouched: releasing stays the caller's
/// duty on every path.
pub fn append_jobs(f: &mut QueueFile, records: &Vec<String>, fault_after: Option<usize>) -> (r:
    Result<(), Vec<String>>)
    ensures
        final(f).locked == old(f).locked,
        match r {
            Ok(_) => {
                &&& final(f).records@ =~= old(f).records@ + records@
                &&& (fault_after matches Some(n) ==> n >= records@.len())
            },
            Err(unwritten) => {
                &&& fault_after matches Some(n) && n < records@.len() && final(f).records@
                    =~= old(f).records@ + records@.subrange(0, n as int) && unwritten@
                    =~= records@.subrange(n as int, records@.len() as int)
            },
        },
{
    let total: usize = records.len();
    let stop: usize = match fault_after {
        None => total,
        Some(n) => if n < total {
            n
        } else {
            total
        },
    };
    let mut i: usize = 0;
    while i < stop
        invariant
            stop <= total,
            total == records@.len(),
            i <= stop,
            f.records@ =~= old(f).records@ + records@.subrange(0, i as int),
            f.locked == old(f).locked,
        decreases stop - i,
    {
        f.records.push(records[i].clone());
        i = i + 1;
        assert(f.records@ =~= old(f).records@ + records@.subrange(0, i as int));
    }
    if stop == total {
        assert(records@.subrange(0, total as int) =~= records@);
        Ok(())
    } else {
        let mut unwritten: Vec<String> = Vec::new();
        let mut j: usize = stop;
        while j < total
            invariant
                stop <= j <= total,
                total == records@.len(),
                unwritten@.len() == j - stop,
                forall|k: int| 0 <= k < j - stop ==> unwritten@[k] == records@[stop + k],
            decreases total - j,
        {
            unwritten.push(records[j].clone());
            j = j + 1;
        }
        assert(unwritten@ =~= records@.subrange(stop as int, total as int));
        Err(unwritten)
    }
}

/// Append accounting: every record in the written prefix is present
/// verbatim in the file afterward, and the reported unwritten records are
/// exactly the suffix of the input that was never appended.
pub proof fn lemma_append_report(old_lines: Seq<Seq<char>>, recs: Seq<Seq<char>>, n: int)
    requires
        0 <= n <= recs.len(),
    ensures
        forall|i: int|
            0 <= i < n ==> line_in(old_lines + recs.subrange(0, n), #[trigger] recs[i]),
        forall|i: int|
            n <= i < recs.len() ==> recs.subrange(n, recs.len() as int)[i - n] == #[trigger] recs[i],
{
    assert forall|i: int| 0 <= i < n implies line_in(
        old_lines + recs.subrange(0, n),
        #[trigger] recs[i],
    ) by {
        assert((old_lines + recs.subrange(0, n))[old_lines.len() + i] == recs[i]);
    }
}

} // verus!
