//! Assignment requester: decides whether more assignments are needed,
//! validates the fetched response, and appends the recognized records to
//! the queue, holding the queue's marker lock across the whole
//! read-decide-append cycle and releasing it on every path.
//!
//! The network transfer itself happens outside the library: a cycle is
//! split into [`begin_request`], which locks and reads the queue and either
//! short-circuits or reports the deficit to fetch, and [`finish_request`],
//! which applies the observed fetch outcome.  [`request_more`] composes the
//! two for a fetch outcome that is already at hand.

use vstd::prelude::*;
use crate::queue::{append_jobs, read_list_lock, unlock_file, QueueFile};
use crate::records::{extract_records, spec_extract, RecordKind};
use crate::text::{find_sub, spec_find, str_to_chars};
use crate::util::{error_msg_with_jobs, spec_jobs_message};

verus! {

/// Whether a login attempt succeeded: the authority answered with success
/// status and the response body confirms the session by showing the
/// username followed by the logged-in marker.
pub fn login_succeeded(status: u16, body: &str, username: &str) -> (b: bool)
    ensures
        b == (status == 200 && spec_find(body@, username@ + "<br>logged in"@, 0) is Some),
{
    if status != 200 {
        return false;
    }
    let t = str_to_chars(body);
    let mut pat = str_to_chars(username);
    let mut tail = str_to_chars("<br>logged in");
    pat.append(&mut tail);
    match find_sub(&t, &pat, 0) {
        Some(_) => true,
        None => false,
    }
}

/// What the network returned for an assignment fetch.
pub enum FetchOutcome {
    /// An HTTP response was received.
    Response { status: u16, body: String },
    /// The request could not be sent or the response body not read.
    TransportError { detail: String },
}

/// A write failure observed while appending fetched records: the first
/// `written` records reached the file durably, the rest did not.
pub struct WriteFault {
    /// How many records were durably appended before the failure.
    pub written: usize,
    /// The underlying error text.
    pub detail: String,
}

/// The decision taken after reading the queue under its lock.
pub enum FetchPlan {
    /// The queue already holds at least the target number of assignments;
    /// no request is to be issued and the lock is already released.
    AlreadyCached { have: usize },
    /// `deficit` more assignments are needed; the queue lock is held and
    /// must be handed to [`finish_request`].
    Fetch { deficit: usize },
}

/// Successful end of a requester cycle.
pub enum RequestOutcome {
    /// The queue was full enough; nothing was fetched.
    AlreadyCached { have: usize },
    /// These records were recognized in the response and appended.
    Appended { records: Vec<String> },
    /// The response contained no recognizable record: a warning, not an
    /// error, since nothing was malformed and nothing needs adding.
    NothingFound,
    /// The authority answered with a non-success status; the cycle failed
    /// but the process lives on and retries on the next poll tick.
    FetchRejected { status: u16, body: String },
}

/// Failure of a requester cycle.
#[derive(Debug)]
pub enum RequestError {
    /// The queue's marker lock already exists.
    LockBusy,
    /// The fetch could not be carried out at all.
    Transport { detail: String },
    /// The append failed partway: `unwritten` names every record not yet
    /// durably written, and `message` is the operator diagnostic listing
    /// them.
    AppendFailed { unwritten: Vec<String>, message: String },
}

/// The queue contents after one requester cycle over the given inputs.
pub open spec fn lines_after_request(
    lines: Seq<Seq<char>>,
    locked: bool,
    target: int,
    fetch: FetchOutcome,
    fault: Option<WriteFault>,
) -> Seq<Seq<char>> {
    if locked || lines.len() >= target {
        lines
    } else {
        match fetch {
            FetchOutcome::TransportError { .. } => lines,
            FetchOutcome::Response { status, body } => if status != 200 {
                lines
            } else {
                let recs = spec_extract(body@, RecordKind::PrimenetResult);
                if recs.len() == 0 {
                    lines
                } else {
                    match fault {
                        None => lines + recs,
                        Some(f) => if (f.written as int) < recs.len() {
                            lines + recs.take(f.written as int)
                        } else {
                            lines + recs
                        },
                    }
                }
            },
        }
    }
}

/// No-op short circuit: with the cache target already met, a requester
/// cycle leaves the queue exactly as it was, whatever fetch outcome or
/// write fault might have been observed — no request is ever issued when
/// it would be wasted.
pub proof fn lemma_no_op_short_circuit(
    lines: Seq<Seq<char>>,
    locked: bool,
    target: int,
    fetch: FetchOutcome,
    fault: Option<WriteFault>,
)
    requires
        lines.len() >= target,
    ensures
        lines_after_request(lines, locked, target, fetch, fault) == lines,
{
}

/// Lock and read the queue, then decide: with the target already cached
/// the lock is released at once and no fetch is owed; otherwise the lock
/// stays held and the caller fetches exactly the reported deficit.
pub fn begin_request(target: usize, queue: &mut QueueFile) -> (r: Result<FetchPlan, RequestError>)
    ensures
        final(queue).records == old(queue).records,
        match r {
            Ok(plan) => !old(queue).locked && match plan {
                FetchPlan::AlreadyCached { have } => {
                    &&& have == old(queue).records@.len()
                    &&& old(queue).records@.len() >= target
                    &&& !final(queue).locked
                },
                FetchPlan::Fetch { deficit } => {
                    &&& old(queue).records@.len() < target
                    &&& deficit == target - old(queue).records@.len()
                    &&& final(queue).locked
                },
            },
            Err(e) => {
                &&& old(queue).locked
                &&& final(queue).locked
                &&& e matches RequestError::LockBusy
            },
        },
{
    match read_list_lock(queue) {
        Err(_) => Err(RequestError::LockBusy),
        Ok(lines) => {
            let have = lines.len();
            if have >= target {
                let _ = unlock_file(queue);
                Ok(FetchPlan::AlreadyCached { have })
            } else {
                Ok(FetchPlan::Fetch { deficit: target - have })
            }
        },
    }
}

/// Apply the observed fetch outcome to the locked queue: validate the
/// response, extract the recognized records, append them, and release the
/// lock on every path, success or failure.
pub fn finish_request(queue: &mut QueueFile, fetch: FetchOutcome, fault: Option<WriteFault>) -> (r:
    Result<RequestOutcome, RequestError>)
    requires
        old(queue).locked,
    ensures
        !final(queue).locked,
        match fetch {
            FetchOutcome::TransportError { detail } => {
                &&& final(queue).records == old(queue).records
                &&& (r matches Err(RequestError::Transport { detail: d }) && d@ == detail@)
            },
            FetchOutcome::Response { status, body } => if status != 200 {
                &&& final(queue).records == old(queue).records
                &&& (r matches Ok(RequestOutcome::FetchRejected { status: s, body: b }) && s
                    == status && b@ == body@)
            } else {
                let recs = spec_extract(body@, RecordKind::PrimenetResult);
                if recs.len() == 0 {
                    &&& final(queue).records == old(queue).records
                    &&& r matches Ok(RequestOutcome::NothingFound)
                } else {
                    match fault {
                        None => {
                            &&& final(queue).records.deep_view() == old(
                                queue,
                            ).records.deep_view() + recs
                            &&& (r matches Ok(RequestOutcome::Appended { records })
                                && records.deep_view() == recs)
                        },
                        Some(f) => if (f.written as int) < recs.len() {
                            &&& final(queue).records.deep_view() == old(
                                queue,
                            ).records.deep_view() + recs.take(f.written as int)
                            &&& (r matches Err(RequestError::AppendFailed { unwritten, message })
                                && unwritten.deep_view() == recs.skip(f.written as int)
                                && message@ == spec_jobs_message(
                                f.detail@,
                                "Failed to write to worktodo file."@,
                                recs.skip(f.written as int),
                            ))
                        } else {
                            &&& final(queue).records.deep_view() == old(
                                queue,
                            ).records.deep_view() + recs
                            &&& (r matches Ok(RequestOutcome::Appended { records })
                                && records.deep_view() == recs)
                        },
                    }
                }
            },
        },
{
    match fetch {
        FetchOutcome::TransportError { detail } => {
            let _ = unlock_file(queue);
            Err(RequestError::Transport { detail })
        },
        FetchOutcome::Response { status, body } => {
            if status != 200 {
                let _ = unlock_file(queue);
                Ok(RequestOutcome::FetchRejected { status, body })
            } else {
                let records = extract_records(body.as_str(), RecordKind::PrimenetResult);
                let ghost recs = spec_extract(body@, RecordKind::PrimenetResult);
                if records.len() == 0 {
                    let _ = unlock_file(queue);
                    assert(recs.len() == 0);
                    Ok(RequestOutcome::NothingFound)
                } else {
                    let fault_count: Option<usize> = match &fault {
                        None => None,
                        Some(f) => Some(f.written),
                    };
                    match append_jobs(queue, &records, fault_count) {
                        Ok(_) => {
                            let _ = unlock_file(queue);
                            proof {
                                assert(queue.records.deep_view() =~= old(
                                    queue,
                                ).records.deep_view() + recs);
                            }
                            Ok(RequestOutcome::Appended { records })
                        },
                        Err(unwritten) => {
                            let _ = unlock_file(queue);
                            match fault {
                                None => {
                                    proof {
                                        assert(false);
                                    }
                                    Err(RequestError::LockBusy)
                                },
                                Some(f) => {
                                    proof {
                                        let n = f.written as int;
                                        assert(queue.records.deep_view() =~= old(
                                            queue,
                                        ).records.deep_view() + recs.take(n));
                                        assert(unwritten.deep_view() =~= recs.skip(n));
                                    }
                                    let message = error_msg_with_jobs(
                                        f.detail.as_str(),
                                        "Failed to write to worktodo file.",
                                        &unwritten,
                                    );
                                    Err(RequestError::AppendFailed { unwritten, message })
                                },
                            }
                        },
                    }
                }
            }
        },
    }
}

/// One whole requester cycle over a fetch outcome already at hand: lock
/// and read, short-circuit when enough is cached, otherwise validate,
/// append and release.  The lock state always ends as it began: a lock
/// this cycle acquired is released before it returns.
pub fn request_more(
    target: usize,
    queue: &mut QueueFile,
    fetch: FetchOutcome,
    fault: Option<WriteFault>,
) -> (r: Result<RequestOutcome, RequestError>)
    ensures
        final(queue).locked == old(queue).locked,
        final(queue).records.deep_view() == lines_after_request(
            old(queue).records.deep_view(),
            old(queue).locked,
            target as int,
            fetch,
            fault,
        ),
        old(queue).locked ==> r matches Err(RequestError::LockBusy),
        !old(queue).locked && old(queue).records@.len() >= target ==> (r matches Ok(
            RequestOutcome::AlreadyCached { have },
        ) && have == old(queue).records@.len()),
        !old(queue).locked && old(queue).records@.len() < target ==> match fetch {
            FetchOutcome::TransportError { detail } => r matches Err(
                RequestError::Transport { detail: d },
            ) && d@ == detail@,
            FetchOutcome::Response { status, body } => if status != 200 {
                r matches Ok(RequestOutcome::FetchRejected { status: s, body: b }) && s == status
                    && b@ == body@
            } else {
                let recs = spec_extract(body@, RecordKind::PrimenetResult);
                if recs.len() == 0 {
                    r matches Ok(RequestOutcome::NothingFound)
                } else {
                    match fault {
                        None => r matches Ok(RequestOutcome::Appended { records })
                            && records.deep_view() == recs,
                        Some(f) => if (f.written as int) < recs.len() {
                            r matches Err(RequestError::AppendFailed { unwritten, message })
                                && unwritten.deep_view() == recs.skip(f.written as int)
                                && message@ == spec_jobs_message(
                                f.detail@,
                                "Failed to write to worktodo file."@,
                                recs.skip(f.written as int),
                            )
                        } else {
                            r matches Ok(RequestOutcome::Appended { records })
                                && records.deep_view() == recs
                        },
                    }
                }
            },
        },
{
    match begin_request(target, queue) {
        Err(_) => Err(RequestError::LockBusy),
        Ok(FetchPlan::AlreadyCached { have }) => Ok(RequestOutcome::AlreadyCached { have }),
        Ok(FetchPlan::Fetch { deficit: _ }) => finish_request(queue, fetch, fault),
    }
}

} // verus!
