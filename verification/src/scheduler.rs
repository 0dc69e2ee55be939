//! Poll scheduling: one requester-then-submitter cycle, and the timing
//! decision between cycles.
//!
//! A poll interval of zero means a single cycle: the caller runs
//! [`poll_once`] exactly once and returns, propagating the first error.
//! A positive interval means a loop: the caller repeats [`poll_once`],
//! logging and swallowing per-cycle failures, and sleeps between cycles
//! for [`sleep_seconds`] of the interval and the elapsed time.

use vstd::prelude::*;
use crate::queue::QueueFile;
use crate::records::{spec_extract, RecordKind};
use crate::requester::{lines_after_request, request_more, FetchOutcome, RequestError,
    RequestOutcome, WriteFault};
use crate::submitter::{collisions_of, retained_results, retried_of, sent_additions,
    submit_completed, SubmissionResult, SubmitError, SubmitReport};

verus! {

/// What one poll cycle did: the requester's outcome, and the submitter's
/// when the requester did not fail.
pub struct CycleReport {
    /// The requester's outcome.
    pub request: Result<RequestOutcome, RequestError>,
    /// The submitter's outcome; `None` exactly when the requester failed
    /// and the cycle stopped with its error.
    pub submit: Option<Result<SubmitReport, SubmitError>>,
}

/// One poll cycle: exactly one requester run over `fetch`, then — unless
/// the requester failed — exactly one submitter run over `responses`.
/// Every lock either run acquires is released before this returns: all
/// three lock states end as they began.
pub fn poll_once(
    target: usize,
    queue: &mut QueueFile,
    results: &mut QueueFile,
    sent: &mut QueueFile,
    fetch: FetchOutcome,
    fault: Option<WriteFault>,
    responses: &Vec<SubmissionResult>,
) -> (r: CycleReport)
    ensures
        r.submit is Some <==> r.request is Ok,
        final(queue).locked == old(queue).locked,
        final(results).locked == old(results).locked,
        final(sent).locked == old(sent).locked,
        final(queue).records.deep_view() == lines_after_request(
            old(queue).records.deep_view(),
            old(queue).locked,
            target as int,
            fetch,
            fault,
        ),
        old(queue).locked ==> r.request matches Err(RequestError::LockBusy),
        !old(queue).locked && old(queue).records@.len() >= target ==> (r.request matches Ok(
            RequestOutcome::AlreadyCached { have },
        ) && have == old(queue).records@.len()),
        !old(queue).locked && old(queue).records@.len() < target ==> match fetch {
            FetchOutcome::TransportError { detail } => r.request matches Err(
                RequestError::Transport { detail: d },
            ) && d@ == detail@,
            FetchOutcome::Response { status, body } => if status != 200 {
                r.request matches Ok(RequestOutcome::FetchRejected { status: s, body: b }) && s
                    == status && b@ == body@
            } else {
                let recs = spec_extract(body@, RecordKind::PrimenetResult);
                if recs.len() == 0 {
                    r.request matches Ok(RequestOutcome::NothingFound)
                } else {
                    match fault {
                        None => r.request matches Ok(RequestOutcome::Appended { records })
                            && records.deep_view() == recs,
                        Some(f) => if (f.written as int) < recs.len() {
                            r.request matches Err(
                                RequestError::AppendFailed { unwritten, message: _ },
                            ) && unwritten.deep_view() == recs.skip(f.written as int)
                        } else {
                            r.request matches Ok(RequestOutcome::Appended { records })
                                && records.deep_view() == recs
                        },
                    }
                }
            },
        },
        r.request is Err ==> final(results).records == old(results).records && final(sent).records
            == old(sent).records,
        match r.submit {
            None => true,
            Some(sub) => {
                let qmid = lines_after_request(
                    old(queue).records.deep_view(),
                    old(queue).locked,
                    target as int,
                    fetch,
                    fault,
                );
                let rs = old(results).records.deep_view();
                match sub {
                    Ok(report) => {
                        &&& !old(results).locked
                        &&& !old(sent).locked
                        &&& final(results).records.deep_view() == retained_results(
                            rs,
                            qmid,
                            responses@,
                        )
                        &&& final(sent).records.deep_view() == old(sent).records.deep_view()
                            + sent_additions(rs, qmid, responses@)
                        &&& report.accepted.deep_view() == sent_additions(rs, qmid, responses@)
                        &&& report.retried.deep_view() == retried_of(rs, qmid, responses@)
                        &&& report.collisions.deep_view() == collisions_of(rs, qmid)
                    },
                    Err(e) => {
                        &&& final(results).records == old(results).records
                        &&& final(sent).records == old(sent).records
                        &&& match e {
                            SubmitError::QueueBusy => false,
                            SubmitError::ResultsBusy => old(results).locked,
                            SubmitError::SentBusy => !old(results).locked && old(sent).locked,
                        }
                    },
                }
            },
        },
{
    let request = request_more(target, queue, fetch, fault);
    match &request {
        Err(_) => CycleReport { request, submit: None },
        Ok(_) => {
            let submit = submit_completed(queue, results, sent, responses);
            CycleReport { request, submit: Some(submit) }
        },
    }
}

/// Teardown hook for a finished or failed Primenet run.  No resource
/// outlives a cycle — every lock is released before its cycle returns —
/// so there is nothing to do; the hook stays so callers have a stable
/// place to invoke on the error path.
pub fn primenet_cleanup(primenet_options: crate::config::PrimenetOptions) {
    let _ = primenet_options;
}

/// How long the poll loop should sleep after a cycle: the configured
/// interval minus the time the cycle took, clamped to zero when the cycle
/// overran the interval so the subtraction can never underflow.
pub fn sleep_seconds(interval: u64, elapsed: u64) -> (r: u64)
    ensures
        r == if elapsed >= interval {
            0u64
        } else {
            (interval - elapsed) as u64
        },
{
    if elapsed >= interval {
        0
    } else {
        interval - elapsed
    }
}

} // verus!
