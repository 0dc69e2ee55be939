//! Result submitter: reconciles the completed-results store against the
//! open assignment queue, classifies each submission response, and removes
//! a result only once the authority has durably accepted it.
//!
//! Reconciliation: a result line that still appears verbatim in the queue
//! is a collision — it cannot simultaneously be an open assignment and a
//! confirmed result — so it is never submitted and stays untouched in both
//! files.  The remaining results are eligible and are processed in
//! results-store order, oldest first; that order is fixed and
//! deterministic.  An accepted result leaves the results store and is
//! appended to the append-only sent log; a rejected or ambiguous response,
//! a transport failure, or an unanswered submission leaves the result in
//! place for a retry on a future cycle, and never aborts the processing of
//! the results after it.

use vstd::prelude::*;
use vstd::string::StrSliceExecFns;
use vstd::string::StringExecFns;
use crate::queue::{append_jobs, lock_file, read_list_lock, unlock_file, QueueFile};
use crate::text::{find_sub, lemma_spec_find_bounds, line_in, spec_find, str_to_chars,
    vec_has_line};

verus! {

/// What the network returned for one submission.
pub enum SubmissionResult {
    /// The authority answered with this body text.
    Response { text: String },
    /// The submission could not be sent or its response not read.
    TransportError { detail: String },
}

/// Classification of one submission response body.
pub enum ResponseClass {
    /// The authority durably accepted the result.
    Accepted,
    /// The authority answered with an explicit error payload; `detail`
    /// carries its text.
    Rejected { detail: String },
    /// Anything else: treated conservatively as not yet submitted.
    Ambiguous,
}

/// Failure to take the locks a submission cycle needs.
#[derive(Clone, Copy, Debug, PartialEq, Eq, Structural)]
pub enum SubmitError {
    /// The queue's marker lock already exists.
    QueueBusy,
    /// The results store's marker lock already exists.
    ResultsBusy,
    /// The sent log's marker lock already exists.
    SentBusy,
}

/// What one submission cycle did.
pub struct SubmitReport {
    /// Results the authority accepted, now moved to the sent log.
    pub accepted: Vec<String>,
    /// Eligible results left in the store for a future retry.
    pub retried: Vec<String>,
    /// Results also present in the queue: logged, skipped, left in place.
    pub collisions: Vec<String>,
}

/// The response body contains the authority's error marker.
pub open spec fn has_error_marker(t: Seq<char>) -> bool {
    spec_find(t, "Error"@, 0) is Some
}

/// The response body contains the acceptance marker.
pub open spec fn has_accepted_marker(t: Seq<char>) -> bool {
    spec_find(t, "Accepted"@, 0) is Some
}

/// The authority's error text: from the first error marker up to the
/// closing tag that follows it, or to the end of the body if none does.
pub open spec fn spec_error_detail(t: Seq<char>) -> Seq<char> {
    match spec_find(t, "Error"@, 0) {
        Some(s) => match spec_find(t, "</div>"@, s) {
            Some(d) => t.subrange(s, d),
            None => t.subrange(s, t.len() as int),
        },
        None => Seq::empty(),
    }
}

/// Classify a submission response body into exactly one of the three
/// outcomes: an error payload wins over anything else, an acceptance
/// marker without one means accepted, and everything else is ambiguous.
pub fn classify_response(text: &str) -> (r: ResponseClass)
    ensures
        has_error_marker(text@) ==> (r matches ResponseClass::Rejected { detail } && detail@
            == spec_error_detail(text@)),
        !has_error_marker(text@) && has_accepted_marker(text@) ==> r matches
            ResponseClass::Accepted,
        !has_error_marker(text@) && !has_accepted_marker(text@) ==> r matches
            ResponseClass::Ambiguous,
{
    let chars = str_to_chars(text);
    let err_pat = str_to_chars("Error");
    match find_sub(&chars, &err_pat, 0) {
        Some(s) => {
            proof {
                lemma_spec_find_bounds(text@, "Error"@, 0);
            }
            let div_pat = str_to_chars("</div>");
            let n: usize = text.unicode_len();
            let d: usize = match find_sub(&chars, &div_pat, s) {
                Some(d) => {
                    proof {
                        lemma_spec_find_bounds(text@, "</div>"@, s as int);
                    }
                    d
                },
                None => n,
            };
            let detail = text.substring_char(s, d);
            ResponseClass::Rejected { detail: String::from_str(detail) }
        },
        None => {
            let acc_pat = str_to_chars("Accepted");
            match find_sub(&chars, &acc_pat, 0) {
                Some(_) => ResponseClass::Accepted,
                None => ResponseClass::Ambiguous,
            }
        },
    }
}

/// The submission outcome counts as durable acceptance: a response body
/// carrying the acceptance marker and no error marker.
pub open spec fn is_accepted_response(o: SubmissionResult) -> bool {
    o matches SubmissionResult::Response { text } && !has_error_marker(text@)
        && has_accepted_marker(text@)
}

/// The results eligible for submission: every result line not also
/// present verbatim in the queue, in results-store order.
pub open spec fn eligible_of(rs: Seq<Seq<char>>, qs: Seq<Seq<char>>) -> Seq<Seq<char>>
    decreases rs.len(),
{
    if rs.len() == 0 {
        Seq::empty()
    } else {
        eligible_of(rs.drop_last(), qs) + if line_in(qs, rs.last()) {
            Seq::<Seq<char>>::empty()
        } else {
            seq![rs.last()]
        }
    }
}

/// The collisions: every result line also present verbatim in the queue,
/// in results-store order.
pub open spec fn collisions_of(rs: Seq<Seq<char>>, qs: Seq<Seq<char>>) -> Seq<Seq<char>>
    decreases rs.len(),
{
    if rs.len() == 0 {
        Seq::empty()
    } else {
        collisions_of(rs.drop_last(), qs) + if line_in(qs, rs.last()) {
            seq![rs.last()]
        } else {
            Seq::<Seq<char>>::empty()
        }
    }
}

/// What stays in the results store after the cycle: collisions always,
/// and each eligible result unless its submission (the `j`-th, in order)
/// was answered and accepted.
pub open spec fn retained_results(
    rs: Seq<Seq<char>>,
    qs: Seq<Seq<char>>,
    outs: Seq<SubmissionResult>,
) -> Seq<Seq<char>>
    decreases rs.len(),
{
    if rs.len() == 0 {
        Seq::empty()
    } else {
        let pre = retained_results(rs.drop_last(), qs, outs);
        let x = rs.last();
        if line_in(qs, x) {
            pre + seq![x]
        } else {
            let j = eligible_of(rs.drop_last(), qs).len() as int;
            if j < outs.len() && is_accepted_response(outs[j]) {
                pre
            } else {
                pre + seq![x]
            }
        }
    }
}

/// What the cycle appends to the sent log: the accepted results, in
/// submission order.
pub open spec fn sent_additions(
    rs: Seq<Seq<char>>,
    qs: Seq<Seq<char>>,
    outs: Seq<SubmissionResult>,
) -> Seq<Seq<char>>
    decreases rs.len(),
{
    if rs.len() == 0 {
        Seq::empty()
    } else {
        let pre = sent_additions(rs.drop_last(), qs, outs);
        let x = rs.last();
        if line_in(qs, x) {
            pre
        } else {
            let j = eligible_of(rs.drop_last(), qs).len() as int;
            if j < outs.len() && is_accepted_response(outs[j]) {
                pre + seq![x]
            } else {
                pre
            }
        }
    }
}

/// The eligible results that stay for a retry: those whose submission was
/// rejected, ambiguous, failed in transport, or never answered.
pub open spec fn retried_of(
    rs: Seq<Seq<char>>,
    qs: Seq<Seq<char>>,
    outs: Seq<SubmissionResult>,
) -> Seq<Seq<char>>
    decreases rs.len(),
{
    if rs.len() == 0 {
        Seq::empty()
    } else {
        let pre = retried_of(rs.drop_last(), qs, outs);
        let x = rs.last();
        if line_in(qs, x) {
            pre
        } else {
            let j = eligible_of(rs.drop_last(), qs).len() as int;
            if j < outs.len() && is_accepted_response(outs[j]) {
                pre
            } else {
                pre + seq![x]
            }
        }
    }
}

/// Reconciliation exclusion: a record that appears in the queue is never
/// among the eligible results, so it is never passed to the submission
/// step.
pub proof fn lemma_reconciliation_exclusion(rs: Seq<Seq<char>>, qs: Seq<Seq<char>>, x: Seq<char>)
    requires
        line_in(qs, x),
    ensures
        !line_in(eligible_of(rs, qs), x),
    decreases rs.len(),
{
    if rs.len() > 0 {
        lemma_reconciliation_exclusion(rs.drop_last(), qs, x);
        let pre = eligible_of(rs.drop_last(), qs);
        let whole = eligible_of(rs, qs);
        if line_in(whole, x) {
            let i = choose|i: int| 0 <= i < whole.len() && whole[i] == x;
            if i < pre.len() {
                assert(pre[i] == x);
            } else {
                assert(!line_in(qs, rs.last()) && rs.last() == x);
            }
        }
    }
}

/// A record present in both the queue and the results store remains in
/// the results store after the cycle, whatever the responses were.
pub proof fn lemma_collision_retained(
    rs: Seq<Seq<char>>,
    qs: Seq<Seq<char>>,
    outs: Seq<SubmissionResult>,
    x: Seq<char>,
)
    requires
        line_in(rs, x),
        line_in(qs, x),
    ensures
        line_in(retained_results(rs, qs, outs), x),
    decreases rs.len(),
{
    if rs.len() > 0 {
        let pre = retained_results(rs.drop_last(), qs, outs);
        let whole = retained_results(rs, qs, outs);
        if rs.last() == x {
            assert(whole == pre + seq![x]);
            assert(whole[whole.len() - 1] == x);
        } else {
            let i = choose|i: int| 0 <= i < rs.len() && rs[i] == x;
            assert(rs.drop_last()[i] == x);
            lemma_collision_retained(rs.drop_last(), qs, outs, x);
            let k = choose|k: int| 0 <= k < pre.len() && pre[k] == x;
            assert(whole[k] == x);
        }
    }
}

/// Split the results into the submission-eligible lines and the
/// collisions still open in the queue, both in results-store order.
pub fn reconcile(results: &Vec<String>, queue: &Vec<String>) -> (r: (Vec<String>, Vec<String>))
    ensures
        r.0.deep_view() == eligible_of(results.deep_view(), queue.deep_view()),
        r.1.deep_view() == collisions_of(results.deep_view(), queue.deep_view()),
{
    let ghost rs = results.deep_view();
    let ghost qs = queue.deep_view();
    let n: usize = results.len();
    let mut eligible: Vec<String> = Vec::new();
    let mut collisions: Vec<String> = Vec::new();
    let mut i: usize = 0;
    while i < n
        invariant
            n == results@.len(),
            rs == results.deep_view(),
            qs == queue.deep_view(),
            i <= n,
            eligible.deep_view() == eligible_of(rs.take(i as int), qs),
            collisions.deep_view() == collisions_of(rs.take(i as int), qs),
        decreases n - i,
    {
        proof {
            assert(rs.take(i + 1).drop_last() =~= rs.take(i as int));
            assert(rs.take(i + 1).last() == rs[i as int]);
        }
        if vec_has_line(queue, &results[i]) {
            collisions.push(results[i].clone());
        } else {
            eligible.push(results[i].clone());
        }
        proof {
            assert(eligible.deep_view() =~= eligible_of(rs.take(i + 1), qs));
            assert(collisions.deep_view() =~= collisions_of(rs.take(i + 1), qs));
        }
        i = i + 1;
    }
    proof {
        assert(rs.take(n as int) =~= rs);
    }
    (eligible, collisions)
}

/// One whole submission cycle over responses already at hand.
///
/// Takes the queue, results-store and sent-log locks (releasing, on a
/// busy failure, every lock this call itself acquired), reconciles,
/// consumes `responses[j]` for the `j`-th eligible result in store order,
/// rewrites the results store to exactly the retained lines, appends the
/// accepted lines to the sent log, and releases all three locks before
/// returning, on every path.  An eligible result with no matching
/// response entry is retained, so a response list cut short by an aborted
/// transfer loses nothing.
pub fn submit_completed(
    queue: &mut QueueFile,
    results: &mut QueueFile,
    sent: &mut QueueFile,
    responses: &Vec<SubmissionResult>,
) -> (r: Result<SubmitReport, SubmitError>)
    ensures
        final(queue).records == old(queue).records,
        final(queue).locked == old(queue).locked,
        final(results).locked == old(results).locked,
        final(sent).locked == old(sent).locked,
        match r {
            Err(e) => final(results).records == old(results).records && final(sent).records == old(
                sent,
            ).records && match e {
                SubmitError::QueueBusy => old(queue).locked,
                SubmitError::ResultsBusy => !old(queue).locked && old(results).locked,
                SubmitError::SentBusy => !old(queue).locked && !old(results).locked && old(
                    sent,
                ).locked,
            },
            Ok(report) => {
                let rs = old(results).records.deep_view();
                let qs = old(queue).records.deep_view();
                &&& !old(queue).locked
                &&& !old(results).locked
                &&& !old(sent).locked
                &&& final(results).records.deep_view() == retained_results(rs, qs, responses@)
                &&& final(sent).records.deep_view() == old(sent).records.deep_view()
                    + sent_additions(rs, qs, responses@)
                &&& report.accepted.deep_view() == sent_additions(rs, qs, responses@)
                &&& report.retried.deep_view() == retried_of(rs, qs, responses@)
                &&& report.collisions.deep_view() == collisions_of(rs, qs)
            },
        },
{
    let qlines = match read_list_lock(queue) {
        Err(_) => {
            return Err(SubmitError::QueueBusy);
        },
        Ok(l) => l,
    };
    let rlines = match read_list_lock(results) {
        Err(_) => {
            let _ = unlock_file(queue);
            return Err(SubmitError::ResultsBusy);
        },
        Ok(l) => l,
    };
    match lock_file(sent) {
        Err(_) => {
            let _ = unlock_file(queue);
            let _ = unlock_file(results);
            return Err(SubmitError::SentBusy);
        },
        Ok(_) => {},
    }
    let ghost rs = old(results).records.deep_view();
    let ghost qs = old(queue).records.deep_view();
    proof {
        assert(rlines.deep_view() =~= rs);
        assert(qlines.deep_view() =~= qs);
    }
    let n: usize = rlines.len();
    let mut retained: Vec<String> = Vec::new();
    let mut accepted: Vec<String> = Vec::new();
    let mut retried: Vec<String> = Vec::new();
    let mut collisions: Vec<String> = Vec::new();
    let mut j: usize = 0;
    let mut i: usize = 0;
    while i < n
        invariant
            n == rlines@.len(),
            rs == rlines.deep_view(),
            qs == qlines.deep_view(),
            i <= n,
            j <= i,
            j == eligible_of(rs.take(i as int), qs).len(),
            retained.deep_view() == retained_results(rs.take(i as int), qs, responses@),
            accepted.deep_view() == sent_additions(rs.take(i as int), qs, responses@),
            retried.deep_view() == retried_of(rs.take(i as int), qs, responses@),
            collisions.deep_view() == collisions_of(rs.take(i as int), qs),
        decreases n - i,
    {
        proof {
            assert(rs.take(i + 1).drop_last() =~= rs.take(i as int));
            assert(rs.take(i + 1).last() == rs[i as int]);
        }
        let line = &rlines[i];
        if vec_has_line(&qlines, line) {
            collisions.push(line.clone());
            retained.push(line.clone());
        } else {
            let answered_accept: bool = if j < responses.len() {
                let is_acc = match &responses[j] {
                    SubmissionResult::Response { text } => match classify_response(text.as_str()) {
                        ResponseClass::Accepted => true,
                        ResponseClass::Rejected { detail: _ } => false,
                        ResponseClass::Ambiguous => false,
                    },
                    SubmissionResult::TransportError { detail: _ } => false,
                };
                assert(is_acc == is_accepted_response(responses@[j as int]));
                is_acc
            } else {
                false
            };
            if answered_accept {
                accepted.push(line.clone());
            } else {
                retained.push(line.clone());
                retried.push(line.clone());
            }
            j = j + 1;
        }
        proof {
            assert(eligible_of(rs.take(i + 1), qs).len() == eligible_of(rs.take(i as int), qs).len()
                + if line_in(qs, rs[i as int]) {
                0int
            } else {
                1int
            });
            assert(retained.deep_view() =~= retained_results(rs.take(i + 1), qs, responses@));
            assert(accepted.deep_view() =~= sent_additions(rs.take(i + 1), qs, responses@));
            assert(retried.deep_view() =~= retried_of(rs.take(i + 1), qs, responses@));
            assert(collisions.deep_view() =~= collisions_of(rs.take(i + 1), qs));
        }
        i = i + 1;
    }
    proof {
        assert(rs.take(n as int) =~= rs);
    }
    results.records = retained;
    let append_result = append_jobs(sent, &accepted, None);
    proof {
        assert(append_result is Ok);
        assert(sent.records.deep_view() =~= old(sent).records.deep_view() + sent_additions(
            rs,
            qs,
            responses@,
        ));
    }
    let _ = unlock_file(queue);
    let _ = unlock_file(results);
    let _ = unlock_file(sent);
    Ok(SubmitReport { accepted, retried, collisions })
}

} // verus!
