//! Operator-facing diagnostics for partial write failures.
//!
//! When an append fails partway, the not-yet-written records must reach the
//! operator verbatim so they can be added back by hand; these builders state
//! the exact text produced.

use vstd::prelude::*;
use vstd::string::StringExecFns;

verus! {

/// The job lines of a diagnostic, one record per line.
pub open spec fn jobs_block(jobs: Seq<Seq<char>>) -> Seq<char>
    decreases jobs.len(),
{
    if jobs.len() == 0 {
        Seq::empty()
    } else {
        jobs_block(jobs.drop_last()) + jobs.last() + "\n"@
    }
}

/// Full text of a diagnostic that lists each unwritten job on its own line.
pub open spec fn spec_jobs_message(
    error_text: Seq<char>,
    msg_start: Seq<char>,
    jobs: Seq<Seq<char>>,
) -> Seq<char> {
    msg_start + "\n\nJobs queued to be written to worktodo:\n"@ + jobs_block(jobs)
        + "\nPlease add these to your worktodo manually.\n\nError: "@ + error_text
}

/// Full text of a diagnostic that carries the unwritten records as one
/// preformatted block.
pub open spec fn spec_unwritten_message(
    error_text: Seq<char>,
    msg_start: Seq<char>,
    unwritten: Seq<char>,
) -> Seq<char> {
    msg_start + "\n\nJobs queued to be written to worktodo:\n"@ + unwritten
        + "\nPlease add these to your worktodo manually.\n\nError: "@ + error_text
}

/// Diagnostic naming every record not yet durably written, in input order,
/// followed by the underlying error text.
pub fn error_msg_with_jobs(error_text: &str, msg_start: &str, unwritten_jobs: &Vec<String>) -> (r:
    String)
    ensures
        r@ == spec_jobs_message(error_text@, msg_start@, unwritten_jobs.deep_view()),
{
    let mut msg = String::from_str(msg_start);
    msg.append("\n\nJobs queued to be written to worktodo:\n");
    let ghost head = msg_start@ + "\n\nJobs queued to be written to worktodo:\n"@;
    let n: usize = unwritten_jobs.len();
    let mut i: usize = 0;
    while i < n
        invariant
            n == unwritten_jobs@.len(),
            i <= n,
            msg@ == head + jobs_block(unwritten_jobs.deep_view().take(i as int)),
        decreases n - i,
    {
        msg.append(unwritten_jobs[i].as_str());
        msg.append("\n");
        proof {
            let jobs = unwritten_jobs.deep_view();
            assert(jobs.take(i + 1).drop_last() =~= jobs.take(i as int));
            assert(jobs.take(i + 1).last() == jobs[i as int]);
            assert(msg@ =~= head + jobs_block(jobs.take(i + 1)));
        }
        i = i + 1;
    }
    proof {
        assert(unwritten_jobs.deep_view().take(n as int) =~= unwritten_jobs.deep_view());
    }
    msg.append("\nPlease add these to your worktodo manually.\n\nError: ");
    msg.append(error_text);
    proof {
        assert(msg@ =~= spec_jobs_message(error_text@, msg_start@, unwritten_jobs.deep_view()));
    }
    msg
}

/// Diagnostic carrying a preformatted block of unwritten records, followed
/// by the underlying error text.
pub fn error_msg_with_unwritten(error_text: &str, msg_start: &str, unwritten: &str) -> (r: String)
    ensures
        r@ == spec_unwritten_message(error_text@, msg_start@, unwritten@),
{
    let mut msg = String::from_str(msg_start);
    msg.append("\n\nJobs queued to be written to worktodo:\n");
    msg.append(unwritten);
    msg.append("\nPlease add these to your worktodo manually.\n\nError: ");
    msg.append(error_text);
    proof {
        assert(msg@ =~= spec_unwritten_message(error_text@, msg_start@, unwritten@));
    }
    msg
}

} // verus!
