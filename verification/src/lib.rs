//! Work-queue synchronization engine for a distributed-computing client.
//!
//! The library keeps a local backlog of compute assignments in step with a
//! remote assignment authority: it plans assignment requests when the local
//! cache runs low, recognizes well-formed job records in free-form response
//! text, reconciles completed results against the open backlog, and applies
//! accept/reject/ambiguous handling to submission responses.  Every queue
//! mutation is mediated by an exclusive marker lock whose acquire/release
//! discipline is stated in the contracts.
//!
//! File and network transfer live outside the library; callers hand in the
//! observed bytes and outcomes as plain values and mirror the queue model
//! back to disk.

mod config;
mod gpu72_work;
mod p95_work;
mod queue;
mod records;
mod requester;
mod scheduler;
mod submitter;
mod text;
mod util;
mod validators;

pub use config::{GeneralOptions, Gpu72Options, Options, PrimenetOptions};
pub use gpu72_work::{Gpu72DCTFWorkOption, Gpu72LLP1WorkOption, Gpu72LLTFWorkOption, Gpu72WorkType};
pub use p95_work::PrimenetWorkType;
pub use queue::{
    append_jobs, clone_lines, lemma_append_report, lock_file, read_list_lock, read_nolock,
    unlock_file, QueueFile, StoreError,
};
pub use records::{extract_records, match_at, spec_extract, RecordKind};
pub use requester::{
    begin_request, finish_request, lemma_no_op_short_circuit, lines_after_request,
    login_succeeded, request_more, FetchOutcome, FetchPlan, RequestError, RequestOutcome,
    WriteFault,
};
pub use scheduler::{poll_once, primenet_cleanup, sleep_seconds, CycleReport};
pub use submitter::{
    classify_response, collisions_of, eligible_of, is_accepted_response,
    lemma_collision_retained, lemma_reconciliation_exclusion, reconcile, retained_results,
    retried_of, sent_additions, submit_completed, ResponseClass, SubmissionResult, SubmitError,
    SubmitReport,
};
pub use text::{find_sub, line_in, str_to_chars, string_eq, vec_has_line};
pub use util::{error_msg_with_jobs, error_msg_with_unwritten};
pub use validators::{
    dec_val, directory_entry_check, f32_validator, gpu72_username_validator, is_float_literal,
    numeric_validator, p95_username_validator,
};
