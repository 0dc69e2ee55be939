//! The resolved runtime configuration the command-line layer hands to the
//! core: immutable for one run and consumed read-only.

use vstd::prelude::*;
use crate::gpu72_work::Gpu72WorkType;
use crate::p95_work::PrimenetWorkType;

verus! {

/// Settings common to both authorities.
#[derive(Debug)]
pub struct GeneralOptions {
    /// Directory holding the queue, results and sent-log files.
    pub work_directory: String,
    /// Target cache size: the minimum number of assignments to keep queued.
    pub num_cache: usize,
    /// Poll interval in seconds; zero means one single cycle.
    pub timeout: usize,
}

/// A resolved Primenet run.
#[derive(Debug)]
pub struct PrimenetOptions {
    /// Username and password.
    pub credentials: (String, String),
    /// The kind of work to request.
    pub work_type: PrimenetWorkType,
    /// Common settings.
    pub general_options: GeneralOptions,
}

/// A resolved GPU-authority run.
#[derive(Debug)]
pub struct Gpu72Options {
    /// Optional Primenet fallback credentials.
    pub primenet_credentials: Option<(String, String)>,
    /// GPU-authority username and password.
    pub gpu72_credentials: (String, String),
    /// The kind of work to request, with its option.
    pub work_type: Gpu72WorkType,
    /// Upper limit of the exponent to pledge.
    pub max_exp: u8,
    /// Common settings.
    pub general_options: GeneralOptions,
}

/// Which authority this run talks to, with its settings.
#[derive(Debug)]
pub enum Options {
    Primenet(PrimenetOptions),
    Gpu72(Gpu72Options),
}

} // verus!
