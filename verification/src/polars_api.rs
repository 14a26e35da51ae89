//! The narrow trusted interface to the polars crates.
//!
//! Everything here is believed, not proved: each item's contract states
//! only what the called crate's source shows. The decoded batches travel
//! through the library as opaque `DataFrame` values; the library never
//! looks inside them.

use vstd::prelude::*;

verus! {

/// One decoded, column-oriented batch, produced by the polars reader and
/// carried through untouched.
#[verifier::external_type_specification]
#[verifier::external_body]
pub struct ExDataFrame(polars_core::frame::DataFrame);

/// One named column of a batch. The library never reads one; the type is
/// declared only because `DataFrame`'s own interface mentions it.
#[verifier::external_type_specification]
#[verifier::external_body]
pub struct ExSeries(polars_core::series::Series);

/// The unified error of the polars crates, raised on open, parse-setup
/// and decode failures alike.
#[verifier::external_type_specification]
#[verifier::external_body]
pub struct ExPolarsError(polars_core::error::PolarsError);

/// Relies on rayon's `ThreadPool::current_num_threads`, called on the
/// shared polars worker pool: the pool is always built with at least one
/// worker thread.
#[verifier::external_body]
pub fn worker_pool_thread_count() -> (r: usize)
    ensures
        1 <= r,
{
    polars_core::POOL.current_num_threads()
}

/// Relies on `polars_plan::global::_set_n_rows_for_scan`: the effective
/// scan row limit is the thread-local fetch override when one is set,
/// else the limit that was passed in. Which of the two comes back depends
/// on ambient state, so only the disjunction is stated.
#[verifier::external_body]
pub fn scan_row_limit(n_rows: Option<usize>) -> (r: Option<usize>)
    ensures
        r == n_rows || r is Some,
        n_rows is Some ==> r is Some,
{
    polars_plan::global::_set_n_rows_for_scan(n_rows)
}

/// Relies on `PolarsError`'s display implementation for a descriptive
/// message; nothing is claimed about its content.
#[verifier::external_body]
pub fn polars_error_message(e: &polars_core::error::PolarsError) -> String {
    format!("{}", e)
}

} // verus!
