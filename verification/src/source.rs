//! The source operator itself: lazy first-use initialization, delegation
//! to the batched decoder, and stamping of globally ordered chunk indices
//! onto everything it emits.
//!
//! The operator performs no file handling of its own. An unverified
//! driver owns the reader and the batched decoder (the decoder borrows
//! from the reader, so scope order already releases the decoder first)
//! and moves plain values between them and the operator: the operator
//! decides, the driver acts.

use vstd::prelude::*;
use polars_core::error::PolarsError;
use polars_core::frame::DataFrame;
use crate::chunking::chunk_size_spec;
use crate::chunking::determine_chunk_size;
use crate::config::RowIndexColumn;
use crate::config::SourceConfig;
use crate::config::resolve_projection;
use crate::config::spec_effective_columns;
use crate::config::spec_resolved_projection;
use crate::indexing::IndexAllocator;
use crate::indexing::stamp_indices;
use crate::polars_api::polars_error_message;
use crate::polars_api::scan_row_limit;
use crate::polars_api::worker_pool_thread_count;

verus! {

/// The two interchangeable batched-decoding strategies. The choice is
/// fixed at initialization and never changes for the lifetime of the
/// operator.
#[derive(Clone, Copy, PartialEq, Eq, Structural, Debug)]
pub enum DecodeMode {
    /// Read through a memory-mapped view of the file: no copy, higher
    /// peak mapped memory.
    MemoryMapped,
    /// Read through explicit sequential reads into owned buffers: copy
    /// overhead, lower peak memory.
    Buffered,
}

/// The unified error kind of the operator: open, parse-setup and decode
/// failures all surface as one descriptive message.
#[derive(Debug)]
pub struct SourceError {
    pub message: String,
}

/// One emitted chunk: a decoded batch and its globally ordered index.
#[derive(Debug)]
pub struct DataChunk {
    pub chunk_index: u64,
    pub data: DataFrame,
}

/// What one request for batches produced: more data, or end of input.
#[derive(Debug)]
pub enum SourceResult {
    /// The input is exhausted; no further data will come.
    Finished,
    /// An ordered group of freshly decoded, index-stamped chunks.
    GotMoreData(Vec<DataChunk>),
}

/// Where an operator stands in its life: not yet touched, in the middle
/// of its one-time initialization (the driver is opening the file), ready
/// to decode, or terminally failed during initialization.
#[derive(Clone, Copy)]
pub enum OperatorState {
    Uninitialized,
    Opening,
    Running,
    InitFailed,
}

/// Everything the driver needs to open the file and build the decoder:
/// the outcome of consuming the configuration on first use.
pub struct InitPlan {
    /// The file to open — only now, never at construction time.
    pub path: String,
    /// The resolved projection: an empty list has become no projection.
    pub projection: Option<Vec<String>>,
    /// The effective row limit, after the process-wide scan override.
    pub row_limit: Option<usize>,
    /// Injected positional column, if any.
    pub row_index: Option<RowIndexColumn>,
    /// Rows per decoded batch.
    pub chunk_size: usize,
    /// The decode strategy the low-memory flag selected.
    pub mode: DecodeMode,
    /// How many parallel batches to request per call: the worker-pool
    /// thread count seen at construction.
    pub batch_request_size: usize,
    /// Whether to log one diagnostic line with the chosen chunk size.
    pub verbose: bool,
}

/// How many batches a decoder response carries.
pub open spec fn decoded_batch_count(decoded: Result<Option<Vec<DataFrame>>, PolarsError>) -> int {
    match decoded {
        Result::Ok(Option::Some(batches)) => batches@.len() as int,
        _ => 0,
    }
}

/// A source operator over one delimited text file. Construction performs
/// no input or output; the file is opened on the first request for
/// batches, and the one-shot configuration is consumed exactly then.
pub struct CsvSource {
    config: Option<SourceConfig>,
    state: OperatorState,
    n_threads: usize,
    mode: Option<DecodeMode>,
}

impl CsvSource {
    /// The configuration still held: present before initialization,
    /// consumed by it.
    pub closed spec fn spec_config(&self) -> Option<SourceConfig> {
        self.config
    }

    /// The decode strategy chosen at initialization, once there is one.
    pub closed spec fn spec_mode(&self) -> Option<DecodeMode> {
        self.mode
    }

    /// The worker-pool thread count seen at construction.
    pub closed spec fn spec_n_threads(&self) -> usize {
        self.n_threads
    }

    pub closed spec fn is_uninitialized(&self) -> bool {
        self.state is Uninitialized
    }

    pub closed spec fn is_opening(&self) -> bool {
        self.state is Opening
    }

    pub closed spec fn is_running(&self) -> bool {
        self.state is Running
    }

    pub closed spec fn is_init_failed(&self) -> bool {
        self.state is InitFailed
    }

    /// The operator's internal invariant: the configuration is held
    /// exactly until initialization consumes it, a decode mode exists
    /// exactly from initialization on, and the recorded thread count is
    /// a real pool size.
    pub closed spec fn wf(&self) -> bool {
        &&& 1 <= self.n_threads
        &&& (self.state is Uninitialized ==> self.config is Some && self.mode is None)
        &&& (self.state is Opening ==> self.config is None && self.mode is Some)
        &&& (self.state is Running ==> self.config is None && self.mode is Some)
        &&& (self.state is InitFailed ==> self.config is None)
    }

    /// Builds an operator around a one-shot configuration. No file is
    /// touched here: many operators can be constructed before any of
    /// them runs without exhausting file descriptors. Construction never
    /// fails.
    pub fn new(config: SourceConfig) -> (r: Result<CsvSource, SourceError>)
        ensures
            r matches Ok(source) && source.wf() && source.is_uninitialized()
                && source.spec_config() == Some(config) && source.spec_mode() is None,
    {
        let n_threads = worker_pool_thread_count();
        Result::Ok(
            CsvSource {
                config: Option::Some(config),
                state: OperatorState::Uninitialized,
                n_threads,
                mode: Option::None,
            },
        )
    }

    /// Whether the one-time initialization still has to run before
    /// batches can be requested.
    pub fn needs_init(&self) -> (r: bool)
        ensures
            r == self.is_uninitialized(),
    {
        match self.state {
            OperatorState::Uninitialized => true,
            _ => false,
        }
    }

    /// The decode strategy in force, once initialization chose one.
    pub fn decode_mode(&self) -> (r: Option<DecodeMode>)
        ensures
            r == self.spec_mode(),
    {
        self.mode
    }

    /// Consumes the configuration — exactly once, on first use — and
    /// resolves everything the driver needs to open the file: the
    /// projection (an empty list counts as none), the effective row
    /// limit under the process-wide scan override, the chunk size for
    /// the projected width and thread count, and the decode strategy the
    /// low-memory flag selects. Afterwards the operator holds no piece
    /// of the configuration.
    pub fn begin_init(&mut self) -> (plan: InitPlan)
        requires
            old(self).wf(),
            old(self).is_uninitialized(),
        ensures
            final(self).wf(),
            final(self).is_opening(),
            final(self).spec_config() is None,
            final(self).spec_n_threads() == old(self).spec_n_threads(),
            final(self).spec_mode() == Some(plan.mode),
            old(self).spec_config() matches Some(cfg) ==> {
                &&& plan.mode == (if cfg.low_memory {
                    DecodeMode::Buffered
                } else {
                    DecodeMode::MemoryMapped
                })
                &&& plan.projection == spec_resolved_projection(cfg.projection)
                &&& plan.chunk_size as int == chunk_size_spec(
                    spec_effective_columns(cfg),
                    old(self).spec_n_threads() as int,
                )
                &&& plan.path == cfg.path
                &&& plan.row_index == cfg.row_index
                &&& plan.verbose == cfg.verbose
                &&& plan.batch_request_size == old(self).spec_n_threads()
                &&& (plan.row_limit == cfg.row_limit || plan.row_limit is Some)
                &&& (cfg.row_limit is Some ==> plan.row_limit is Some)
            },
    {
        let cfg = self.config.take().unwrap();
        let SourceConfig { path, schema_width, row_limit, projection, row_index, low_memory, verbose } =
            cfg;
        let n_cols: usize = match &projection {
            Option::Some(cols) => if cols.len() > 0 {
                cols.len()
            } else {
                schema_width
            },
            Option::None => schema_width,
        };
        let effective_row_limit = scan_row_limit(row_limit);
        let chunk_size = determine_chunk_size(n_cols, self.n_threads);
        let mode = if low_memory {
            DecodeMode::Buffered
        } else {
            DecodeMode::MemoryMapped
        };
        self.mode = Option::Some(mode);
        self.state = OperatorState::Opening;
        InitPlan {
            path,
            projection: resolve_projection(projection),
            row_limit: effective_row_limit,
            row_index,
            chunk_size,
            mode,
            batch_request_size: self.n_threads,
            verbose,
        }
    }

    /// The driver reports that the file was opened and the decoder was
    /// built: the operator is ready to decode. Nothing was committed
    /// before this point.
    pub fn commit_init(&mut self)
        requires
            old(self).wf(),
            old(self).is_opening(),
        ensures
            final(self).wf(),
            final(self).is_running(),
            final(self).spec_mode() == old(self).spec_mode(),
            final(self).spec_n_threads() == old(self).spec_n_threads(),
    {
        self.state = OperatorState::Running;
    }

    /// The driver reports that opening the file or building the decoder
    /// failed. The failure is terminal for this operator — it will not
    /// retry — and surfaces as the unified error kind.
    pub fn init_failed(&mut self, error: &PolarsError) -> (r: SourceError)
        requires
            old(self).wf(),
            old(self).is_opening(),
        ensures
            final(self).wf(),
            final(self).is_init_failed(),
    {
        self.state = OperatorState::InitFailed;
        SourceError { message: polars_error_message(error) }
    }

    /// Turns one decoder response into the operator's answer: an error is
    /// passed on as the unified error kind, an empty response means the
    /// input is exhausted, and a group of decoded batches is emitted in
    /// order, each stamped with one index of a freshly reserved
    /// contiguous range. Every batch handed in comes back exactly once,
    /// unchanged and in order; the allocator advances past the range
    /// exactly when data is emitted.
    pub fn get_batches(
        &self,
        allocator: &mut IndexAllocator,
        decoded: Result<Option<Vec<DataFrame>>, PolarsError>,
    ) -> (r: Result<SourceResult, SourceError>)
        requires
            self.wf(),
            self.is_running(),
            old(allocator).spec_next() + decoded_batch_count(decoded) <= u64::MAX,
        ensures
            r is Err <==> decoded is Err,
            decoded is Err ==> *final(allocator) == *old(allocator),
            decoded matches Ok(None) ==> r matches Ok(SourceResult::Finished)
                && *final(allocator) == *old(allocator),
            decoded matches Ok(Some(batches)) ==> {
                &&& final(allocator).spec_next() == old(allocator).spec_next() + batches@.len()
                &&& r matches Ok(SourceResult::GotMoreData(chunks))
                    && chunks@.len() == batches@.len()
                    && (forall|i: int| #![trigger chunks@[i]]
                        0 <= i < batches@.len() ==> chunks@[i].chunk_index == old(
                            allocator,
                        ).spec_next() + i && chunks@[i].data == batches@[i])
                    && chunks@.map_values(|c: DataChunk| c.chunk_index) == stamp_indices(
                        old(allocator).spec_next(),
                        batches@.len() as int,
                    )
            },
    {
        match decoded {
            Result::Err(e) => Result::Err(SourceError { message: polars_error_message(&e) }),
            Result::Ok(Option::None) => Result::Ok(SourceResult::Finished),
            Result::Ok(Option::Some(batches)) => {
                let mut remaining = batches;
                let ghost original = remaining@;
                let count = remaining.len() as u64;
                let start = allocator.reserve(count);
                let mut chunks: Vec<DataChunk> = Vec::new();
                while remaining.len() > 0
                    invariant
                        chunks@.len() + remaining@.len() == original.len(),
                        remaining@ == original.subrange(
                            chunks@.len() as int,
                            original.len() as int,
                        ),
                        start == old(allocator).spec_next(),
                        start + original.len() <= u64::MAX,
                        forall|i: int| #![trigger chunks@[i]]
                            0 <= i < chunks@.len() ==> chunks@[i].chunk_index == start + i
                                && chunks@[i].data == original[i],
                    decreases remaining@.len(),
                {
                    let index_offset = chunks.len() as u64;
                    proof {
                        assert(remaining@[0] == original[chunks@.len() as int]);
                    }
                    let ghost before = remaining@;
                    let ghost chunks_before = chunks@;
                    let df = remaining.remove(0);
                    chunks.push(DataChunk { chunk_index: start + index_offset, data: df });
                    proof {
                        let k = chunks_before.len() as int;
                        assert forall|i: int|
                            0 <= i < chunks@.len() implies chunks@[i].chunk_index == start + i
                            && chunks@[i].data == original[i] by {
                            if i < k {
                                assert(chunks@[i] == chunks_before[i]);
                            }
                        }
                        assert forall|j: int| 0 <= j < remaining@.len() implies remaining@[j]
                            == original[chunks@.len() + j] by {
                            assert(remaining@[j] == before[j + 1]);
                        }
                        assert(remaining@ =~= original.subrange(
                            chunks@.len() as int,
                            original.len() as int,
                        ));
                    }
                }
                proof {
                    let stamped = stamp_indices(start, original.len() as int);
                    assert forall|i: int|
                        0 <= i < original.len() implies chunks@.map_values(
                        |c: DataChunk| c.chunk_index,
                    )[i] == stamped[i] by {
                        assert(chunks@[i].chunk_index == start + i);
                    }
                    assert(chunks@.map_values(|c: DataChunk| c.chunk_index) =~= stamped);
                }
                Result::Ok(SourceResult::GotMoreData(chunks))
            },
        }
    }

    /// The fixed name identifying this operator kind in diagnostics.
    pub fn name(&self) -> (r: &'static str)
        ensures
            r@ == "csv"@,
    {
        "csv"
    }
}

} // verus!
