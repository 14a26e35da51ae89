//! The one-shot configuration a source operator is built from, and the
//! resolution rules applied to it on first use: an empty projection list
//! means no projection, and the column count that drives chunk sizing is
//! the projected count when a non-empty projection is given, else the
//! full schema width.

use vstd::prelude::*;

verus! {

/// A synthetic positional column injected into every decoded batch on
/// request: each row receives `offset` plus its position.
pub struct RowIndexColumn {
    pub name: String,
    pub offset: u32,
}

/// Everything a source operator needs to know to start decoding. It is
/// consumed exactly once, on the first request for batches; afterwards
/// the operator holds no copy of it.
pub struct SourceConfig {
    /// The file to read.
    pub path: String,
    /// Number of columns in the target decode schema.
    pub schema_width: usize,
    /// Caps the total number of rows decoded, before the process-wide
    /// scan override is applied.
    pub row_limit: Option<usize>,
    /// Restricts decoding to the named columns; an empty list means no
    /// restriction.
    pub projection: Option<Vec<String>>,
    /// Injected positional column, if any.
    pub row_index: Option<RowIndexColumn>,
    /// Selects the buffered decode strategy over the memory-mapped one.
    pub low_memory: bool,
    /// Enables one diagnostic line reporting the chosen chunk size.
    pub verbose: bool,
}

/// A projection list of length zero carries no restriction: it resolves
/// to no projection at all.
pub open spec fn spec_resolved_projection(p: Option<Vec<String>>) -> Option<Vec<String>> {
    match p {
        Option::Some(cols) => if cols@.len() == 0 {
            Option::None
        } else {
            Option::Some(cols)
        },
        Option::None => Option::None,
    }
}

/// The number of columns the decoder will actually produce: the projected
/// count when a non-empty projection is given, else the schema width.
pub open spec fn spec_effective_columns(cfg: SourceConfig) -> int {
    match cfg.projection {
        Option::Some(cols) => if cols@.len() == 0 {
            cfg.schema_width as int
        } else {
            cols@.len() as int
        },
        Option::None => cfg.schema_width as int,
    }
}

/// Resolves a projection list, dropping an empty one.
pub fn resolve_projection(p: Option<Vec<String>>) -> (r: Option<Vec<String>>)
    ensures
        r == spec_resolved_projection(p),
{
    match p {
        Option::Some(cols) => if cols.len() == 0 {
            Option::None
        } else {
            Option::Some(cols)
        },
        Option::None => Option::None,
    }
}

/// A configuration whose projection list is empty behaves exactly like
/// one without a projection: same resolved projection (none), and the
/// same column count feeding the chunk-size computation.
pub proof fn lemma_empty_projection_like_none(with_empty: SourceConfig, without: SourceConfig)
    requires
        with_empty.projection matches Some(cols) && cols@.len() == 0,
        without.projection is None,
        with_empty.schema_width == without.schema_width,
    ensures
        spec_resolved_projection(with_empty.projection) == spec_resolved_projection(
            without.projection,
        ),
        spec_effective_columns(with_empty) == spec_effective_columns(without),
{
}

} // verus!
