use std::io::Write;
use std::sync::Arc;

use csv_source::config::SourceConfig;
use csv_source::indexing::IndexAllocator;
use csv_source::source::{CsvSource, DecodeMode, SourceError, SourceResult};
use polars_io::csv::read::CsvReadOptions;

fn write_five_column_csv(rows: usize) -> tempfile::NamedTempFile {
    let mut file = tempfile::NamedTempFile::new().unwrap();
    let mut text = String::from("a,b,c,d,e\n");
    for i in 0..rows {
        text.push_str(&format!("{},{},{},{},{}\n", i, i + 1, i + 2, i + 3, i + 4));
    }
    file.write_all(text.as_bytes()).unwrap();
    file.flush().unwrap();
    file
}

fn config_for(path: &str) -> SourceConfig {
    SourceConfig {
        path: String::from(path),
        schema_width: 5,
        row_limit: None,
        projection: None,
        row_index: None,
        low_memory: false,
        verbose: false,
    }
}

#[derive(Debug)]
struct RunOutcome {
    /// One entry per emitted chunk: its index, row count and column count.
    chunks: Vec<(u64, usize, usize)>,
    mode: DecodeMode,
    chunk_size: usize,
    data_results: usize,
}

/// Drives one operator to completion the way the pipeline driver does:
/// construct, initialize on first use, open the file, then feed decoder
/// responses through the operator until it reports the end of the input.
fn run_source(cfg: SourceConfig, alloc: &mut IndexAllocator) -> Result<RunOutcome, SourceError> {
    let mut source = CsvSource::new(cfg)?;
    assert!(source.needs_init());
    let plan = source.begin_init();
    let columns: Option<Arc<[String]>> = plan.projection.clone().map(Arc::from);
    let options = CsvReadOptions::default()
        .with_has_header(true)
        .with_skip_rows_after_header(0)
        .with_n_rows(plan.row_limit)
        .with_columns(columns)
        .with_rechunk(false)
        .with_low_memory(matches!(plan.mode, DecodeMode::Buffered))
        .with_path(Some(plan.path.clone()));
    let mut reader = match options.try_into_reader_with_file_path(None) {
        Ok(reader) => reader,
        Err(e) => return Err(source.init_failed(&e)),
    };
    let mut batched = match reader.batched_borrowed() {
        Ok(batched) => batched,
        Err(e) => return Err(source.init_failed(&e)),
    };
    source.commit_init();
    let mut chunks: Vec<(u64, usize, usize)> = Vec::new();
    let mut data_results = 0usize;
    loop {
        let decoded = batched.next_batches(plan.batch_request_size);
        match source.get_batches(alloc, decoded)? {
            SourceResult::Finished => break,
            SourceResult::GotMoreData(group) => {
                data_results += 1;
                for chunk in group {
                    chunks.push((chunk.chunk_index, chunk.data.height(), chunk.data.width()));
                }
            },
        }
    }
    Ok(RunOutcome { chunks, mode: plan.mode, chunk_size: plan.chunk_size, data_results })
}

#[test]
fn ten_thousand_rows_arrive_complete_and_memory_mapped() {
    let file = write_five_column_csv(10000);
    let cfg = config_for(file.path().to_str().unwrap());
    let mut alloc = IndexAllocator::new(0);
    let outcome = run_source(cfg, &mut alloc).unwrap();
    assert_eq!(outcome.mode, DecodeMode::MemoryMapped);
    assert!(outcome.data_results >= 1);
    let total: usize = outcome.chunks.iter().map(|c| c.1).sum();
    assert_eq!(total, 10000);
    // One operator alone on its allocator: the indices are exactly
    // 0, 1, 2, ... in emission order.
    for (position, chunk) in outcome.chunks.iter().enumerate() {
        assert_eq!(chunk.0, position as u64);
    }
}

#[test]
fn low_memory_run_uses_the_buffered_path_and_loses_nothing() {
    let file = write_five_column_csv(2000);
    let mut cfg = config_for(file.path().to_str().unwrap());
    cfg.low_memory = true;
    let mut alloc = IndexAllocator::new(0);
    let outcome = run_source(cfg, &mut alloc).unwrap();
    assert_eq!(outcome.mode, DecodeMode::Buffered);
    let total: usize = outcome.chunks.iter().map(|c| c.1).sum();
    assert_eq!(total, 2000);
}

#[test]
fn row_limit_caps_the_total_exactly() {
    let file = write_five_column_csv(10000);
    let mut cfg = config_for(file.path().to_str().unwrap());
    cfg.row_limit = Some(100);
    let mut alloc = IndexAllocator::new(0);
    let outcome = run_source(cfg, &mut alloc).unwrap();
    let total: usize = outcome.chunks.iter().map(|c| c.1).sum();
    assert_eq!(total, 100);
}

#[test]
fn empty_projection_decodes_every_schema_column() {
    let file = write_five_column_csv(500);
    let mut with_empty = config_for(file.path().to_str().unwrap());
    with_empty.projection = Some(Vec::new());
    let without = config_for(file.path().to_str().unwrap());
    let mut alloc = IndexAllocator::new(0);
    let outcome_a = run_source(with_empty, &mut alloc).unwrap();
    let outcome_b = run_source(without, &mut alloc).unwrap();
    assert_eq!(outcome_a.chunk_size, outcome_b.chunk_size);
    for chunk in outcome_a.chunks.iter().chain(outcome_b.chunks.iter()) {
        assert_eq!(chunk.2, 5);
    }
    let total_a: usize = outcome_a.chunks.iter().map(|c| c.1).sum();
    let total_b: usize = outcome_b.chunks.iter().map(|c| c.1).sum();
    assert_eq!(total_a, 500);
    assert_eq!(total_b, 500);
}

#[test]
fn a_real_projection_narrows_the_columns() {
    let file = write_five_column_csv(300);
    let mut cfg = config_for(file.path().to_str().unwrap());
    cfg.projection = Some(vec![String::from("a"), String::from("c")]);
    let mut alloc = IndexAllocator::new(0);
    let outcome = run_source(cfg, &mut alloc).unwrap();
    let total: usize = outcome.chunks.iter().map(|c| c.1).sum();
    assert_eq!(total, 300);
    for chunk in &outcome.chunks {
        assert_eq!(chunk.2, 2);
    }
}

#[test]
fn a_missing_file_fails_only_at_first_use() {
    let cfg = config_for("/no/such/directory/missing.csv");
    let mut alloc = IndexAllocator::new(0);
    // Construction and planning succeed; the failure surfaces when the
    // driver opens the file, as the unified error kind.
    let err = run_source(cfg, &mut alloc).unwrap_err();
    assert!(!err.message.is_empty());
}
