use csv_source::chunking::determine_chunk_size;

#[test]
fn single_column_single_thread_gets_the_base_budget() {
    assert_eq!(determine_chunk_size(1, 1), 50000);
}

#[test]
fn five_columns_four_threads() {
    assert_eq!(determine_chunk_size(5, 4), 2500);
}

#[test]
fn wide_tables_hit_the_floor() {
    assert_eq!(determine_chunk_size(100, 8), 1000);
}

#[test]
fn degenerate_counts_clamp_to_one() {
    assert_eq!(determine_chunk_size(0, 0), 50000);
    assert_eq!(determine_chunk_size(0, 1), 50000);
    assert_eq!(determine_chunk_size(1, 0), 50000);
}

#[test]
fn huge_counts_hit_the_floor() {
    assert_eq!(determine_chunk_size(usize::MAX, 2), 1000);
    assert_eq!(determine_chunk_size(3, usize::MAX), 1000);
}

#[test]
fn chunk_size_shrinks_as_threads_increase() {
    let t4 = determine_chunk_size(5, 4);
    let t8 = determine_chunk_size(5, 8);
    let t16 = determine_chunk_size(5, 16);
    assert_eq!(t4, 2500);
    assert_eq!(t8, 1250);
    assert_eq!(t16, 1000);
    assert!(t8 < t4);
    assert!(t16 <= t8);
}

#[test]
fn chunk_size_shrinks_as_columns_increase() {
    let c1 = determine_chunk_size(1, 4);
    let c5 = determine_chunk_size(5, 4);
    let c10 = determine_chunk_size(10, 4);
    assert_eq!(c1, 12500);
    assert_eq!(c5, 2500);
    assert_eq!(c10, 1250);
    assert!(c5 < c1);
    assert!(c10 < c5);
}
