//! Chunk-size determination.
//!
//! The size of one decoded batch scales inversely with both the number of
//! projected columns and the number of worker threads, so that the
//! aggregate memory held by all in-flight batches stays bounded when many
//! threads each hold one batch. The size never drops below a fixed floor,
//! so decode overhead per batch stays bounded as well.

use vstd::prelude::*;
use vstd::arithmetic::div_mod::{lemma_div_is_ordered_by_denominator, lemma_fundamental_div_mod};
use vstd::arithmetic::mul::{lemma_mul_inequality, lemma_mul_is_distributive_add,
    lemma_mul_is_distributive_sub_other_way, lemma_mul_strict_inequality, lemma_mul_upper_bound};

verus! {

/// Rows per batch granted to a single column decoded by a single thread.
pub const CHUNK_SIZE_BASE: u64 = 50000;

/// Lower bound on rows per batch.
pub const CHUNK_SIZE_FLOOR: u64 = 1000;

/// A count of columns or threads, clamped so that degenerate inputs
/// (an empty schema, an empty pool) behave like a count of one.
pub open spec fn clamp_pos(n: int) -> int {
    if n < 1 {
        1
    } else {
        n
    }
}

/// Rows per batch for the given column count and thread count: the base
/// budget divided by the total decode load, never below the floor.
pub open spec fn chunk_size_spec(n_cols: int, n_threads: int) -> int {
    let load = clamp_pos(n_cols) * clamp_pos(n_threads);
    let raw = (CHUNK_SIZE_BASE as int) / load;
    if raw < CHUNK_SIZE_FLOOR as int {
        CHUNK_SIZE_FLOOR as int
    } else {
        raw
    }
}

/// The computed size always lies between the floor and the base budget;
/// in particular it is a positive row count.
pub proof fn lemma_chunk_size_bounds(n_cols: int, n_threads: int)
    ensures
        CHUNK_SIZE_FLOOR as int <= chunk_size_spec(n_cols, n_threads),
        chunk_size_spec(n_cols, n_threads) <= CHUNK_SIZE_BASE as int,
{
    let load = clamp_pos(n_cols) * clamp_pos(n_threads);
    assert(1 <= load) by {
        lemma_mul_strict_inequality(0, clamp_pos(n_cols), clamp_pos(n_threads));
    }
    lemma_div_is_ordered_by_denominator(CHUNK_SIZE_BASE as int, 1, load);
}

/// Rows per batch, computed from the number of columns actually decoded
/// and the number of worker threads that may each hold one batch.
pub fn determine_chunk_size(n_cols: usize, n_threads: usize) -> (r: usize)
    ensures
        r as int == chunk_size_spec(n_cols as int, n_threads as int),
        CHUNK_SIZE_FLOOR as int <= r as int <= CHUNK_SIZE_BASE as int,
{
    proof {
        lemma_chunk_size_bounds(n_cols as int, n_threads as int);
    }
    let c: u64 = if n_cols < 1 { 1 } else { n_cols as u64 };
    let t: u64 = if n_threads < 1 { 1 } else { n_threads as u64 };
    if c >= CHUNK_SIZE_BASE || t >= CHUNK_SIZE_BASE {
        proof {
            assert(c as int * t as int >= CHUNK_SIZE_BASE as int) by {
                if c >= CHUNK_SIZE_BASE {
                    lemma_mul_inequality(1, t as int, c as int);
                } else {
                    lemma_mul_inequality(1, c as int, t as int);
                }
            }
            lemma_div_is_ordered_by_denominator(
                CHUNK_SIZE_BASE as int,
                CHUNK_SIZE_BASE as int,
                c as int * t as int,
            );
            assert((CHUNK_SIZE_BASE as int) / CHUNK_SIZE_BASE as int == 1);
        }
        return CHUNK_SIZE_FLOOR as usize;
    }
    proof {
        assert(0 < c as int * t as int) by {
            lemma_mul_strict_inequality(0, c as int, t as int);
        }
        lemma_mul_upper_bound(
            c as int,
            CHUNK_SIZE_BASE as int - 1,
            t as int,
            CHUNK_SIZE_BASE as int - 1,
        );
    }
    let load: u64 = c * t;
    let raw: u64 = CHUNK_SIZE_BASE / load;
    let r: u64 = if raw < CHUNK_SIZE_FLOOR { CHUNK_SIZE_FLOOR } else { raw };
    r as usize
}

/// For denominators small enough to keep the quotient above the floor,
/// integer division of the base budget is strictly decreasing.
proof fn lemma_raw_strictly_orders(p1: int, p2: int)
    requires
        1 <= p1 < p2,
        (CHUNK_SIZE_FLOOR as int) < (CHUNK_SIZE_BASE as int) / p2,
    ensures
        (CHUNK_SIZE_BASE as int) / p2 < (CHUNK_SIZE_BASE as int) / p1,
{
    let b = CHUNK_SIZE_BASE as int;
    let d1 = b / p1;
    let d2 = b / p2;
    lemma_div_is_ordered_by_denominator(b, p1, p2);
    lemma_fundamental_div_mod(b, p1);
    lemma_fundamental_div_mod(b, p2);
    assert(p2 * d2 <= b);
    assert(p2 * (CHUNK_SIZE_FLOOR as int + 1) <= p2 * d2) by {
        lemma_mul_inequality(CHUNK_SIZE_FLOOR as int + 1, d2, p2);
    }
    // With a quotient above the floor the denominator is tiny.
    assert(p2 <= 49) by {
        if p2 >= 50 {
            lemma_mul_inequality(50, p2, CHUNK_SIZE_FLOOR as int + 1);
        }
    }
    if d1 == d2 {
        assert(b < p1 * d1 + p1);
        assert(p1 * d1 + p1 == p1 * (d1 + 1)) by {
            lemma_mul_is_distributive_add(p1, d1, 1);
        }
        assert(p1 * (d1 + 1) <= (p2 - 1) * (d2 + 1)) by {
            lemma_mul_inequality(p1, p2 - 1, d1 + 1);
        }
        assert((p2 - 1) * (d2 + 1) == p2 * (d2 + 1) - (d2 + 1)) by {
            lemma_mul_is_distributive_sub_other_way(d2 + 1, p2, 1);
        }
        assert(p2 * (d2 + 1) == p2 * d2 + p2) by {
            lemma_mul_is_distributive_add(p2, d2, 1);
        }
        assert(false);
    }
}

/// More worker threads give a strictly smaller batch, unless the size has
/// already reached the floor.
pub proof fn lemma_chunk_size_shrinks_with_threads(n_cols: int, t1: int, t2: int)
    requires
        1 <= t1 < t2,
    ensures
        chunk_size_spec(n_cols, t2) == CHUNK_SIZE_FLOOR as int
            || chunk_size_spec(n_cols, t2) < chunk_size_spec(n_cols, t1),
{
    let c = clamp_pos(n_cols);
    let p1 = c * t1;
    let p2 = c * t2;
    assert(t1 * c < t2 * c) by {
        lemma_mul_strict_inequality(t1, t2, c);
    }
    assert(1 <= p1) by {
        lemma_mul_strict_inequality(0, t1, c);
    }
    if chunk_size_spec(n_cols, t2) != CHUNK_SIZE_FLOOR as int {
        lemma_raw_strictly_orders(p1, p2);
    }
}

/// More projected columns give a strictly smaller batch, unless the size
/// has already reached the floor.
pub proof fn lemma_chunk_size_shrinks_with_columns(c1: int, c2: int, n_threads: int)
    requires
        1 <= c1 < c2,
    ensures
        chunk_size_spec(c2, n_threads) == CHUNK_SIZE_FLOOR as int
            || chunk_size_spec(c2, n_threads) < chunk_size_spec(c1, n_threads),
{
    let t = clamp_pos(n_threads);
    let p1 = c1 * t;
    let p2 = c2 * t;
    assert(c1 * t < c2 * t) by {
        lemma_mul_strict_inequality(c1, c2, t);
    }
    assert(1 <= p1) by {
        lemma_mul_strict_inequality(0, c1, t);
    }
    if chunk_size_spec(c2, n_threads) != CHUNK_SIZE_FLOOR as int {
        lemma_raw_strictly_orders(p1, p2);
    }
}

} // verus!
