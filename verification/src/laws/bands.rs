//! How the columns of a wide grid fall into the bands of the two phases.

use crate::sandbox::movement::{chunk_band, chunk_count, unit, Scan};
use vstd::prelude::*;

verus! {

/// The band of `scan` holds column `x`.
pub open spec fn holds(scan: Scan, x: int) -> bool {
    scan.offset <= x < scan.offset + scan.width
}

/// The band of the chunk that starts at column `start` holds column `x`.
pub open spec fn chunk_holds(width: int, start: int, x: int) -> bool {
    chunk_band(width, 0, true, start) matches Some(scan) && holds(scan, x)
}

/// The band of one of the first `count` chunks holds column `x`.
pub open spec fn chunks_hold(width: int, first: int, count: int, x: int) -> bool
    decreases count,
{
    if count <= 0 {
        false
    } else {
        chunks_hold(width, first, count - 1, x) || chunk_holds(
            width,
            first + 4 * unit() * (count - 1),
            x,
        )
    }
}

proof fn lemma_chunks_hold_from(width: int, first: int, count: int, k: int, x: int)
    requires
        0 <= k < count,
        chunk_holds(width, first + 4 * unit() * k, x),
    ensures
        chunks_hold(width, first, count, x),
    decreases count,
{
    if k < count - 1 {
        lemma_chunks_hold_from(width, first, count - 1, k, x);
    }
}

/// The band of the chunk that holds column `x` is among those that the
/// columns from `first` on fall into.
proof fn lemma_chunk_of(width: int, first: int, x: int)
    requires
        0 <= first,
        first + unit() <= x < width,
        (x - first - unit()) % (4 * unit()) < 2 * unit(),
    ensures
        chunks_hold(width, first, chunk_count(width, first), x),
{
    assert(unit() == 5);
    let t = x - first - 5;
    let k = t / 20;
    assert(t == 20 * k + t % 20);
    let start = first + 4 * unit() * k;
    assert(start == first + 20 * k);
    assert(start + 5 <= x < start + 15);
    assert(chunk_holds(width, start, x));
    assert(k < chunk_count(width, first)) by {
        assert(20 * k <= width - first - 1);
        assert((width - first - 1) / 20 >= k);
    }
    lemma_chunks_hold_from(width, first, chunk_count(width, first), k, x);
}

/// Between them the bands of the two phases hold every column of a grid
/// that is wide enough to be cut into bands: no cell goes unvisited.
pub proof fn law_every_column_is_held(width: int, offset: int, x: int)
    requires
        4 * unit() < width,
        1 <= offset <= 2 * unit(),
        0 <= x < width,
    ensures
        x < offset || offset <= x < offset + 2 * unit() || chunks_hold(
            width,
            offset + unit(),
            chunk_count(width, offset + unit()),
            x,
        ) || chunks_hold(width, offset + 3 * unit(), chunk_count(width, offset + 3 * unit()), x),
{
    assert(unit() == 5);
    if x >= offset + 10 {
        let t = x - offset - 10;
        let q = t / 20;
        let r = t % 20;
        assert(t == 20 * q + r);
        if r < 10 {
            assert((x - (offset + 5) - 5) % 20 == r);
            lemma_chunk_of(width, offset + unit(), x);
        } else {
            assert(x - (offset + 15) - 5 == 20 * q + (r - 10));
            assert((x - (offset + 15) - 5) % 20 == r - 10);
            lemma_chunk_of(width, offset + 3 * unit(), x);
        }
    }
}

/// The bands of two different chunks share no column, and the band of a
/// chunk begins a unit behind the start of the chunk, which keeps it clear
/// of the leading band: the bands of one phase never touch the same column.
pub proof fn law_bands_share_no_column(width: int, first: int, j: int, k: int, x: int)
    requires
        0 <= j < k,
    ensures
        !(chunk_holds(width, first + 4 * unit() * j, x) && chunk_holds(
            width,
            first + 4 * unit() * k,
            x,
        )),
        chunk_holds(width, first + 4 * unit() * j, x) ==> x >= first + unit(),
{
    assert(unit() == 5);
    assert(4 * unit() * j == 20 * j);
    assert(4 * unit() * k == 20 * k);
}

} // verus!
