//! Pages: which rows of a collection one page shows.

use vstd::prelude::*;

verus! {

/// The number of rows on one page of a listing or of a comment thread.
pub const PAGE_SIZE: i32 = 10;

/// Whether page `page` shows at least one of `count` rows: its first row,
/// `page * PAGE_SIZE`, is no later than the last row, `count - 1`. A page
/// index is an `i32`, so no page lies beyond `i32::MAX`.
pub open spec fn page_in_range(page: int, count: nat) -> bool {
    0 <= page <= i32::MAX && page * PAGE_SIZE <= count - 1
}

/// The first row of page `page` among `count` rows. A page before the first
/// counts as the first; a page past the last row begins at the end.
pub open spec fn page_start(page: int, count: nat) -> int {
    if page <= 0 {
        0
    } else if page * PAGE_SIZE >= count {
        count as int
    } else {
        page * PAGE_SIZE
    }
}

/// The row after the last row of page `page` among `count` rows.
pub open spec fn page_end(page: int, count: nat) -> int {
    if page_start(page, count) + PAGE_SIZE >= count {
        count as int
    } else {
        page_start(page, count) + PAGE_SIZE
    }
}

/// The rows of page `page` of a collection, in the order of the collection.
pub open spec fn page_of<T>(rows: Seq<T>, page: int) -> Seq<T> {
    rows.subrange(page_start(page, rows.len()), page_end(page, rows.len()))
}

/// Whether page `page` shows at least one of `count` rows.
pub fn has_page(page: i32, count: usize) -> (yes: bool)
    ensures
        yes == page_in_range(page as int, count as nat),
{
    if page < 0 {
        return false;
    }
    let size: i64 = PAGE_SIZE as i64;
    let index: i64 = page as i64;
    assert(0 <= index * size <= 0x8000_0000 * 10) by (nonlinear_arith)
        requires
            0 <= index <= 0x8000_0000,
            size == 10,
    ;
    let first_row: i64 = index * size;
    count > 0 && first_row as u64 <= (count - 1) as u64
}

/// The rows that page `page` shows of `count` rows: the first, and the one
/// after the last.
pub fn page_bounds(page: i32, count: usize) -> (bounds: (usize, usize))
    ensures
        bounds.0 == page_start(page as int, count as nat),
        bounds.1 == page_end(page as int, count as nat),
        bounds.0 <= bounds.1 <= count,
        bounds.1 - bounds.0 <= PAGE_SIZE,
{
    let size: i64 = PAGE_SIZE as i64;
    let start: usize = if page <= 0 {
        0
    } else {
        let index: i64 = page as i64;
        assert(0 <= index * size <= 0x8000_0000 * 10) by (nonlinear_arith)
            requires
                0 <= index <= 0x8000_0000,
                size == 10,
        ;
        let first_row: i64 = index * size;
        if first_row as u64 >= count as u64 {
            count
        } else {
            first_row as usize
        }
    };
    let end: usize = if count - start <= PAGE_SIZE as usize {
        count
    } else {
        start + PAGE_SIZE as usize
    };
    (start, end)
}

/// A page holds rows of the collection in the collection's order: on a page
/// that is not before the first, the row at position `k` is the row
/// `page * PAGE_SIZE + k` of the collection. No page holds more than
/// `PAGE_SIZE` rows.
pub proof fn lemma_page_keeps_order<T>(rows: Seq<T>, page: int, k: int)
    requires
        0 <= page,
        0 <= k < page_of(rows, page).len(),
    ensures
        page_of(rows, page).len() <= PAGE_SIZE,
        page * PAGE_SIZE + k < rows.len(),
        page_of(rows, page)[k] == rows[page * PAGE_SIZE + k],
{
}

} // verus!
