//! The listing as a table: how wide its columns are.

use vstd::prelude::*;

verus! {

/// Columns of the table.
pub const COLUMNS: usize = 4;

/// Characters that the borders and the padding of the table take: one
/// separator before each column and one at the end, and a space on each side
/// of each column.
pub const BORDER_OVERHEAD: usize = 13;

/// Width of the column of sequence numbers.
pub const ID_WIDTH: usize = 4;

/// Width of the column of creation times.
pub const CREATED_AT_WIDTH: usize = 18;

/// What the columns of fixed width and the borders take together.
pub const FIXED_WIDTH: usize = 35;

/// The least width of the sender and the subject columns.
pub const MIN_FLEX_WIDTH: usize = 20;

/// The width assumed where the terminal does not tell its own.
pub const DEFAULT_TERM_WIDTH: usize = 150;

/// The width of the sender and of the subject column in a terminal of
/// `term_width` columns.
pub open spec fn spec_flex_width(term_width: usize) -> int {
    if term_width - FIXED_WIDTH >= 2 * MIN_FLEX_WIDTH {
        (term_width - FIXED_WIDTH) / 2
    } else {
        MIN_FLEX_WIDTH as int
    }
}

/// The width of the sender and of the subject column: the two share what
/// the fixed columns and the borders leave of the terminal, and neither gets
/// less than `MIN_FLEX_WIDTH`.
pub fn flex_width(term_width: usize) -> (width: usize)
    ensures
        width == spec_flex_width(term_width),
        width >= MIN_FLEX_WIDTH,
{
    let rest: usize = if term_width >= FIXED_WIDTH {
        term_width - FIXED_WIDTH
    } else {
        0
    };
    let shared: usize = if rest >= MIN_FLEX_WIDTH * 2 {
        rest
    } else {
        MIN_FLEX_WIDTH * 2
    };
    shared / 2
}

/// The width to lay the table out for: the terminal's own, or
/// `DEFAULT_TERM_WIDTH` where it is not known.
pub fn term_width_or_default(width: Option<u16>) -> (columns: usize)
    ensures
        columns == match width {
            Some(w) => w as usize,
            None => DEFAULT_TERM_WIDTH,
        },
{
    match width {
        Some(w) => w as usize,
        None => DEFAULT_TERM_WIDTH,
    }
}

} // verus!
