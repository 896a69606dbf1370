//! The mapping between screen coordinates (column, row) and buffer
//! coordinates (line index, column within the line).
//!
//! The screen shows the line-number gutter to the left of the text, so a
//! buffer column lies `gutter_width` columns further right on screen, and
//! row zero shows the first line of the viewport.

use crate::decimal::{count_digits, digit_count};
use vstd::math::{max, min};
use vstd::prelude::*;

verus! {

/// The width of the gutter for a buffer of `total_lines` lines: the digits
/// of the line count and one more column.
pub open spec fn spec_gutter_width(total_lines: nat) -> int {
    digit_count(total_lines) as int + 1
}

/// The buffer position under the screen position (`col`, `row`), as
/// (line index, column). A screen column inside the gutter maps to column
/// zero.
pub open spec fn spec_screen_to_buffer(
    col: int,
    row: int,
    viewport: (int, int),
    gutter_width: int,
) -> (int, int) {
    (viewport.0 + row, max(col - gutter_width, 0))
}

/// The screen position of the buffer position (`line_index`, `column`), as
/// (column, row). A line above the viewport maps to row zero.
pub open spec fn spec_buffer_to_screen(
    line_index: int,
    column: int,
    viewport: (int, int),
    gutter_width: int,
) -> (int, int) {
    (column + gutter_width, max(line_index - viewport.0, 0))
}

/// The least screen column that the start clamp allows: one column right of
/// the gutter.
pub open spec fn spec_clamp_to_start_of_line(col: int, gutter_width: int) -> int {
    max(col, gutter_width + 1)
}

/// The greatest screen column that the end clamp allows is the length of
/// the line plus the gutter width, and one more on an empty line.
pub open spec fn spec_clamp_to_end_of_line(col: int, gutter_width: int, line_len: int) -> int {
    min(
        col,
        line_len + gutter_width + if line_len == 0 {
            1int
        } else {
            0int
        },
    )
}

/// The width of the gutter for a buffer of `total_lines` lines.
pub fn gutter_width(total_lines: usize) -> (width: usize)
    ensures
        width == spec_gutter_width(total_lines as nat),
        2 <= width <= 40,
{
    count_digits(total_lines) + 1
}

/// Maps a screen position to the buffer position under it.
pub fn screen_to_buffer(col: usize, row: usize, viewport: (usize, usize), gutter_width: usize) -> (at: (
    usize,
    usize,
))
    requires
        viewport.0 + row <= usize::MAX,
    ensures
        (at.0 as int, at.1 as int) == spec_screen_to_buffer(
            col as int,
            row as int,
            (viewport.0 as int, viewport.1 as int),
            gutter_width as int,
        ),
{
    let column: usize = if col >= gutter_width {
        col - gutter_width
    } else {
        0
    };
    (viewport.0 + row, column)
}

/// Maps a buffer position to its screen position.
pub fn buffer_to_screen(
    line_index: usize,
    column: usize,
    viewport: (usize, usize),
    gutter_width: usize,
) -> (at: (usize, usize))
    requires
        column + gutter_width <= usize::MAX,
    ensures
        (at.0 as int, at.1 as int) == spec_buffer_to_screen(
            line_index as int,
            column as int,
            (viewport.0 as int, viewport.1 as int),
            gutter_width as int,
        ),
{
    let row: usize = if line_index >= viewport.0 {
        line_index - viewport.0
    } else {
        0
    };
    (column + gutter_width, row)
}

/// A buffer position inside or below the viewport's start is found again
/// under its own screen position.
pub proof fn lemma_buffer_screen_buffer(
    line_index: int,
    column: int,
    viewport: (int, int),
    gutter_width: int,
)
    requires
        viewport.0 <= line_index,
        0 <= column,
    ensures
        ({
            let at = spec_buffer_to_screen(line_index, column, viewport, gutter_width);
            spec_screen_to_buffer(at.0, at.1, viewport, gutter_width) == (line_index, column)
        }),
{
}

/// A screen position right of the gutter is the screen position of the
/// buffer position under it.
pub proof fn lemma_screen_buffer_screen(col: int, row: int, viewport: (int, int), gutter_width: int)
    requires
        gutter_width <= col,
        0 <= row,
    ensures
        ({
            let at = spec_screen_to_buffer(col, row, viewport, gutter_width);
            spec_buffer_to_screen(at.0, at.1, viewport, gutter_width) == (col, row)
        }),
{
}

} // verus!
