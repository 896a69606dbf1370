//! What the front end paints: the visible lines behind their line numbers,
//! and where the cursor goes on screen.

use crate::decimal::{
    decimal, decimal_chars, lemma_decimal_len, lemma_digit_count_monotonic,
};
use crate::editor::{texts, Editor, EditorView};
use crate::mapper::{buffer_to_screen, spec_gutter_width};
use crate::text::{append_chars, append_spaces, spaces};
use vstd::math::{max, min};
use vstd::prelude::*;

verus! {

/// The gutter in front of line number `ln`: the number, right-aligned in
/// `gutter_width` columns, and a space.
pub open spec fn gutter_text(gutter_width: int, ln: nat) -> Seq<char> {
    (spaces(max(gutter_width - decimal(ln).len(), 0) as nat) + decimal(ln)).push(' ')
}

impl EditorView {
    /// The row that shows the buffer line `index`: the gutter with the line
    /// number, which counts from one, and the text of the line.
    pub open spec fn row_text(self, index: int) -> Seq<char> {
        gutter_text(self.gutter_width(), (index + 1) as nat) + self.lines[index]
    }

    /// The end of the visible range of lines: the end of the viewport, or
    /// the end of the buffer where the viewport reaches beyond it.
    pub open spec fn visible_end(self) -> int {
        min(self.v_draw_region.1, self.lines.len() as int)
    }

    /// The start of the visible range of lines.
    pub open spec fn visible_start(self) -> int {
        min(self.v_draw_region.0, self.visible_end())
    }

    /// The rows to paint, from the top of the screen down: one for each
    /// line of the buffer that lies in the viewport.
    pub open spec fn visible_rows(self) -> Seq<Seq<char>> {
        Seq::new(
            (self.visible_end() - self.visible_start()) as nat,
            |k: int| self.row_text(self.visible_start() + k),
        )
    }
}

impl Editor {
    /// The gutter in front of line number `ln`.
    pub fn draw_line_numbers(&self, ln: usize) -> (gutter: String)
        ensures
            gutter@ == gutter_text(self@.gutter_width(), ln as nat),
    {
        let digits = decimal_chars(ln as u128);
        let width: usize = self.ln_pad();
        let pad: usize = if width > digits.len() {
            width - digits.len()
        } else {
            0
        };
        let mut gutter = String::new();
        append_spaces(&mut gutter, pad);
        append_chars(&mut gutter, &digits);
        gutter.push(' ');
        assert(gutter@ =~= gutter_text(self@.gutter_width(), ln as nat));
        gutter
    }

    /// The rows to paint for a full redraw, from the top of the screen
    /// down.
    pub fn draw_editor(&self) -> (rows: Vec<String>)
        ensures
            texts(rows@) == self@.visible_rows(),
    {
        let end: usize = if self.v_draw_region.1 < self.lines.len() {
            self.v_draw_region.1
        } else {
            self.lines.len()
        };
        let start: usize = if self.v_draw_region.0 < end {
            self.v_draw_region.0
        } else {
            end
        };
        let mut rows: Vec<String> = Vec::new();
        let mut index: usize = start;
        while index < end
            invariant
                start <= index <= end <= self.lines.len(),
                rows@.len() == index - start,
                forall|k: int| 0 <= k < rows@.len() ==> (#[trigger] rows@[k])@ == self@.row_text(start + k),
            decreases end - index,
        {
            let mut row = self.draw_line_numbers(index + 1);
            append_chars(&mut row, &self.lines[index].line_chars);
            rows.push(row);
            index = index + 1;
        }
        assert(texts(rows@) =~= self@.visible_rows());
        rows
    }

    /// The screen position of the cursor as (column, row). A coordinate
    /// beyond what the screen can address is the greatest that it can.
    pub fn cursor_position(&self) -> (at: (u16, u16))
        requires
            self@.wf(),
        ensures
            at.0 == min(self@.screen_column(), u16::MAX as int),
            at.1 == min(self@.screen_row(), u16::MAX as int),
    {
        let column: usize = if self.cursor_column > 65535 {
            65535
        } else {
            self.cursor_column
        };
        let at = buffer_to_screen(self.cursor_line(), column, self.v_draw_region, self.ln_pad());
        let col: u16 = if at.0 > 65535 {
            65535
        } else {
            at.0 as u16
        };
        let row: u16 = if at.1 > 65535 {
            65535
        } else {
            at.1 as u16
        };
        (col, row)
    }
}

/// The gutters of all lines of a buffer are equally wide: in front of
/// every line number up to the line count the gutter takes one column more
/// than the gutter width, so the texts of all rows start in the same column.
pub proof fn lemma_gutter_aligns(total_lines: nat, ln: nat)
    requires
        ln <= total_lines,
    ensures
        gutter_text(spec_gutter_width(total_lines), ln).len() == spec_gutter_width(total_lines) + 1,
{
    lemma_decimal_len(ln);
    lemma_digit_count_monotonic(ln, total_lines);
}

} // verus!
