//! Cursor movement and scrolling: the viewport follows the cursor, never
//! the other way round.

use crate::dispatch::Action;
use crate::editor::{Editor, EditorView};
use crate::mapper::{spec_clamp_to_end_of_line, spec_clamp_to_start_of_line};
use vstd::math::{max, min};
use vstd::prelude::*;

verus! {

impl EditorView {
    /// The state with the cursor column raised to at least one.
    pub open spec fn clamped_to_start_of_line(self) -> EditorView {
        EditorView { cursor_column: max(self.cursor_column, 1), ..self }
    }

    /// The state with the cursor column lowered to at most the length of the
    /// cursor line, or to one on an empty line.
    pub open spec fn clamped_to_end_of_line(self) -> EditorView {
        EditorView { cursor_column: min(self.cursor_column, self.end_column()), ..self }
    }

    /// The state after both clamps.
    pub open spec fn clamped(self) -> EditorView {
        self.clamped_to_start_of_line().clamped_to_end_of_line()
    }

    /// The state with the status text refreshed.
    pub open spec fn with_status(self) -> EditorView {
        EditorView { status: self.status_text(), ..self }
    }

    /// Whether the row below the cursor is a row of the viewport.
    pub open spec fn next_row_visible(self) -> bool {
        self.draw_line < self.interior_rows() && self.cursor_line() + 1 < self.v_draw_region.1
    }

    /// Moving down one line. On the last line of the buffer nothing
    /// happens. Where the next row belongs to the viewport the cursor moves
    /// there and only the status changes; else the viewport shifts down by
    /// one line.
    pub open spec fn moved_down(self) -> (EditorView, Action) {
        if self.cursor_line() + 1 >= self.lines.len() {
            (self, Action::Nothing)
        } else if self.next_row_visible() {
            (
                EditorView { draw_line: self.draw_line + 1, ..self }.with_status().clamped(),
                Action::RedrawStatus,
            )
        } else {
            (
                EditorView {
                    v_draw_region: (self.v_draw_region.0 + 1, self.v_draw_region.1 + 1),
                    ..self
                }.with_status().clamped(),
                Action::RedrawAll,
            )
        }
    }

    /// Moving up one line. Below the first row the cursor moves up and only
    /// the status changes; on the first row the viewport shifts up by one
    /// line, unless it starts at the first line of the buffer, where nothing
    /// happens.
    pub open spec fn moved_up(self) -> (EditorView, Action) {
        if self.draw_line > 1 {
            (
                EditorView { draw_line: self.draw_line - 1, ..self }.with_status().clamped(),
                Action::RedrawStatus,
            )
        } else if self.v_draw_region.0 > 0 {
            (
                EditorView {
                    v_draw_region: (self.v_draw_region.0 - 1, self.v_draw_region.1 - 1),
                    ..self
                }.with_status().clamped(),
                Action::RedrawAll,
            )
        } else {
            (self, Action::Nothing)
        }
    }

    /// Moving right one column, up to the end of the line.
    pub open spec fn moved_right(self) -> (EditorView, Action) {
        if self.cursor_column < self.cursor_line_len() {
            (EditorView { cursor_column: self.cursor_column + 1, ..self }, Action::MoveCursor)
        } else {
            (self, Action::Nothing)
        }
    }

    /// Moving left one column, down to the start of the line.
    pub open spec fn moved_left(self) -> (EditorView, Action) {
        if self.cursor_column > 0 {
            (EditorView { cursor_column: self.cursor_column - 1, ..self }, Action::MoveCursor)
        } else {
            (self, Action::Nothing)
        }
    }

    /// The number of rows that a viewport at either end of the buffer
    /// spans: as many as the buffer has lines, at most the text rows of the
    /// terminal, and one where the buffer is empty.
    pub open spec fn jump_rows(self) -> int {
        min(max(self.lines.len() as int, 1), self.interior_rows())
    }

    /// The state after a jump to the top: the viewport starts at the first
    /// line and the cursor is on its first row. The cursor keeps its column
    /// as far as the first line reaches.
    pub open spec fn jumped_to_top(self) -> EditorView {
        EditorView {
            v_draw_region: (0, self.jump_rows()),
            draw_line: 1,
            ..self
        }.clamped_to_end_of_line()
    }

    /// The state after a jump to the bottom: the viewport ends with the
    /// last line and the cursor is on its last row. The cursor keeps its
    /// column as far as the last line reaches.
    pub open spec fn jumped_to_bottom(self) -> EditorView {
        let end = max(self.lines.len() as int, 1);
        EditorView {
            v_draw_region: (end - self.jump_rows(), end),
            draw_line: self.jump_rows(),
            ..self
        }.clamped_to_end_of_line()
    }
}

impl Editor {
    /// Raises the cursor column to at least one, which puts the screen
    /// cursor at least one column right of the gutter.
    pub fn clamp_to_start_of_line(&mut self)
        ensures
            final(self)@ == old(self)@.clamped_to_start_of_line(),
            final(self)@.screen_column() == spec_clamp_to_start_of_line(
                old(self)@.screen_column(),
                old(self)@.gutter_width(),
            ),
    {
        if self.cursor_column < 1 {
            self.cursor_column = 1;
        }
    }

    /// Lowers the cursor column to at most the length of the cursor line, or
    /// to one on an empty line.
    pub fn clamp_to_end_of_line(&mut self)
        requires
            old(self)@.viewport_wf(),
        ensures
            final(self)@ == old(self)@.clamped_to_end_of_line(),
            final(self)@.screen_column() == spec_clamp_to_end_of_line(
                old(self)@.screen_column(),
                old(self)@.gutter_width(),
                old(self)@.cursor_line_len(),
            ),
            final(self)@.wf(),
    {
        let len: usize = self.cursor_line_len();
        let end: usize = if len == 0 {
            1
        } else {
            len
        };
        if self.cursor_column > end {
            self.cursor_column = end;
        }
    }

    /// Moves the cursor down one line, scrolling where it has to.
    pub fn move_down(&mut self) -> (action: Action)
        requires
            old(self)@.wf(),
        ensures
            (final(self)@, action) == old(self)@.moved_down(),
            final(self)@.wf(),
    {
        let line: usize = self.cursor_line();
        if line + 1 >= self.lines.len() {
            return Action::Nothing;
        }
        let action = if self.draw_line < self.term_size.1 - 1 && line + 1 < self.v_draw_region.1 {
            let row: usize = self.draw_line + 1;
            self.set_draw_line(row);
            Action::RedrawStatus
        } else {
            let region = self.v_draw_region;
            self.update_v_draw_region(region.0 + 1, region.1 + 1);
            Action::RedrawAll
        };
        self.update_status();
        self.clamp_to_start_of_line();
        self.clamp_to_end_of_line();
        action
    }

    /// Moves the cursor up one line, scrolling where it has to.
    pub fn move_up(&mut self) -> (action: Action)
        requires
            old(self)@.wf(),
        ensures
            (final(self)@, action) == old(self)@.moved_up(),
            final(self)@.wf(),
    {
        let action = if self.draw_line > 1 {
            let row: usize = self.draw_line - 1;
            self.set_draw_line(row);
            Action::RedrawStatus
        } else if self.v_draw_region.0 > 0 {
            let region = self.v_draw_region;
            self.update_v_draw_region(region.0 - 1, region.1 - 1);
            Action::RedrawAll
        } else {
            return Action::Nothing;
        };
        self.update_status();
        self.clamp_to_start_of_line();
        self.clamp_to_end_of_line();
        action
    }

    /// Moves the cursor right one column, unless it is at the end of its
    /// line.
    pub fn move_right(&mut self) -> (action: Action)
        requires
            old(self)@.wf(),
        ensures
            (final(self)@, action) == old(self)@.moved_right(),
            final(self)@.wf(),
    {
        if self.cursor_column < self.cursor_line_len() {
            self.cursor_column = self.cursor_column + 1;
            Action::MoveCursor
        } else {
            Action::Nothing
        }
    }

    /// Moves the cursor left one column, unless it is at the start of its
    /// line.
    pub fn move_left(&mut self) -> (action: Action)
        requires
            old(self)@.wf(),
        ensures
            (final(self)@, action) == old(self)@.moved_left(),
            final(self)@.wf(),
    {
        if self.cursor_column > 0 {
            self.cursor_column = self.cursor_column - 1;
            Action::MoveCursor
        } else {
            Action::Nothing
        }
    }

    /// The number of rows of a viewport at either end of the buffer.
    fn jump_rows(&self) -> (rows: usize)
        requires
            self@.term_size.1 >= 2,
        ensures
            rows == self@.jump_rows(),
    {
        let total: usize = if self.lines.len() == 0 {
            1
        } else {
            self.lines.len()
        };
        if total < self.term_size.1 - 1 {
            total
        } else {
            self.term_size.1 - 1
        }
    }

    /// Jumps to the first line of the buffer, keeping the column where the
    /// line allows.
    pub fn go_to_top(&mut self)
        requires
            old(self)@.wf(),
        ensures
            final(self)@ == old(self)@.jumped_to_top(),
            final(self)@.wf(),
    {
        let rows: usize = self.jump_rows();
        self.update_v_draw_region(0, rows);
        self.set_draw_line(1);
        self.clamp_to_end_of_line();
    }

    /// Jumps to the last line of the buffer, keeping the column where the
    /// line allows.
    pub fn go_to_bottom(&mut self)
        requires
            old(self)@.wf(),
        ensures
            final(self)@ == old(self)@.jumped_to_bottom(),
            final(self)@.wf(),
    {
        let rows: usize = self.jump_rows();
        let end: usize = if self.lines.len() == 0 {
            1
        } else {
            self.lines.len()
        };
        self.update_v_draw_region(end - rows, end);
        self.set_draw_line(rows);
        self.clamp_to_end_of_line();
    }
}

/// The four moves lead from a consistent state to a consistent state.
pub proof fn lemma_moves_keep_wf(v: EditorView)
    requires
        v.wf(),
    ensures
        v.moved_down().0.wf(),
        v.moved_up().0.wf(),
        v.moved_left().0.wf(),
        v.moved_right().0.wf(),
{
}

/// The two jumps lead from a consistent state to a consistent state.
pub proof fn lemma_jumps_keep_wf(v: EditorView)
    requires
        v.wf(),
    ensures
        v.jumped_to_top().wf(),
        v.jumped_to_bottom().wf(),
{
}

/// In every consistent state the cursor line lies inside the viewport, and
/// the viewport is no taller than the text rows of the terminal.
pub proof fn lemma_cursor_in_viewport(v: EditorView)
    requires
        v.wf(),
    ensures
        v.v_draw_region.0 <= v.cursor_line() < v.v_draw_region.1,
        v.v_draw_region.1 - v.v_draw_region.0 <= v.term_size.1 - 1,
{
}

/// In every consistent state the cursor column, taken from the screen
/// column by subtracting the gutter width, lies within the cursor line. The
/// one exception is left out: an empty line with the cursor at column one,
/// where the clamps put it.
pub proof fn lemma_cursor_column_in_line(v: EditorView)
    requires
        v.wf(),
        !(v.cursor_line_len() == 0 && v.cursor_column == 1),
    ensures
        0 <= v.screen_column() - v.gutter_width() <= v.cursor_line_len(),
{
}

/// A jump changes neither the buffer nor the mode, and it keeps the cursor
/// column wherever that column lies within the line jumped to.
pub proof fn lemma_jumps_keep_column(v: EditorView)
    ensures
        v.jumped_to_top().lines == v.lines,
        v.jumped_to_bottom().lines == v.lines,
        v.jumped_to_top().mode == v.mode,
        v.jumped_to_bottom().mode == v.mode,
        v.cursor_column <= v.jumped_to_top().end_column() ==> v.jumped_to_top().cursor_column
            == v.cursor_column,
        v.cursor_column <= v.jumped_to_bottom().end_column()
            ==> v.jumped_to_bottom().cursor_column == v.cursor_column,
        v.jumped_to_top().screen_row() == 0,
{
}

/// Jumping to the top twice gives the same state as jumping once.
pub proof fn lemma_jump_to_top_idempotent(v: EditorView)
    ensures
        v.jumped_to_top().jumped_to_top() == v.jumped_to_top(),
{
}

} // verus!
