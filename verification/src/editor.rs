//! The editor state: buffer, viewport, cursor, mode and pending key.

use crate::decimal::{decimal, decimal_chars};
use crate::line::Line;
use crate::mapper::{gutter_width, spec_gutter_width, spec_screen_to_buffer};
use vstd::math::max;
use vstd::prelude::*;

verus! {

/// The editing mode. Exactly one is active at a time.
#[derive(Debug, Clone, Copy, PartialEq, Eq, Structural)]
pub enum EditorMode {
    Normal,
    Insert,
    Visual,
}

/// The first key of an unfinished multi-key command, if there is one.
#[derive(Debug)]
pub enum KeyState {
    Waiting(char),
    _WaitingForCommand(String),
    Inactive,
}

/// The mathematical value of a [`KeyState`].
pub enum PendingKey {
    Waiting(char),
    WaitingForCommand(Seq<char>),
    Inactive,
}

impl View for KeyState {
    type V = PendingKey;

    open spec fn view(&self) -> PendingKey {
        match self {
            KeyState::Waiting(c) => PendingKey::Waiting(*c),
            KeyState::_WaitingForCommand(text) => PendingKey::WaitingForCommand(text@),
            KeyState::Inactive => PendingKey::Inactive,
        }
    }
}

/// The whole state of one editing session.
///
/// The cursor is kept in buffer coordinates: its line follows from the
/// viewport and the logical line counter `draw_line`, its column is
/// `cursor_column`. The screen position is derived from them on demand.
#[derive(Debug)]
pub struct Editor {
    /// The buffer.
    pub lines: Vec<Line>,
    /// The status text as last refreshed.
    pub status: String,
    pub mode: EditorMode,
    /// The vertical viewport: the half-open range of buffer lines on screen.
    pub v_draw_region: (usize, usize),
    /// The horizontal viewport: the half-open range of columns on screen.
    pub h_draw_region: (usize, usize),
    /// The logical line counter: the row of the cursor within the viewport,
    /// counted from one.
    pub draw_line: usize,
    pub key_state: KeyState,
    /// The digits of the line count as of the last load.
    pub line_num_buf: Vec<char>,
    /// The terminal size as (columns, rows); the last row shows the status.
    pub term_size: (usize, usize),
    /// The column of the cursor within its line: the index at which a typed
    /// character is inserted.
    pub cursor_column: usize,
}

/// The mathematical value of an [`Editor`].
pub struct EditorView {
    pub lines: Seq<Seq<char>>,
    pub status: Seq<char>,
    pub mode: EditorMode,
    pub v_draw_region: (int, int),
    pub h_draw_region: (int, int),
    pub draw_line: int,
    pub key_state: PendingKey,
    pub line_num_buf: Seq<char>,
    pub term_size: (int, int),
    pub cursor_column: int,
}

/// The texts of a sequence of lines.
pub open spec fn lines_view(lines: Seq<Line>) -> Seq<Seq<char>> {
    Seq::new(lines.len(), |i: int| lines[i]@)
}

/// The texts of a sequence of strings.
pub open spec fn texts(rows: Seq<String>) -> Seq<Seq<char>> {
    Seq::new(rows.len(), |i: int| rows[i]@)
}

impl View for Editor {
    type V = EditorView;

    open spec fn view(&self) -> EditorView {
        EditorView {
            lines: lines_view(self.lines@),
            status: self.status@,
            mode: self.mode,
            v_draw_region: (self.v_draw_region.0 as int, self.v_draw_region.1 as int),
            h_draw_region: (self.h_draw_region.0 as int, self.h_draw_region.1 as int),
            draw_line: self.draw_line as int,
            key_state: self.key_state@,
            line_num_buf: self.line_num_buf@,
            term_size: (self.term_size.0 as int, self.term_size.1 as int),
            cursor_column: self.cursor_column as int,
        }
    }
}

impl EditorView {
    /// The number of rows that show text: all but the status row.
    pub open spec fn interior_rows(self) -> int {
        self.term_size.1 - 1
    }

    /// The width of the line-number gutter: the digits of the line count and
    /// one more column.
    pub open spec fn gutter_width(self) -> int {
        spec_gutter_width(self.lines.len())
    }

    /// The index of the buffer line that the cursor is on. The logical line
    /// counter starts at one, so it is one more than the row.
    pub open spec fn cursor_line(self) -> int {
        self.v_draw_region.0 + self.draw_line - 1
    }

    /// The length of line `i`; a line that the buffer does not hold counts
    /// as empty.
    pub open spec fn line_len(self, i: int) -> int {
        if 0 <= i < self.lines.len() {
            self.lines[i].len() as int
        } else {
            0
        }
    }

    /// The line of the buffer that is nearest to the cursor line: the cursor
    /// line itself where the buffer holds it, else the first or the last
    /// line.
    pub open spec fn nearest_line(self) -> int {
        if self.cursor_line() < 0 {
            0
        } else if self.cursor_line() >= self.lines.len() {
            self.lines.len() - 1
        } else {
            self.cursor_line()
        }
    }

    /// The length of the line that the cursor is on.
    pub open spec fn cursor_line_len(self) -> int {
        self.line_len(self.cursor_line())
    }

    /// The greatest column that the cursor may rest at: the length of its
    /// line, and one on an empty line.
    pub open spec fn end_column(self) -> int {
        max(self.cursor_line_len(), 1)
    }

    /// The screen column of the cursor.
    pub open spec fn screen_column(self) -> int {
        self.gutter_width() + self.cursor_column
    }

    /// The screen row of the cursor.
    pub open spec fn screen_row(self) -> int {
        self.draw_line - 1
    }

    /// The consistency of terminal size, viewport and cursor line: the
    /// terminal has a text row and a status row, the viewport is no taller
    /// than the text rows, and the cursor is on a row of the viewport and on
    /// a line of the buffer (on line zero where the buffer is empty).
    pub open spec fn viewport_wf(self) -> bool {
        &&& self.term_size.1 >= 2
        &&& 0 <= self.v_draw_region.0
        &&& 1 <= self.draw_line <= self.interior_rows()
        &&& self.v_draw_region.1 - self.v_draw_region.0 <= self.interior_rows()
        &&& self.cursor_line() < self.v_draw_region.1
        &&& self.cursor_line() < max(self.lines.len() as int, 1)
    }

    /// The consistency that every operation of the editor keeps: that of
    /// the viewport, and a cursor column within its line.
    pub open spec fn wf(self) -> bool {
        &&& self.viewport_wf()
        &&& 0 <= self.cursor_column <= self.end_column()
    }
}

impl Editor {
    /// A session with an empty buffer on a terminal of `term_size`
    /// (columns, rows). The viewport spans all rows but the status row, the
    /// cursor is at the start of the first row. A terminal of fewer than
    /// two rows is taken to have two: one for text and one for the status.
    pub fn new(term_size: (usize, usize)) -> (editor: Editor)
        ensures
            editor@.wf(),
            editor@.lines == Seq::<Seq<char>>::empty(),
            editor@.status == "Normal"@,
            editor@.mode == EditorMode::Normal,
            editor@.term_size == (term_size.0 as int, max(term_size.1 as int, 2)),
            editor@.v_draw_region == (0int, editor@.term_size.1 - 1),
            editor@.h_draw_region == (0int, term_size.0 as int),
            editor@.draw_line == 1,
            editor@.key_state == PendingKey::Inactive,
            editor@.line_num_buf == Seq::<char>::empty(),
            editor@.cursor_column == 0,
    {
        let rows: usize = if term_size.1 < 2 {
            2
        } else {
            term_size.1
        };
        let editor = Editor {
            lines: Vec::new(),
            status: String::from_str("Normal"),
            mode: EditorMode::Normal,
            v_draw_region: (0, rows - 1),
            h_draw_region: (0, term_size.0),
            draw_line: 1,
            key_state: KeyState::Inactive,
            line_num_buf: Vec::new(),
            term_size: (term_size.0, rows),
            cursor_column: 0,
        };
        assert(editor@.lines =~= Seq::<Seq<char>>::empty());
        editor
    }

    /// Tells whether the state is consistent.
    pub fn is_well_formed(&self) -> (ok: bool)
        ensures
            ok == self@.wf(),
    {
        if self.term_size.1 < 2 || self.draw_line < 1 || self.draw_line > self.term_size.1 - 1 {
            return false;
        }
        if self.v_draw_region.1 < self.v_draw_region.0 {
            return false;
        }
        let rows: usize = self.term_size.1 - 1;
        if self.v_draw_region.1 - self.v_draw_region.0 > rows {
            return false;
        }
        if self.draw_line - 1 >= self.v_draw_region.1 - self.v_draw_region.0 {
            return false;
        }
        // The cursor line is below the end of the viewport, so the sum fits.
        let line: usize = self.v_draw_region.0 + (self.draw_line - 1);
        let total: usize = self.lines.len();
        if total == 0 {
            line == 0 && self.cursor_column <= 1
        } else if line >= total {
            false
        } else {
            let len: usize = self.lines[line].len();
            self.cursor_column <= len || self.cursor_column <= 1
        }
    }

    /// Replaces the remembered digits by those of `n`.
    pub fn update_line_num_buff(&mut self, n: usize)
        ensures
            final(self)@ == (EditorView { line_num_buf: decimal(n as nat), ..old(self)@ }),
    {
        self.line_num_buf = decimal_chars(n as u128);
    }

    /// Sets the mode to Normal.
    pub fn set_normal_mode(&mut self)
        ensures
            final(self)@ == (EditorView { mode: EditorMode::Normal, ..old(self)@ }),
    {
        self.mode = EditorMode::Normal;
    }

    /// Sets the mode to Insert.
    pub fn set_insert_mode(&mut self)
        ensures
            final(self)@ == (EditorView { mode: EditorMode::Insert, ..old(self)@ }),
    {
        self.mode = EditorMode::Insert;
    }

    /// Sets the mode to Visual.
    pub fn set_visual_mode(&mut self)
        ensures
            final(self)@ == (EditorView { mode: EditorMode::Visual, ..old(self)@ }),
    {
        self.mode = EditorMode::Visual;
    }

    /// Sets the logical line counter.
    pub(crate) fn set_draw_line(&mut self, dl: usize)
        ensures
            final(self)@ == (EditorView { draw_line: dl as int, ..old(self)@ }),
    {
        self.draw_line = dl;
    }

    /// Sets the vertical viewport.
    pub(crate) fn update_v_draw_region(&mut self, start: usize, end: usize)
        ensures
            final(self)@ == (EditorView {
                v_draw_region: (start as int, end as int),
                ..old(self)@
            }),
    {
        self.v_draw_region = (start, end);
    }

    /// Sets the pending key.
    pub fn update_key_state(&mut self, ks: KeyState)
        ensures
            final(self)@ == (EditorView { key_state: ks@, ..old(self)@ }),
    {
        self.key_state = ks;
    }

    /// The number of digits remembered by the last load.
    pub fn get_line_num_buff_size(&self) -> (n: usize)
        ensures
            n == self@.line_num_buf.len(),
    {
        self.line_num_buf.len()
    }

    /// The width of the line-number gutter.
    pub fn ln_pad(&self) -> (width: usize)
        ensures
            width == self@.gutter_width(),
            2 <= width <= 40,
    {
        gutter_width(self.lines.len())
    }

    /// The index of the buffer line that the cursor is on.
    pub fn cursor_line(&self) -> (index: usize)
        requires
            self@.viewport_wf(),
        ensures
            index == self@.cursor_line(),
    {
        self.v_draw_region.0 + (self.draw_line - 1)
    }

    /// The length of the line that the cursor is on; zero where the buffer
    /// is empty.
    pub fn cursor_line_len(&self) -> (len: usize)
        requires
            self@.viewport_wf(),
        ensures
            len == self@.cursor_line_len(),
    {
        let index: usize = self.cursor_line();
        if index < self.lines.len() {
            self.lines[index].len()
        } else {
            0
        }
    }

    /// The line that the cursor is on, for editing in place. Where viewport
    /// and line counter point outside the buffer, it is the nearest line of
    /// the buffer.
    pub fn get_line_from_cursor(&mut self) -> (line: &mut Line)
        requires
            old(self).lines.len() > 0,
        ensures
            *line == old(self).lines[old(self)@.nearest_line()],
            final(self).lines@ == old(self).lines@.update(old(self)@.nearest_line(), *final(line)),
            final(self)@ == (EditorView {
                lines: old(self)@.lines.update(old(self)@.nearest_line(), final(line)@),
                ..old(self)@
            }),
    {
        let last: usize = self.lines.len() - 1;
        let start: usize = self.v_draw_region.0;
        let point: usize = if self.draw_line == 0 {
            if start == 0 {
                0
            } else if start - 1 < last {
                start - 1
            } else {
                last
            }
        } else if start >= last || self.draw_line - 1 >= last - start {
            last
        } else {
            start + (self.draw_line - 1)
        };
        proof {
            let lines = self.lines@;
            assert forall|edited: Line| #[trigger]
                lines_view(lines.update(point as int, edited)) == lines_view(lines).update(
                    point as int,
                    edited@,
                ) by {
                assert(lines_view(lines.update(point as int, edited)) =~= lines_view(lines).update(
                    point as int,
                    edited@,
                ));
            }
        }
        &mut self.lines[point]
    }

    /// Appends one line per row, in order, and remembers the digits of the
    /// new line count.
    pub fn read_from_file(&mut self, rows: Vec<String>)
        ensures
            final(self)@ == (EditorView {
                lines: old(self)@.lines + texts(rows@),
                line_num_buf: decimal((old(self).lines.len() + rows.len()) as nat),
                ..old(self)@
            }),
            old(self)@.wf() ==> final(self)@.wf(),
    {
        let ghost before = self@;
        let mut i: usize = 0;
        while i < rows.len()
            invariant
                i <= rows.len(),
                self@ == (EditorView { lines: self@.lines, ..before }),
                self@.lines == before.lines + texts(rows@).take(i as int),
            decreases rows.len() - i,
        {
            let line = Line::from_text(rows[i].as_str());
            self.lines.push(line);
            assert(self@.lines =~= (before.lines + texts(rows@).take(i as int)).push(rows[i as int]@));
            i = i + 1;
            assert(self@.lines =~= before.lines + texts(rows@).take(i as int));
        }
        assert(texts(rows@).take(rows.len() as int) =~= texts(rows@));
        self.update_line_num_buff(self.lines.len());
    }
}

/// The cursor is on the buffer position that lies under its screen position.
pub proof fn lemma_cursor_under_screen_position(v: EditorView)
    requires
        0 <= v.cursor_column,
    ensures
        spec_screen_to_buffer(v.screen_column(), v.screen_row(), v.v_draw_region, v.gutter_width())
            == (v.cursor_line(), v.cursor_column),
{
}

} // verus!
