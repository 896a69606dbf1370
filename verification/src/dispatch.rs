//! The key dispatch: what each input event does in each mode and with each
//! pending key.

use crate::editor::{Editor, EditorMode, EditorView, KeyState, PendingKey};
use crate::line::{insert_at, remove_before};
use crate::motion::{lemma_jump_to_top_idempotent, lemma_jumps_keep_wf, lemma_moves_keep_wf};
use vstd::math::min;
use vstd::prelude::*;

verus! {

/// The keys that the editor tells apart.
#[derive(Debug, Clone, Copy, PartialEq, Eq, Structural)]
pub enum KeyCode {
    Char(char),
    Esc,
    Tab,
    Backspace,
    Enter,
    Other,
}

/// An input event. Only key presses are acted on.
#[derive(Debug, Clone, Copy, PartialEq, Eq, Structural)]
pub enum InputEvent {
    /// A key press; `control` tells that the Control key, and no other
    /// modifier, was held.
    Key { code: KeyCode, control: bool },
    Mouse,
    Resize(u16, u16),
}

/// What the front end has to do after an event was handled.
#[derive(Debug, Clone, Copy, PartialEq, Eq, Structural)]
pub enum Action {
    /// The state did not change.
    Nothing,
    /// Only the cursor moved: place it, repaint nothing.
    MoveCursor,
    /// Repaint the status line.
    RedrawStatus,
    /// Repaint the visible lines and the status line.
    RedrawAll,
    /// End the session.
    Quit,
}

impl EditorView {
    /// Typing `c` in Insert mode: the character goes into the cursor line at
    /// the cursor column, and the cursor moves behind it. A column past the
    /// end of the line means the end. Without a line under the cursor
    /// nothing happens.
    pub open spec fn typed(self, c: char) -> (EditorView, Action) {
        let line = self.cursor_line();
        if 0 <= line < self.lines.len() {
            (
                EditorView {
                    lines: self.lines.update(
                        line,
                        insert_at(self.lines[line], self.cursor_column, c),
                    ),
                    cursor_column: min(self.cursor_column, self.cursor_line_len()) + 1,
                    ..self
                },
                Action::RedrawAll,
            )
        } else {
            (self, Action::Nothing)
        }
    }

    /// Backspace in Insert mode: the character before the cursor column
    /// leaves the cursor line, and the cursor moves one column left. At
    /// column zero nothing happens.
    pub open spec fn erased(self) -> (EditorView, Action) {
        let line = self.cursor_line();
        let column = min(self.cursor_column, self.cursor_line_len());
        if column > 0 {
            (
                EditorView {
                    lines: self.lines.update(
                        line,
                        remove_before(self.lines[line], self.cursor_column),
                    ),
                    cursor_column: column - 1,
                    ..self
                },
                Action::RedrawAll,
            )
        } else {
            (self, Action::Nothing)
        }
    }

    /// A key press in Insert mode. The pending key and the modifiers play no
    /// part.
    pub open spec fn insert_step(self, code: KeyCode) -> (EditorView, Action) {
        match code {
            KeyCode::Esc => (
                EditorView { mode: EditorMode::Normal, ..self },
                Action::RedrawStatus,
            ),
            KeyCode::Tab => self.typed('\t'),
            KeyCode::Backspace => self.erased(),
            KeyCode::Char(c) => self.typed(c),
            _ => (self, Action::Nothing),
        }
    }

    /// The key `g`: the first press is kept as pending key, the second one
    /// jumps to the top.
    pub open spec fn pressed_g(self) -> (EditorView, Action) {
        match self.key_state {
            PendingKey::Inactive => (
                EditorView { key_state: PendingKey::Waiting('g'), ..self },
                Action::RedrawStatus,
            ),
            PendingKey::Waiting(first) => if first == 'g' {
                (
                    EditorView { key_state: PendingKey::Inactive, ..self.jumped_to_top() },
                    Action::RedrawAll,
                )
            } else {
                (self, Action::Nothing)
            },
            _ => (self, Action::Nothing),
        }
    }

    /// The key `:`: it opens a command, or abandons whatever key is
    /// pending.
    pub open spec fn pressed_colon(self) -> (EditorView, Action) {
        match self.key_state {
            PendingKey::Inactive => (
                EditorView { key_state: PendingKey::Waiting(':'), ..self },
                Action::RedrawStatus,
            ),
            PendingKey::Waiting(_) => (
                EditorView { key_state: PendingKey::Inactive, ..self },
                Action::RedrawStatus,
            ),
            _ => (self, Action::Nothing),
        }
    }

    /// A character key in Normal or Visual mode.
    pub open spec fn command_char(self, c: char) -> (EditorView, Action) {
        if c == 'h' {
            self.moved_left()
        } else if c == 'j' {
            self.moved_down()
        } else if c == 'k' {
            self.moved_up()
        } else if c == 'l' {
            self.moved_right()
        } else if c == 'i' {
            (EditorView { mode: EditorMode::Insert, ..self }, Action::RedrawStatus)
        } else if c == 'v' {
            (EditorView { mode: EditorMode::Visual, ..self }, Action::RedrawStatus)
        } else if c == 'g' {
            self.pressed_g()
        } else if c == 'G' {
            (
                EditorView { key_state: PendingKey::Inactive, ..self.jumped_to_bottom() },
                Action::RedrawAll,
            )
        } else if c == 'q' {
            if self.key_state == PendingKey::Waiting(':') {
                (EditorView { key_state: PendingKey::Inactive, ..self }, Action::Quit)
            } else {
                (self, Action::Nothing)
            }
        } else if c == ':' {
            self.pressed_colon()
        } else {
            (self, Action::Nothing)
        }
    }

    /// A key press in Normal or Visual mode. A key pressed together with
    /// Control does nothing, and so does every key that is no character.
    pub open spec fn command_step(self, code: KeyCode, control: bool) -> (EditorView, Action) {
        match code {
            KeyCode::Char(c) => if control {
                (self, Action::Nothing)
            } else {
                self.command_char(c)
            },
            _ => (self, Action::Nothing),
        }
    }

    /// The state after an input event, and what the front end has to do.
    pub open spec fn step(self, event: InputEvent) -> (EditorView, Action) {
        match event {
            InputEvent::Key { code, control } => if self.mode == EditorMode::Insert {
                self.insert_step(code)
            } else {
                self.command_step(code, control)
            },
            _ => (self, Action::Nothing),
        }
    }
}

impl Editor {
    /// Inserts `c` into the cursor line at the cursor column and moves the
    /// cursor behind it.
    pub fn insert_at_cursor(&mut self, c: char) -> (action: Action)
        requires
            old(self)@.wf(),
        ensures
            (final(self)@, action) == old(self)@.typed(c),
            final(self)@.wf(),
    {
        let index: usize = self.cursor_line();
        if index >= self.lines.len() {
            return Action::Nothing;
        }
        let len: usize = self.lines[index].len();
        let column: usize = if self.cursor_column <= len {
            self.cursor_column
        } else {
            len
        };
        let line = self.get_line_from_cursor();
        line.insert_char_at_cursor(column, c);
        proof {
            // The line has grown by one character, so the next column fits.
            assert(self.lines@[index as int].line_chars.len() == len + 1);
        }
        self.cursor_column = column + 1;
        Action::RedrawAll
    }

    /// Removes the character before the cursor column from the cursor line
    /// and moves the cursor one column left.
    pub fn remove_before_cursor(&mut self) -> (action: Action)
        requires
            old(self)@.wf(),
        ensures
            (final(self)@, action) == old(self)@.erased(),
            final(self)@.wf(),
    {
        let len: usize = self.cursor_line_len();
        let column: usize = if self.cursor_column <= len {
            self.cursor_column
        } else {
            len
        };
        if column == 0 {
            return Action::Nothing;
        }
        let line = self.get_line_from_cursor();
        line.remove_char_at(column);
        self.cursor_column = column - 1;
        Action::RedrawAll
    }

    /// Handles a key press in Insert mode.
    fn handle_insert_key(&mut self, code: KeyCode) -> (action: Action)
        requires
            old(self)@.wf(),
        ensures
            (final(self)@, action) == old(self)@.insert_step(code),
            final(self)@.wf(),
    {
        match code {
            KeyCode::Esc => {
                self.set_normal_mode();
                Action::RedrawStatus
            },
            KeyCode::Tab => self.insert_at_cursor('\t'),
            KeyCode::Backspace => self.remove_before_cursor(),
            KeyCode::Char(c) => self.insert_at_cursor(c),
            _ => Action::Nothing,
        }
    }

    /// Handles the key `g` in Normal or Visual mode.
    fn handle_g(&mut self) -> (action: Action)
        requires
            old(self)@.wf(),
        ensures
            (final(self)@, action) == old(self)@.pressed_g(),
            final(self)@.wf(),
    {
        match self.key_state {
            KeyState::Inactive => {
                self.update_key_state(KeyState::Waiting('g'));
                Action::RedrawStatus
            },
            KeyState::Waiting(first) => {
                if first == 'g' {
                    self.go_to_top();
                    self.update_key_state(KeyState::Inactive);
                    Action::RedrawAll
                } else {
                    Action::Nothing
                }
            },
            _ => Action::Nothing,
        }
    }

    /// Handles the key `:` in Normal or Visual mode.
    fn handle_colon(&mut self) -> (action: Action)
        requires
            old(self)@.wf(),
        ensures
            (final(self)@, action) == old(self)@.pressed_colon(),
            final(self)@.wf(),
    {
        match self.key_state {
            KeyState::Inactive => {
                self.update_key_state(KeyState::Waiting(':'));
                Action::RedrawStatus
            },
            KeyState::Waiting(_) => {
                self.update_key_state(KeyState::Inactive);
                Action::RedrawStatus
            },
            _ => Action::Nothing,
        }
    }

    /// Tells whether the command `:` is pending.
    fn command_pending(&self) -> (pending: bool)
        ensures
            pending == (self@.key_state == PendingKey::Waiting(':')),
    {
        match self.key_state {
            KeyState::Waiting(first) => first == ':',
            _ => false,
        }
    }

    /// Handles a character key in Normal or Visual mode.
    fn handle_command_char(&mut self, c: char) -> (action: Action)
        requires
            old(self)@.wf(),
        ensures
            (final(self)@, action) == old(self)@.command_char(c),
            final(self)@.wf(),
    {
        if c == 'h' {
            self.move_left()
        } else if c == 'j' {
            self.move_down()
        } else if c == 'k' {
            self.move_up()
        } else if c == 'l' {
            self.move_right()
        } else if c == 'i' {
            self.set_insert_mode();
            Action::RedrawStatus
        } else if c == 'v' {
            self.set_visual_mode();
            Action::RedrawStatus
        } else if c == 'g' {
            self.handle_g()
        } else if c == 'G' {
            self.go_to_bottom();
            self.update_key_state(KeyState::Inactive);
            Action::RedrawAll
        } else if c == 'q' {
            if self.command_pending() {
                self.update_key_state(KeyState::Inactive);
                Action::Quit
            } else {
                Action::Nothing
            }
        } else if c == ':' {
            self.handle_colon()
        } else {
            Action::Nothing
        }
    }

    /// Handles one input event: changes the state as the mode and the
    /// pending key say, and tells the front end what to repaint or whether
    /// to end the session.
    pub fn handle_input(&mut self, event: InputEvent) -> (action: Action)
        requires
            old(self)@.wf(),
        ensures
            (final(self)@, action) == old(self)@.step(event),
            final(self)@.wf(),
    {
        match event {
            InputEvent::Key { code, control } => {
                match self.mode {
                    EditorMode::Insert => self.handle_insert_key(code),
                    _ => {
                        match code {
                            KeyCode::Char(c) => {
                                if control {
                                    Action::Nothing
                                } else {
                                    self.handle_command_char(c)
                                }
                            },
                            _ => Action::Nothing,
                        }
                    },
                }
            },
            _ => Action::Nothing,
        }
    }
}

/// A key press in Insert mode leads from a consistent state to a
/// consistent state.
pub proof fn lemma_insert_step_keeps_wf(v: EditorView, code: KeyCode)
    requires
        v.wf(),
    ensures
        v.typed('\t').0.wf(),
        v.erased().0.wf(),
        v.insert_step(code).0.wf(),
{
    assert forall|c: char| (#[trigger] v.typed(c)).0.wf() by {}
}

/// A character key in Normal or Visual mode leads from a consistent state
/// to a consistent state.
pub proof fn lemma_command_char_keeps_wf(v: EditorView, c: char)
    requires
        v.wf(),
    ensures
        v.command_char(c).0.wf(),
{
    if c == 'h' || c == 'j' || c == 'k' || c == 'l' {
        lemma_moves_keep_wf(v);
    } else if c == 'g' {
        lemma_jumps_keep_wf(v);
        let top = v.jumped_to_top();
        assert((EditorView { key_state: PendingKey::Inactive, ..top }).wf());
    } else if c == 'G' {
        lemma_jumps_keep_wf(v);
        let bottom = v.jumped_to_bottom();
        assert((EditorView { key_state: PendingKey::Inactive, ..bottom }).wf());
    }
}

/// Every input event leads from a consistent state to a consistent state.
pub proof fn lemma_step_keeps_wf(v: EditorView, event: InputEvent)
    requires
        v.wf(),
    ensures
        v.step(event).0.wf(),
{
    match event {
        InputEvent::Key { code, control } => {
            if v.mode == EditorMode::Insert {
                lemma_insert_step_keeps_wf(v, code);
            } else {
                match code {
                    KeyCode::Char(c) => {
                        lemma_command_char_keeps_wf(v, c);
                    },
                    _ => {},
                }
            }
        },
        _ => {},
    }
}

/// In Insert mode the pending key plays no part: with another key pending
/// an event does the same to the rest of the state, and leaves that key
/// pending.
pub proof fn lemma_insert_ignores_pending_key(v: EditorView, other: PendingKey, event: InputEvent)
    requires
        v.mode == EditorMode::Insert,
    ensures
        (EditorView { key_state: other, ..v }).step(event) == (
            EditorView { key_state: other, ..v.step(event).0 },
            v.step(event).1,
        ),
{
}

/// The session ends on the key `q` after `:` in Normal or Visual mode, and
/// on nothing else.
pub proof fn lemma_quit_only_after_colon_q(v: EditorView, event: InputEvent)
    ensures
        v.step(event).1 == Action::Quit <==> v.mode != EditorMode::Insert && v.key_state
            == PendingKey::Waiting(':') && event == (InputEvent::Key {
            code: KeyCode::Char('q'),
            control: false,
        }),
{
}

/// The state after the key `g` was pressed twice.
pub open spec fn after_g_twice(v: EditorView) -> EditorView {
    let g = InputEvent::Key { code: KeyCode::Char('g'), control: false };
    v.step(g).0.step(g).0
}

/// With no key pending, in Normal or Visual mode, pressing `g` twice jumps
/// to the top, and doing so once more changes nothing. The cursor lands on
/// row zero and keeps its column wherever the first line reaches that far.
pub proof fn lemma_g_twice_idempotent(v: EditorView)
    requires
        v.mode != EditorMode::Insert,
        v.key_state == PendingKey::Inactive,
    ensures
        after_g_twice(v) == (EditorView { key_state: PendingKey::Inactive, ..v.jumped_to_top() }),
        after_g_twice(after_g_twice(v)) == after_g_twice(v),
        after_g_twice(v).screen_row() == 0,
        v.cursor_column <= after_g_twice(v).end_column() ==> after_g_twice(v).cursor_column
            == v.cursor_column,
{
    let g = InputEvent::Key { code: KeyCode::Char('g'), control: false };
    let first = v.step(g).0;
    assert(first == (EditorView { key_state: PendingKey::Waiting('g'), ..v }));
    let once = first.step(g).0;
    assert(once == (EditorView { key_state: PendingKey::Inactive, ..first.jumped_to_top() }));
    assert(first.jumped_to_top() == (EditorView {
        key_state: PendingKey::Waiting('g'),
        ..v.jumped_to_top()
    }));
    let again = once.step(g).0;
    assert(again == (EditorView { key_state: PendingKey::Waiting('g'), ..once }));
    lemma_jump_to_top_idempotent(v);
    assert(again.jumped_to_top() == (EditorView {
        key_state: PendingKey::Waiting('g'),
        ..v.jumped_to_top()
    }));
}

} // verus!
