//! The status line: mode, position, viewport and pending key, padded to the
//! width of the terminal.

use crate::decimal::decimal;
use crate::editor::{Editor, EditorMode, EditorView, KeyState, PendingKey};
use crate::text::{append_decimal, append_spaces, spaces};
use vstd::prelude::*;
use vstd::string::StringExecFns;

verus! {

/// A pair of numbers in parentheses, separated by a comma and a space.
pub open spec fn pair_text(a: int, b: int) -> Seq<char> {
    "("@ + decimal(a as nat) + ", "@ + decimal(b as nat) + ")"@
}

/// The pending key as shown in the status line.
pub open spec fn key_state_text(key_state: PendingKey) -> Seq<char> {
    match key_state {
        PendingKey::Waiting(c) => "WAITING - "@.push(c),
        _ => "INACTIVE"@,
    }
}

/// The name of the mode as it opens the status line.
pub open spec fn mode_label(mode: EditorMode) -> Seq<char> {
    match mode {
        EditorMode::Normal => " NORMAL"@,
        EditorMode::Insert => " INSERT"@,
        EditorMode::Visual => " VISUAL"@,
    }
}

/// The label in front of the horizontal viewport.
pub open spec fn h_draw_label(mode: EditorMode) -> Seq<char> {
    match mode {
        EditorMode::Normal => " h_draw: "@,
        _ => " h_draw "@,
    }
}

/// The label in front of the logical line counter.
pub open spec fn draw_line_label(mode: EditorMode) -> Seq<char> {
    match mode {
        EditorMode::Insert => "| DrawLine: "@,
        _ => " | DrawLine: "@,
    }
}

/// The number of padding spaces behind a status text of `status_len`
/// characters on a terminal `term_width` columns wide: what is missing to
/// the full width. An empty text gets no padding.
pub open spec fn padding_len(status_len: int, term_width: int) -> nat {
    if status_len <= 0 || term_width <= status_len {
        0
    } else {
        (term_width - status_len) as nat
    }
}

impl EditorView {
    /// The number of the cursor line as shown in the status line: lines are
    /// counted from one.
    pub open spec fn status_line_number(self) -> int {
        self.v_draw_region.0 + self.draw_line
    }

    /// The status text before padding.
    pub open spec fn status_body(self) -> Seq<char> {
        mode_label(self.mode) + " | Line: "@ + decimal(self.status_line_number() as nat) + "/"@
            + decimal(self.lines.len()) + " | v_draw: "@ + pair_text(
            self.v_draw_region.0,
            self.v_draw_region.1,
        ) + h_draw_label(self.mode) + pair_text(self.h_draw_region.0, self.h_draw_region.1)
            + draw_line_label(self.mode) + decimal(self.draw_line as nat) + " | TermSize: "@
            + pair_text(self.term_size.0, self.term_size.1) + " | KeyState: "@ + key_state_text(
            self.key_state,
        )
    }

    /// The status line: the status text, padded with spaces to the width of
    /// the terminal.
    pub open spec fn status_text(self) -> Seq<char> {
        self.status_body() + spaces(
            padding_len(self.status_body().len() as int, self.term_size.0),
        )
    }
}

/// Appends a pair of numbers in parentheses to `out`.
fn append_pair(out: &mut String, pair: (usize, usize))
    ensures
        final(out)@ == old(out)@ + pair_text(pair.0 as int, pair.1 as int),
{
    out.append("(");
    append_decimal(out, pair.0 as u128);
    out.append(", ");
    append_decimal(out, pair.1 as u128);
    out.append(")");
    assert(out@ =~= old(out)@ + pair_text(pair.0 as int, pair.1 as int));
}

impl Editor {
    /// The pending key as shown in the status line.
    pub fn get_key_state_text(&self) -> (text: String)
        ensures
            text@ == key_state_text(self@.key_state),
    {
        match self.key_state {
            KeyState::Waiting(c) => {
                let mut text = String::from_str("WAITING - ");
                text.push(c);
                text
            },
            _ => String::from_str("INACTIVE"),
        }
    }

    /// The spaces that pad a status text of `status_len` characters to
    /// `term_width` columns.
    pub fn status_padding(&self, status_len: usize, term_width: usize) -> (pad: String)
        ensures
            pad@ == spaces(padding_len(status_len as int, term_width as int)),
    {
        let mut pad = String::new();
        if status_len > 0 && term_width > status_len {
            append_spaces(&mut pad, term_width - status_len);
        }
        assert(pad@ =~= spaces(padding_len(status_len as int, term_width as int)));
        pad
    }

    /// The status line for the current state.
    pub fn get_status_message(&self) -> (message: String)
        ensures
            message@ == self@.status_text(),
    {
        let ghost v = self@;
        let mut text = String::new();
        match self.mode {
            EditorMode::Normal => text.append(" NORMAL"),
            EditorMode::Insert => text.append(" INSERT"),
            EditorMode::Visual => text.append(" VISUAL"),
        }
        text.append(" | Line: ");
        append_decimal(&mut text, self.v_draw_region.0 as u128 + self.draw_line as u128);
        text.append("/");
        append_decimal(&mut text, self.lines.len() as u128);
        text.append(" | v_draw: ");
        append_pair(&mut text, self.v_draw_region);
        match self.mode {
            EditorMode::Normal => text.append(" h_draw: "),
            _ => text.append(" h_draw "),
        }
        append_pair(&mut text, self.h_draw_region);
        match self.mode {
            EditorMode::Insert => text.append("| DrawLine: "),
            _ => text.append(" | DrawLine: "),
        }
        append_decimal(&mut text, self.draw_line as u128);
        text.append(" | TermSize: ");
        append_pair(&mut text, self.term_size);
        text.append(" | KeyState: ");
        let ks = self.get_key_state_text();
        text.append(ks.as_str());
        assert(text@ =~= v.status_body());
        let pad = self.status_padding(text.as_str().unicode_len(), self.term_size.0);
        text.append(pad.as_str());
        text
    }

    /// Refreshes the remembered status text.
    pub fn update_status(&mut self)
        ensures
            final(self)@ == (EditorView { status: old(self)@.status_text(), ..old(self)@ }),
    {
        self.status = self.get_status_message();
    }
}

/// The status line is never shorter than the terminal is wide, and exactly
/// as wide where the status text fits.
pub proof fn lemma_status_fills_width(v: EditorView)
    ensures
        v.status_text().len() >= v.term_size.0,
        v.status_body().len() <= v.term_size.0 ==> v.status_text().len() == v.term_size.0,
        v.status_text().subrange(0, v.status_body().len() as int) == v.status_body(),
{
    reveal_strlit(" | Line: ");
    assert(v.status_body().len() > 0);
    assert(v.status_text().subrange(0, v.status_body().len() as int) =~= v.status_body());
}

} // verus!
