//! A line of text: the unit of storage of the buffer.

use vstd::math::min;
use vstd::prelude::*;

verus! {

/// The text `text` with `c` inserted at index `i`; an index past the end
/// means the end.
pub open spec fn insert_at(text: Seq<char>, i: int, c: char) -> Seq<char> {
    text.insert(min(i, text.len() as int), c)
}

/// The text `text` without the character just before column `i`. Column
/// zero has no character before it, and an empty text has none at all: both
/// leave the text as it is. A column past the end means the end.
pub open spec fn remove_before(text: Seq<char>, i: int) -> Seq<char> {
    if i <= 0 || text.len() == 0 {
        text
    } else {
        text.remove(min(i, text.len() as int) - 1)
    }
}

/// An ordered sequence of characters, without a line terminator.
#[derive(Debug)]
pub struct Line {
    pub line_chars: Vec<char>,
}

impl View for Line {
    type V = Seq<char>;

    open spec fn view(&self) -> Seq<char> {
        self.line_chars@
    }
}

impl Line {
    /// An empty line.
    pub fn new() -> (line: Line)
        ensures
            line@ == Seq::<char>::empty(),
    {
        Line { line_chars: Vec::new() }
    }

    /// The line that holds the characters of `text`, in order.
    pub fn from_text(text: &str) -> (line: Line)
        ensures
            line@ == text@,
    {
        let mut line_chars: Vec<char> = Vec::new();
        for c in it: text.chars()
            invariant
                it.seq() == text@,
                line_chars@ == it.seq().take(it.index() as int),
        {
            line_chars.push(c);
        }
        Line { line_chars }
    }

    /// The number of characters in the line.
    pub fn len(&self) -> (n: usize)
        ensures
            n == self@.len(),
    {
        self.line_chars.len()
    }

    /// Inserts `c` at index `i`. An index past the end is clamped to the end.
    pub fn insert_char_at_cursor(&mut self, i: usize, c: char)
        ensures
            final(self)@ == insert_at(old(self)@, i as int, c),
    {
        let at: usize = if i <= self.line_chars.len() {
            i
        } else {
            self.line_chars.len()
        };
        self.line_chars.insert(at, c);
    }

    /// Removes the character just before column `i`. At column zero, and on
    /// an empty line, nothing is removed; a column past the end is clamped
    /// to the end.
    pub fn remove_char_at(&mut self, i: usize)
        ensures
            final(self)@ == remove_before(old(self)@, i as int),
    {
        let len: usize = self.line_chars.len();
        if i > 0 && len > 0 {
            let column: usize = if i <= len {
                i
            } else {
                len
            };
            self.line_chars.remove(column - 1);
        }
    }
}

/// Inserting a character at a column and then removing the character before
/// the next column gives back the text as it was.
pub proof fn lemma_insert_then_remove(text: Seq<char>, k: int, c: char)
    requires
        0 <= k,
    ensures
        remove_before(insert_at(text, k, c), k + 1) == text,
{
    assert(remove_before(insert_at(text, k, c), k + 1) =~= text);
}

} // verus!
