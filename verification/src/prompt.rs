//! What the interactive prompts decide: how a typed line is echoed while a
//! password is entered, and what a typed answer to a yes/no question means.

use vstd::prelude::*;
use vstd::string::*;

verus! {

/// The number of terminal columns that `line` takes when it is displayed, as
/// `unicode_width` counts them.
pub uninterp spec fn display_width(line: Seq<char>) -> nat;

/// Trusted: `unicode_width::UnicodeWidthStr::width` on a `str`. The width is
/// computed from the characters of the line alone, so the contract only gives
/// it its name.
#[verifier::external_body]
pub(crate) fn measure(line: &str) -> (columns: usize)
    ensures
        columns as nat == display_width(line@),
{
    unicode_width::UnicodeWidthStr::width(line)
}

/// A row of `n` asterisks.
pub open spec fn stars(n: nat) -> Seq<char> {
    Seq::new(n, |i: int| '*')
}

/// What is shown for `line`: the line itself, or, while masking, one
/// asterisk for each column that the line would take.
pub open spec fn spec_highlight(masking: bool, line: Seq<char>) -> Seq<char> {
    if masking {
        stars(display_width(line))
    } else {
        line
    }
}

/// What a typed answer means: `Y` is yes, `n` is no, and anything else is no
/// answer yet.
pub open spec fn spec_answer(response: Seq<char>) -> Option<bool> {
    if response == seq!['Y'] {
        Some(true)
    } else if response == seq!['n'] {
        Some(false)
    } else {
        None
    }
}

/// Builds a row of `columns` asterisks.
pub fn mask(columns: usize) -> (text: String)
    ensures
        text@ == stars(columns as nat),
{
    proof {
        reveal_strlit("*");
    }
    let mut text: String = String::new();
    let mut done: usize = 0;
    while done < columns
        invariant
            done <= columns,
            text@ == stars(done as nat),
            "*"@ == seq!['*'],
        decreases columns - done,
    {
        text.append("*");
        done = done + 1;
        assert(text@ =~= stars(done as nat));
    }
    text
}

/// Reads a typed answer to a yes/no question. `None` asks for the question
/// to be put again.
pub fn answer(response: &str) -> (verdict: Option<bool>)
    ensures
        verdict == spec_answer(response@),
{
    if response.unicode_len() != 1 {
        return None;
    }
    let typed: char = response.get_char(0);
    assert(response@ =~= seq![typed]);
    if typed == 'Y' {
        Some(true)
    } else if typed == 'n' {
        assert(seq!['n'][0] != seq!['Y'][0]);
        Some(false)
    } else {
        assert(seq![typed][0] != seq!['Y'][0] && seq![typed][0] != seq!['n'][0]);
        None
    }
}

/// Echoes typed text either as it is or masked.
#[derive(Debug, Clone, Copy, PartialEq, Eq)]
pub struct MaskingHighlighter {
    pub masking: bool,
}

impl MaskingHighlighter {
    /// What to show in place of `line`.
    pub fn highlight(&self, line: &str) -> (shown: String)
        ensures
            shown@ == spec_highlight(self.masking, line@),
    {
        if self.masking {
            mask(measure(line))
        } else {
            String::from_str(line)
        }
    }

    /// Whether the line has to be drawn again after each typed character.
    pub fn highlight_char(&self) -> (redraw: bool)
        ensures
            redraw == self.masking,
    {
        self.masking
    }
}

} // verus!
