//! The table of categories and scores that is shown to the user.

use vstd::prelude::*;
use vstd::string::*;

verus! {

/// The width of the column of categories.
pub const CATEGORY_WIDTH: usize = 10;

/// The width of the column of scores.
pub const SCORE_WIDTH: usize = 7;

/// `n` blanks.
pub open spec fn blanks(n: nat) -> Seq<char> {
    Seq::new(n, |i: int| ' ')
}

/// `text` in the middle of a field of `width` characters: the blanks that
/// are missing are split between both sides, the odd one to the right. A text
/// that fills the field or is longer stays as it is.
pub open spec fn centered(text: Seq<char>, width: nat) -> Seq<char> {
    if text.len() >= width {
        text
    } else {
        let missing = (width - text.len()) as nat;
        blanks(missing / 2) + text + blanks((missing - missing / 2) as nat)
    }
}

/// `text` at the left of a field of `width` characters. A text that fills the
/// field or is longer stays as it is.
pub open spec fn left_aligned(text: Seq<char>, width: nat) -> Seq<char> {
    if text.len() >= width {
        text
    } else {
        text + blanks((width - text.len()) as nat)
    }
}

/// The line above the scores.
pub open spec fn header_text() -> Seq<char> {
    centered("Category"@, CATEGORY_WIDTH as nat) + " "@ + centered("Score"@, SCORE_WIDTH as nat)
}

/// The line of one category: its label, a blank, its score.
pub open spec fn line_text(label: Seq<char>, score: Seq<char>) -> Seq<char> {
    centered(label, CATEGORY_WIDTH as nat) + " "@ + left_aligned(score, SCORE_WIDTH as nat)
}

/// Appends `n` blanks to `out`.
fn push_blanks(out: &mut String, n: usize)
    ensures
        final(out)@ == old(out)@ + blanks(n as nat),
{
    let mut i: usize = 0;
    assert(out@ =~= old(out)@ + blanks(0));
    while i < n
        invariant
            i <= n,
            out@ == old(out)@ + blanks(i as nat),
        decreases n - i,
    {
        proof {
            reveal_strlit(" ");
        }
        out.append(" ");
        assert(out@ =~= old(out)@ + blanks((i + 1) as nat));
        i += 1;
    }
}

/// `text` in the middle of a field of `width` characters.
pub fn center(text: &str, width: usize) -> (out: String)
    ensures
        out@ == centered(text@, width as nat),
{
    let n = text.unicode_len();
    let mut out = String::new();
    if n >= width {
        out.append(text);
        assert(out@ =~= text@);
    } else {
        let missing = width - n;
        let left = missing / 2;
        push_blanks(&mut out, left);
        out.append(text);
        push_blanks(&mut out, missing - left);
        assert(out@ =~= centered(text@, width as nat));
    }
    out
}

/// `text` at the left of a field of `width` characters.
pub fn left_align(text: &str, width: usize) -> (out: String)
    ensures
        out@ == left_aligned(text@, width as nat),
{
    let n = text.unicode_len();
    let mut out = String::from_str(text);
    if n < width {
        push_blanks(&mut out, width - n);
    }
    out
}

/// The line above the scores.
pub fn header_line() -> (line: String)
    ensures
        line@ == header_text(),
{
    let mut line = center("Category", CATEGORY_WIDTH);
    line.append(" ");
    let score = center("Score", SCORE_WIDTH);
    line.append(score.as_str());
    line
}

/// The line of one category. `score` is the score as it is to be read, with
/// its decimal places.
pub fn score_line(label: &str, score: &str) -> (line: String)
    ensures
        line@ == line_text(label@, score@),
{
    let mut line = center(label, CATEGORY_WIDTH);
    line.append(" ");
    let right = left_align(score, SCORE_WIDTH);
    line.append(right.as_str());
    line
}

/// A field is as wide as asked for, or as wide as a text that does not fit:
/// no text is cut, and texts that fit give columns of one width.
pub proof fn lemma_field_width(text: Seq<char>, width: nat)
    ensures
        centered(text, width).len() == if text.len() >= width {
            text.len()
        } else {
            width
        },
        left_aligned(text, width).len() == centered(text, width).len(),
        text.len() <= width ==> left_aligned(text, width).subrange(0, text.len() as int) == text,
{
    if text.len() <= width {
        assert(left_aligned(text, width).subrange(0, text.len() as int) =~= text);
    }
}

/// The table of a result: the header, then one line for each entry of
/// `entries`, a label with its score as it is to be read, in their order.
pub fn table(entries: &Vec<(String, String)>) -> (lines: Vec<String>)
    ensures
        lines@.len() == entries@.len() + 1,
        lines@[0]@ == header_text(),
        forall|i: int|
            0 <= i < entries@.len() ==> (#[trigger] lines@[i + 1])@ == line_text(
                entries@[i].0@,
                entries@[i].1@,
            ),
{
    let mut lines: Vec<String> = Vec::new();
    lines.push(header_line());
    let mut i: usize = 0;
    while i < entries.len()
        invariant
            i <= entries@.len(),
            lines@.len() == i + 1,
            lines@[0]@ == header_text(),
            forall|k: int|
                0 <= k < i ==> (#[trigger] lines@[k + 1])@ == line_text(
                    entries@[k].0@,
                    entries@[k].1@,
                ),
        decreases entries@.len() - i,
    {
        let line = score_line(entries[i].0.as_str(), entries[i].1.as_str());
        lines.push(line);
        i += 1;
    }
    lines
}

} // verus!
