//! Reprinting of multiline text: what was printed last is cleared line by
//! line before the new text is sent.

use crossterm::cursor::MoveToPreviousLine;
use crossterm::style::Print;
use crossterm::terminal::{Clear, ClearType};
use crossterm::Command;
use vstd::prelude::*;
use vstd::string::StrSliceExecFns;

verus! {

/// Whether `text` ends in a line feed.
pub open spec fn ends_with_newline(text: Seq<char>) -> bool {
    text.len() > 0 && text.last() == '\n'
}

/// `text` with every line feed preceded by a carriage return.
pub open spec fn expanded(text: Seq<char>) -> Seq<char>
    decreases text.len(),
{
    if text.len() == 0 {
        Seq::empty()
    } else if text.last() == '\n' {
        expanded(text.drop_last()).push('\r').push('\n')
    } else {
        expanded(text.drop_last()).push(text.last())
    }
}

/// What the terminal is sent for `text`: the text closed by a line feed if
/// it had none, each line feed then turned into carriage return, line feed.
pub open spec fn normalized(text: Seq<char>) -> Seq<char> {
    if ends_with_newline(text) {
        expanded(text)
    } else {
        expanded(text.push('\n'))
    }
}

/// `String::push` appends the one character to the string.
pub assume_specification[ String::push ](s: &mut String, ch: char)
    ensures
        final(s)@ == old(s)@.push(ch),
;

/// Makes `view` fit for a terminal in raw mode: the text is closed by a line
/// feed if it has none, and every line feed is preceded by a carriage return.
pub fn normalized_view(view: String) -> (out: String)
    ensures
        out@ == normalized(view@),
{
    let mut out = String::new();
    let mut open_line = true;
    for c in it: view.as_str().chars()
        invariant
            it.seq() == view@,
            out@ == expanded(view@.take(it.index() as int)),
            open_line == !ends_with_newline(view@.take(it.index() as int)),
    {
        proof {
            let next = view@.take(it.index() + 1);
            assert(next.drop_last() == view@.take(it.index() as int));
        }
        if c == '\n' {
            out.push('\r');
            out.push('\n');
            open_line = false;
        } else {
            out.push(c);
            open_line = true;
        }
    }
    proof {
        assert(view@.take(view@.len() as int) == view@);
        assert(view@.push('\n').drop_last() == view@);
    }
    if open_line {
        out.push('\r');
        out.push('\n');
    }
    out
}

/// How often carriage return, line feed occurs in `text`.
pub open spec fn line_breaks(text: Seq<char>) -> nat
    decreases text.len(),
{
    if text.len() < 2 {
        0
    } else if text[text.len() - 2] == '\r' && text.last() == '\n' {
        line_breaks(text.drop_last()) + 1
    } else {
        line_breaks(text.drop_last())
    }
}

/// How many line feeds `text` holds.
pub open spec fn newlines(text: Seq<char>) -> nat
    decreases text.len(),
{
    if text.len() == 0 {
        0
    } else if text.last() == '\n' {
        newlines(text.drop_last()) + 1
    } else {
        newlines(text.drop_last())
    }
}

/// How many lines `text` takes on the terminal: one for each line feed, and
/// one more where the last line is not closed by one.
pub open spec fn line_count(text: Seq<char>) -> nat {
    if ends_with_newline(text) {
        newlines(text)
    } else {
        newlines(text) + 1
    }
}

/// The decimal digit `d`, for `d` below ten.
pub open spec fn digit(d: nat) -> char {
    (0x30 + d) as u8 as char
}

/// `n` written in decimal, without leading zeros.
pub open spec fn decimal(n: nat) -> Seq<char>
    decreases n,
{
    if n < 10 {
        seq![digit(n)]
    } else {
        decimal(n / 10).push(digit(n % 10))
    }
}

/// The control sequence that moves the cursor to the start of the line
/// `lines` above it: escape, `[`, the count in decimal, `F`.
pub open spec fn move_to_previous_line_code(lines: u16) -> Seq<char> {
    seq!['\x1b', '['] + decimal(lines as nat) + seq!['F']
}

/// The part of the screen that a clear command erases.
#[derive(Clone, Copy, Debug, PartialEq, Eq)]
pub enum Region {
    /// All cells.
    All,
    /// All cells and the history.
    Purge,
    /// All cells from the cursor downwards.
    FromCursorDown,
    /// All cells from the cursor upwards.
    FromCursorUp,
    /// All cells of the cursor's row.
    CurrentLine,
    /// All cells from the cursor to the end of its row.
    UntilNewLine,
}

/// The control sequence that erases `region`.
pub open spec fn clear_code(region: Region) -> Seq<char> {
    match region {
        Region::All => seq!['\x1b', '[', '2', 'J'],
        Region::Purge => seq!['\x1b', '[', '3', 'J'],
        Region::FromCursorDown => seq!['\x1b', '[', 'J'],
        Region::FromCursorUp => seq!['\x1b', '[', '1', 'J'],
        Region::CurrentLine => seq!['\x1b', '[', '2', 'K'],
        Region::UntilNewLine => seq!['\x1b', '[', 'K'],
    }
}

/// What takes back one printed line: up one line, then erase that line.
pub open spec fn clear_line_code() -> Seq<char> {
    move_to_previous_line_code(1) + clear_code(Region::CurrentLine)
}

/// What takes back `lines` printed lines.
pub open spec fn clearing(lines: nat) -> Seq<char>
    decreases lines,
{
    if lines == 0 {
        Seq::empty()
    } else {
        clearing((lines - 1) as nat) + clear_line_code()
    }
}

/// Trusted: `crossterm::Command::write_ansi` of
/// `crossterm::cursor::MoveToPreviousLine(lines)`, into a `String`. It
/// appends escape, `[`, `lines` in decimal and `F`; writing into a `String`
/// does not fail.
#[verifier::external_body]
fn write_move_to_previous_line(out: &mut String, lines: u16)
    ensures
        final(out)@ == old(out)@ + move_to_previous_line_code(lines),
{
    let _ = MoveToPreviousLine(lines).write_ansi(out);
}

/// Trusted: `crossterm::Command::write_ansi` of
/// `crossterm::terminal::Clear`, into a `String`. It appends the fixed control
/// sequence of the clear type that `region` stands for.
#[verifier::external_body]
fn write_clear(out: &mut String, region: Region)
    ensures
        final(out)@ == old(out)@ + clear_code(region),
{
    let clear_type = match region {
        Region::All => ClearType::All,
        Region::Purge => ClearType::Purge,
        Region::FromCursorDown => ClearType::FromCursorDown,
        Region::FromCursorUp => ClearType::FromCursorUp,
        Region::CurrentLine => ClearType::CurrentLine,
        Region::UntilNewLine => ClearType::UntilNewLine,
    };
    let _ = Clear(clear_type).write_ansi(out);
}

/// Trusted: `crossterm::Command::write_ansi` of `crossterm::style::Print`
/// holding a string slice, into a `String`. It appends the slice unchanged.
#[verifier::external_body]
fn write_print(out: &mut String, text: &str)
    ensures
        final(out)@ == old(out)@ + text@,
{
    let _ = Print(text).write_ansi(out);
}

/// Counts the line breaks (carriage return, line feed) in `text`.
pub fn count_line_breaks(text: &str) -> (count: usize)
    ensures
        count == line_breaks(text@),
{
    // The characters can be counted in a `usize`, and so can the line breaks
    // among them.
    let total = text.unicode_len();
    let mut count: usize = 0;
    let mut after_return = false;
    for c in it: text.chars()
        invariant
            it.seq() == text@,
            total == text@.len(),
            count == line_breaks(text@.take(it.index() as int)),
            count <= it.index(),
            after_return == (it.index() > 0 && text@[it.index() - 1] == '\r'),
    {
        proof {
            let next = text@.take(it.index() + 1);
            assert(next.drop_last() == text@.take(it.index() as int));
        }
        if after_return && c == '\n' {
            count = count + 1;
        }
        after_return = c == '\r';
    }
    proof {
        assert(text@.take(text@.len() as int) == text@);
    }
    count
}

/// The two texts that a printer holds.
pub struct Frames {
    /// What was printed last.
    pub previous: Seq<char>,
    /// What is printed next.
    pub current: Seq<char>,
}

/// Prints multiline text to the terminal.
///
/// Multiline text must be separated by the newline character. The previously
/// printed lines are cleared before printing the new text.
pub struct StringPrinter {
    prev: String,
    curr: String,
}

impl View for StringPrinter {
    type V = Frames;

    closed spec fn view(&self) -> Frames {
        Frames { previous: self.prev@, current: self.curr@ }
    }
}

/// What a printer holding `frames` sends to the terminal: the sequences that
/// take back each line printed last, then the new text.
pub open spec fn printed(frames: Frames) -> Seq<char> {
    clearing(line_breaks(frames.previous)) + frames.current
}

impl StringPrinter {
    /// A printer that has printed nothing and holds nothing to print.
    pub fn new() -> (printer: Self)
        ensures
            printer@ == (Frames { previous: Seq::empty(), current: Seq::empty() }),
    {
        Self { prev: String::new(), curr: String::new() }
    }

    /// Update the text to be printed. Make sure to only call this once before
    /// printing. Multiple invocations will cause the previously printed text
    /// to be forgotten which in turn breaks the ability to clear previously
    /// printed lines.
    pub fn update(&mut self, view: String)
        ensures
            final(self)@ == (Frames {
                previous: old(self)@.current,
                current: normalized(view@),
            }),
    {
        self.prev = self.curr.clone();
        self.curr = normalized_view(view);
    }

    /// Clear previously printed lines and print the new text: appends to
    /// `out` what the terminal is to receive.
    pub fn print(&self, out: &mut String)
        ensures
            final(out)@ == old(out)@ + printed(self@),
    {
        self.clear_lines(out);
        write_print(out, self.curr.as_str());
    }

    /// Appends to `out` what takes back each line that was printed last.
    fn clear_lines(&self, out: &mut String)
        ensures
            final(out)@ == old(out)@ + clearing(line_breaks(self@.previous)),
    {
        let count = count_line_breaks(self.prev.as_str());
        let mut done: usize = 0;
        while done < count
            invariant
                done <= count,
                out@ == old(out)@ + clearing(done as nat),
            decreases count - done,
        {
            write_move_to_previous_line(out, 1);
            write_clear(out, Region::CurrentLine);
            done = done + 1;
        }
    }
}

/// Each line feed of `text` makes one line break of the expanded text, and
/// nothing else does.
proof fn lemma_expanded_line_breaks(text: Seq<char>)
    ensures
        line_breaks(expanded(text)) == newlines(text),
    decreases text.len(),
{
    if text.len() > 0 {
        let head = expanded(text.drop_last());
        lemma_expanded_line_breaks(text.drop_last());
        if text.last() == '\n' {
            let turned = head.push('\r');
            let whole = turned.push('\n');
            assert(whole.drop_last() == turned);
            assert(turned.drop_last() == head);
            assert(line_breaks(turned) == line_breaks(head));
        } else {
            let whole = head.push(text.last());
            assert(whole.drop_last() == head);
        }
    }
}

/// Printing clears exactly the lines that were printed before. What the
/// terminal is sent for a text holds one line break for each line of that
/// text; so a printer that has printed `before` and is to print `after`
/// takes back each line of `before`, then sends `after`.
pub proof fn law_print_clears_every_line(before: Seq<char>, after: Seq<char>)
    ensures
        line_breaks(normalized(before)) == line_count(before),
        printed(Frames { previous: normalized(before), current: normalized(after) }) == clearing(
            line_count(before),
        ) + normalized(after),
{
    lemma_expanded_line_breaks(before);
    lemma_expanded_line_breaks(before.push('\n'));
    assert(before.push('\n').drop_last() == before);
}

} // verus!
