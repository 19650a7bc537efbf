//! The leveled diagnostics of the framework: how one line of the console log
//! is put together.
//!
//! A line holds the time, the place in the source that wrote it, the level
//! and the message. The time comes from outside, as text; writing the line is
//! left to the caller.

use vstd::prelude::*;
use vstd::string::{StrSliceExecFns, StringExecFns};

verus! {

/// How grave a diagnostic is, from the least to the most.
#[derive(Clone, Copy, Debug, PartialEq, Eq, Structural)]
pub enum LogLevel {
    Trace,
    Info,
    Warn,
    Error,
    Fatal,
}

/// The width to which the place in the source is centred.
pub const PLACE_WIDTH: usize = 15;

impl LogLevel {
    /// The coloured tag that stands for this level in a line.
    pub open spec fn label(self) -> Seq<char> {
        match self {
            LogLevel::Trace => "\x1b[44;30m  TRC  \x1b[0m"@,
            LogLevel::Info => "\x1b[42;30m  INF  \x1b[0m"@,
            LogLevel::Warn => "\x1b[43;30m  WRN  \x1b[0m"@,
            LogLevel::Error => "\x1b[41;30m  ERR  \x1b[0m"@,
            LogLevel::Fatal => "\x1b[1;41;33m FATAL \x1b[0m"@,
        }
    }

    /// The coloured tag that stands for this level in a line.
    pub fn tag(self) -> (tag: &'static str)
        ensures
            tag@ == self.label(),
    {
        match self {
            LogLevel::Trace => "\x1b[44;30m  TRC  \x1b[0m",
            LogLevel::Info => "\x1b[42;30m  INF  \x1b[0m",
            LogLevel::Warn => "\x1b[43;30m  WRN  \x1b[0m",
            LogLevel::Error => "\x1b[41;30m  ERR  \x1b[0m",
            LogLevel::Fatal => "\x1b[1;41;33m FATAL \x1b[0m",
        }
    }
}

/// What follows the last `/` of `path`; all of `path` where it holds none.
pub open spec fn last_segment(path: Seq<char>) -> Seq<char>
    decreases path.len(),
{
    if path.len() == 0 {
        path
    } else if path.last() == '/' {
        Seq::empty()
    } else {
        last_segment(path.drop_last()).push(path.last())
    }
}

/// A tail of `path` that holds no `/` and begins at the start of `path` or
/// right behind a `/` is the last segment.
pub proof fn lemma_last_segment_from(path: Seq<char>, start: int)
    requires
        0 <= start <= path.len(),
        forall|i: int| start <= i < path.len() ==> path[i] != '/',
        start == 0 || path[start - 1] == '/',
    ensures
        last_segment(path) == path.subrange(start, path.len() as int),
    decreases path.len(),
{
    if path.len() == 0 {
        assert(path.subrange(start, path.len() as int) =~= path);
    } else if start == path.len() {
        assert(path.subrange(start, path.len() as int) =~= Seq::<char>::empty());
    } else {
        let shorter = path.drop_last();
        lemma_last_segment_from(shorter, start);
        assert(shorter.subrange(start, shorter.len() as int).push(path.last())
            =~= path.subrange(start, path.len() as int));
    }
}

/// The last segment is the one tail of `path` without a `/` that begins at
/// the start of `path` or right behind a `/`.
pub proof fn lemma_last_segment_is_tail(path: Seq<char>)
    ensures
        last_segment(path).len() <= path.len(),
        last_segment(path) == path.subrange(
            path.len() - last_segment(path).len(),
            path.len() as int,
        ),
        !last_segment(path).contains('/'),
        last_segment(path).len() == path.len() || path[path.len() - last_segment(path).len()
            - 1] == '/',
    decreases path.len(),
{
    let name = last_segment(path);
    if path.len() == 0 {
        assert(path.subrange(0, 0) =~= path);
    } else if path.last() == '/' {
        assert(path.subrange(path.len() as int, path.len() as int) =~= Seq::<char>::empty());
    } else {
        let shorter = path.drop_last();
        let inner = last_segment(shorter);
        lemma_last_segment_is_tail(shorter);
        assert(name =~= path.subrange(path.len() - name.len(), path.len() as int));
        assert forall|i: int| 0 <= i < name.len() implies name[i] != '/' by {
            if i < inner.len() {
                assert(inner.contains(inner[i]));
            }
        }
    }
}

/// The file's name in `path`: what follows its last `/`.
pub fn file_name(path: &str) -> (name: &str)
    ensures
        name@ == last_segment(path@),
{
    let len = path.unicode_len();
    let mut start = len;
    while start > 0 && path.get_char(start - 1) != '/'
        invariant
            start <= len,
            len == path@.len(),
            forall|i: int| start <= i < len ==> path@[i] != '/',
        decreases start,
    {
        start -= 1;
    }
    proof {
        lemma_last_segment_from(path@, start as int);
    }
    path.substring_char(start, len)
}

/// The decimal digit for `d`, which is below ten.
pub open spec fn digit(d: nat) -> char {
    if d == 0 {
        '0'
    } else if d == 1 {
        '1'
    } else if d == 2 {
        '2'
    } else if d == 3 {
        '3'
    } else if d == 4 {
        '4'
    } else if d == 5 {
        '5'
    } else if d == 6 {
        '6'
    } else if d == 7 {
        '7'
    } else if d == 8 {
        '8'
    } else {
        '9'
    }
}

/// `n` in decimal, without leading zeros.
pub open spec fn decimal(n: nat) -> Seq<char>
    decreases n,
{
    if n < 10 {
        seq![digit(n)]
    } else {
        decimal(n / 10).push(digit(n % 10))
    }
}

/// The digit for `d` as text.
fn digit_text(d: u32) -> (text: &'static str)
    requires
        d < 10,
    ensures
        text@ == seq![digit(d as nat)],
{
    proof {
        reveal_strlit("0");
        reveal_strlit("1");
        reveal_strlit("2");
        reveal_strlit("3");
        reveal_strlit("4");
        reveal_strlit("5");
        reveal_strlit("6");
        reveal_strlit("7");
        reveal_strlit("8");
        reveal_strlit("9");
    }
    let text = if d == 0 {
        "0"
    } else if d == 1 {
        "1"
    } else if d == 2 {
        "2"
    } else if d == 3 {
        "3"
    } else if d == 4 {
        "4"
    } else if d == 5 {
        "5"
    } else if d == 6 {
        "6"
    } else if d == 7 {
        "7"
    } else if d == 8 {
        "8"
    } else {
        "9"
    };
    assert(text@ =~= seq![digit(d as nat)]);
    text
}

/// `n` in decimal, without leading zeros.
pub fn decimal_text(n: u32) -> (text: String)
    ensures
        text@ == decimal(n as nat),
    decreases n,
{
    if n < 10 {
        String::from_str(digit_text(n))
    } else {
        let text = decimal_text(n / 10).concat(digit_text(n % 10));
        assert(text@ =~= decimal(n as nat));
        text
    }
}

/// Where in the source a line was written: the file's name, a colon and the
/// line's number.
pub open spec fn place(file: Seq<char>, line: nat) -> Seq<char> {
    last_segment(file) + seq![':'] + decimal(line)
}

/// Where in the source a line was written: the file's name, a colon and the
/// line's number.
pub fn place_text(file: &str, line: u32) -> (text: String)
    ensures
        text@ == place(file@, line as nat),
{
    proof {
        reveal_strlit(":");
    }
    let number = decimal_text(line);
    let text = String::from_str(file_name(file)).concat(":").concat(number.as_str());
    assert(":"@ =~= seq![':']);
    text
}

/// `count` blanks.
pub open spec fn blanks(count: nat) -> Seq<char> {
    Seq::new(count, |i: int| ' ')
}

/// `text` in the middle of a field of `width` characters: blanks on both
/// sides, the odd one on the right. A text that fills the field stays as it
/// is.
pub open spec fn centered(text: Seq<char>, width: nat) -> Seq<char> {
    if text.len() >= width {
        text
    } else {
        let missing = (width - text.len()) as nat;
        blanks(missing / 2) + text + blanks((missing - missing / 2) as nat)
    }
}

/// Appends `count` blanks to `text`.
fn push_blanks(text: &mut String, count: usize)
    ensures
        final(text)@ == old(text)@ + blanks(count as nat),
{
    proof {
        reveal_strlit(" ");
    }
    let mut done: usize = 0;
    assert(text@ =~= old(text)@ + blanks(0));
    while done < count
        invariant
            done <= count,
            text@ == old(text)@ + blanks(done as nat),
            " "@ == seq![' '],
        decreases count - done,
    {
        text.append(" ");
        assert(text@ =~= old(text)@ + blanks((done + 1) as nat));
        done += 1;
    }
}

/// `text` in the middle of a field of `width` characters.
pub fn centered_text(text: &str, width: usize) -> (field: String)
    ensures
        field@ == centered(text@, width as nat),
{
    let len = text.unicode_len();
    if len >= width {
        String::from_str(text)
    } else {
        let missing = width - len;
        let mut field = String::new();
        push_blanks(&mut field, missing / 2);
        field.append(text);
        push_blanks(&mut field, missing - missing / 2);
        assert(field@ =~= centered(text@, width as nat));
        field
    }
}

/// One line of the log: the time in bold, the place in the source centred in
/// its field, the level's tag, a bar, the message and a line break.
pub open spec fn record(
    time: Seq<char>,
    message: Seq<char>,
    level: LogLevel,
    file: Seq<char>,
    line: nat,
) -> Seq<char> {
    "\x1b[1;37;100m"@ + time + "\x1b[22;3;97m "@ + centered(place(file, line), PLACE_WIDTH as nat)
        + " "@ + level.label() + "\u{2502} "@ + message + "\n"@
}

/// Puts one line of the log together. `time` is the moment as it is to be
/// shown, `file` the path of the source file that reports and `line` the line
/// in it.
pub fn format_record(time: &str, message: &str, level: LogLevel, file: &str, line: u32) -> (text:
    String)
    ensures
        text@ == record(time@, message@, level, file@, line as nat),
{
    let place = place_text(file, line);
    let field = centered_text(place.as_str(), PLACE_WIDTH);
    let mut text = String::from_str("\x1b[1;37;100m");
    text.append(time);
    text.append("\x1b[22;3;97m ");
    text.append(field.as_str());
    text.append(" ");
    text.append(level.tag());
    text.append("\u{2502} ");
    text.append(message);
    text.append("\n");
    text
}

} // verus!
