//! Diagnostic logger: best-effort, append-only event sink. The library
//! owns the line format and the append-only model of a log; the host
//! performs the actual file writes with the lines built here.

use vstd::prelude::*;

verus! {

/// Severity of a supervisory event. Only these levels are ever written,
/// so every line carries an upper-case level tag.
#[derive(Clone, Copy, PartialEq, Eq, Structural, Debug)]
pub enum Level {
    Info,
    Error,
}

impl Level {
    /// The upper-case tag of this level.
    pub open spec fn spec_label(self) -> Seq<char> {
        if self is Info {
            "INFO"@
        } else {
            "ERROR"@
        }
    }

    /// The upper-case tag written between the second pair of brackets.
    pub fn label(self) -> (r: String)
        ensures
            r@ == self.spec_label(),
    {
        if self == Level::Info {
            String::from_str("INFO")
        } else {
            String::from_str("ERROR")
        }
    }
}

/// The decimal digit character for a value below ten.
pub open spec fn digit_char(d: nat) -> char {
    if d == 0 {
        '0'
    } else if d == 1 {
        '1'
    } else if d == 2 {
        '2'
    } else if d == 3 {
        '3'
    } else if d == 4 {
        '4'
    } else if d == 5 {
        '5'
    } else if d == 6 {
        '6'
    } else if d == 7 {
        '7'
    } else if d == 8 {
        '8'
    } else {
        '9'
    }
}

/// The decimal rendering of a natural number, most significant digit
/// first, with no leading zeros except for zero itself.
pub open spec fn dec_seq(n: nat) -> Seq<char>
    decreases n,
{
    if n < 10 {
        seq![digit_char(n)]
    } else {
        dec_seq(n / 10) + seq![digit_char(n % 10)]
    }
}

/// Whether a character is a decimal digit.
pub open spec fn is_dec_digit(c: char) -> bool {
    c == '0' || c == '1' || c == '2' || c == '3' || c == '4' || c == '5' || c == '6' || c == '7'
        || c == '8' || c == '9'
}

/// Every character of a decimal rendering is a digit, and the rendering
/// is never empty.
pub proof fn lemma_dec_seq_digits(n: nat)
    ensures
        dec_seq(n).len() >= 1,
        forall|i: int| 0 <= i < dec_seq(n).len() ==> is_dec_digit(#[trigger] dec_seq(n)[i]),
    decreases n,
{
    if n >= 10 {
        lemma_dec_seq_digits(n / 10);
    }
}

/// Appends one decimal digit character to `out`.
fn push_digit(d: u64, out: &mut String)
    requires
        d < 10,
    ensures
        final(out)@ == old(out)@ + seq![digit_char(d as nat)],
{
    proof {
        reveal_strlit("0");
        reveal_strlit("1");
        reveal_strlit("2");
        reveal_strlit("3");
        reveal_strlit("4");
        reveal_strlit("5");
        reveal_strlit("6");
        reveal_strlit("7");
        reveal_strlit("8");
        reveal_strlit("9");
    }
    if d == 0 {
        out.append("0");
    } else if d == 1 {
        out.append("1");
    } else if d == 2 {
        out.append("2");
    } else if d == 3 {
        out.append("3");
    } else if d == 4 {
        out.append("4");
    } else if d == 5 {
        out.append("5");
    } else if d == 6 {
        out.append("6");
    } else if d == 7 {
        out.append("7");
    } else if d == 8 {
        out.append("8");
    } else {
        out.append("9");
    }
}

/// Appends the decimal rendering of `n` to `out`.
fn push_decimal(n: u64, out: &mut String)
    ensures
        final(out)@ == old(out)@ + dec_seq(n as nat),
    decreases n,
{
    if n >= 10 {
        push_decimal(n / 10, out);
        push_digit(n % 10, out);
        proof {
            assert(old(out)@ + dec_seq((n / 10) as nat) + seq![digit_char((n % 10) as nat)]
                =~= old(out)@ + dec_seq(n as nat));
        }
    } else {
        push_digit(n, out);
    }
}

/// The decimal rendering of a timestamp, as a string.
pub fn decimal_string(n: u64) -> (r: String)
    ensures
        r@ == dec_seq(n as nat),
{
    let mut out = String::new();
    push_decimal(n, &mut out);
    proof {
        assert(Seq::<char>::empty() + dec_seq(n as nat) =~= dec_seq(n as nat));
    }
    out
}

/// Whether a character is an upper-case ASCII letter.
pub open spec fn is_upper_alpha(c: char) -> bool {
    ('A' as u32) <= (c as u32) <= ('Z' as u32)
}

/// A line shaped as `[<first>][<second>] <rest>`.
pub open spec fn bracketed_line(first: Seq<char>, second: Seq<char>, rest: Seq<char>) -> Seq<char> {
    "["@ + first + "]["@ + second + "] "@ + rest
}

/// The one line appended for an event: `[<unix-seconds>][<LEVEL>] <message>`.
pub open spec fn spec_log_line(timestamp: nat, level: Level, message: Seq<char>) -> Seq<char> {
    bracketed_line(dec_seq(timestamp), level.spec_label(), message)
}

/// Builds the log line for one event, without the trailing newline.
pub fn format_log_line(timestamp: u64, level: Level, message: &str) -> (r: String)
    ensures
        r@ == spec_log_line(timestamp as nat, level, message@),
{
    let mut out = String::from_str("[");
    push_decimal(timestamp, &mut out);
    out.append("][");
    let label = level.label();
    out.append(label.as_str());
    out.append("] ");
    out.append(message);
    proof {
        assert(("["@ + dec_seq(timestamp as nat) + "]["@ + level.spec_label() + "] "@
            + message@) =~= out@);
    }
    out
}

/// Whether a line has the shape `[<digits>][<UPPERCASE_LEVEL>] <message>`:
/// a bracketed non-empty run of decimal digits, a bracketed non-empty run
/// of upper-case letters, a space, and the message as the rest of the line.
pub open spec fn matches_log_format(line: Seq<char>) -> bool {
    exists|digits: Seq<char>, tag: Seq<char>, message: Seq<char>|
        {
            &&& line == #[trigger] bracketed_line(digits, tag, message)
            &&& digits.len() >= 1
            &&& forall|i: int| 0 <= i < digits.len() ==> is_dec_digit(#[trigger] digits[i])
            &&& tag.len() >= 1
            &&& forall|i: int| 0 <= i < tag.len() ==> is_upper_alpha(#[trigger] tag[i])
        }
}

/// The level tags are non-empty and entirely upper-case.
pub proof fn lemma_label_upper(level: Level)
    ensures
        level.spec_label().len() >= 1,
        forall|i: int|
            0 <= i < level.spec_label().len() ==> is_upper_alpha(
                #[trigger] level.spec_label()[i],
            ),
{
    reveal_strlit("INFO");
    reveal_strlit("ERROR");
    if level is Info {
        assert forall|i: int| 0 <= i < level.spec_label().len() implies is_upper_alpha(
            level.spec_label()[i],
        ) by {
            assert(level.spec_label() == "INFO"@);
        }
    } else {
        assert forall|i: int| 0 <= i < level.spec_label().len() implies is_upper_alpha(
            level.spec_label()[i],
        ) by {
            assert(level.spec_label() == "ERROR"@);
        }
    }
}

/// Law: every line the logger ever writes matches the diagnostic format
/// `[<digits>][<UPPERCASE_LEVEL>] <message>`.
pub proof fn lemma_log_line_format(timestamp: nat, level: Level, message: Seq<char>)
    ensures
        matches_log_format(spec_log_line(timestamp, level, message)),
{
    lemma_dec_seq_digits(timestamp);
    lemma_label_upper(level);
    assert(spec_log_line(timestamp, level, message) == bracketed_line(
        dec_seq(timestamp),
        level.spec_label(),
        message,
    ));
}

/// An append-only log: the model of one diagnostic log file. Every event
/// adds one formatted line at the end; nothing ever removes or rewrites
/// a line.
pub struct Log {
    lines: Vec<String>,
}

impl Log {
    /// The lines written so far, oldest first.
    pub closed spec fn view(self) -> Seq<Seq<char>> {
        self.lines@.map_values(|l: String| l@)
    }

    /// An empty log.
    pub fn new() -> (r: Log)
        ensures
            r@ =~= Seq::<Seq<char>>::empty(),
    {
        Log { lines: Vec::new() }
    }

    /// The number of lines written so far.
    pub fn len(&self) -> (r: usize)
        ensures
            r == self@.len(),
    {
        self.lines.len()
    }

    /// The line at a given position.
    pub fn line_at(&self, i: usize) -> (r: &String)
        requires
            i < self@.len(),
        ensures
            r@ == self@[i as int],
    {
        &self.lines[i]
    }

    /// Records one event: appends exactly one formatted line; every line
    /// already present is left in place.
    pub fn append(&mut self, timestamp: u64, level: Level, message: &str)
        ensures
            final(self)@ =~= old(self)@.push(
                spec_log_line(timestamp as nat, level, message@),
            ),
    {
        let line = format_log_line(timestamp, level, message);
        self.lines.push(line);
    }
}

/// Law: an appended line always matches the diagnostic format, and a
/// call to `append` only ever adds after the existing lines — the prior
/// content is a prefix of the new content, never overwritten.
pub proof fn lemma_log_append_only(log: Log, new_log: Log, timestamp: nat, level: Level, message: Seq<char>)
    requires
        new_log@ == log@.push(spec_log_line(timestamp, level, message)),
    ensures
        new_log@.len() == log@.len() + 1,
        forall|i: int| 0 <= i < log@.len() ==> new_log@[i] == log@[i],
        matches_log_format(new_log@[log@.len() as int]),
{
    lemma_log_line_format(timestamp, level, message);
}

} // verus!
