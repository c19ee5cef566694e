//! Support layer for plugins hosted by a real-time media gateway.
//!
//! The core is the session-state binder of [`session`], whose lifecycle
//! guarantees are proved in [`lifecycle`].  Around it stands the composition
//! of leveled log lines: a timestamp when the host asks for one, a severity
//! tag for the quieter levels, and the message, joined by single spaces.
//! Fetching the clock text and coloring a tag go through the `chrono` and
//! `colored` crates; handing the finished line to the host's output routine
//! is I/O and stays outside the library.

use vstd::prelude::*;
use vstd::string::StringExecFns;
use colored::Colorize;

pub mod lifecycle;
pub mod session;

verus! {

/// Severity levels for log messages, ordered from most to least severe.
#[derive(Debug, Copy, Clone, PartialEq, Eq, Hash, PartialOrd, Ord)]
pub enum LogLevel {
    Fatal,
    Error,
    Warn,
    Info,
    Verb,
    Huge,
    Dbg,
}

/// The escape character that starts an ANSI color sequence.
pub open spec fn esc() -> char {
    '\u{1B}'
}

/// A string wrapped in the ANSI escape sequence that colors it: the color's
/// foreground code, the text, and the reset sequence.
pub open spec fn ansi_wrapped(code: Seq<char>, s: Seq<char>) -> Seq<char> {
    seq![esc(), '['] + code + seq!['m'] + s + seq![esc(), '[', '0', 'm']
}

impl LogLevel {
    /// Rank of a level: lower means more severe.
    pub open spec fn severity(self) -> int {
        match self {
            LogLevel::Fatal => 0,
            LogLevel::Error => 1,
            LogLevel::Warn => 2,
            LogLevel::Info => 3,
            LogLevel::Verb => 4,
            LogLevel::Huge => 5,
            LogLevel::Dbg => 6,
        }
    }

    /// The level's bracketed upper-case tag.
    pub open spec fn label_spec(self) -> Seq<char> {
        match self {
            LogLevel::Fatal => "[FATAL]"@,
            LogLevel::Error => "[ERR]"@,
            LogLevel::Warn => "[WARN]"@,
            LogLevel::Info => "[INFO]"@,
            LogLevel::Verb => "[VERB]"@,
            LogLevel::Huge => "[HUGE]"@,
            LogLevel::Dbg => "[DBG]"@,
        }
    }

    /// The ANSI foreground code the level's tag is colored with, if any:
    /// magenta for fatal, red for errors, yellow for warnings.
    pub open spec fn color_code(self) -> Option<Seq<char>> {
        match self {
            LogLevel::Fatal => Some(seq!['3', '5']),
            LogLevel::Error => Some(seq!['3', '1']),
            LogLevel::Warn => Some(seq!['3', '3']),
            _ => None,
        }
    }

    /// What a displayed tag may look like: the plain label, or — for the
    /// colored levels, when the environment enables colors — the label
    /// wrapped in its ANSI color sequence.
    pub open spec fn display_ok(self, out: Seq<char>) -> bool {
        match self.color_code() {
            Some(code) => out == self.label_spec() || out == ansi_wrapped(code, self.label_spec()),
            None => out == self.label_spec(),
        }
    }

    /// The level's bracketed upper-case tag.
    pub fn label(self) -> (r: &'static str)
        ensures
            r@ == self.label_spec(),
    {
        match self {
            LogLevel::Fatal => "[FATAL]",
            LogLevel::Error => "[ERR]",
            LogLevel::Warn => "[WARN]",
            LogLevel::Info => "[INFO]",
            LogLevel::Verb => "[VERB]",
            LogLevel::Huge => "[HUGE]",
            LogLevel::Dbg => "[DBG]",
        }
    }

    /// Whether a log line carries the level's tag: warnings and every less
    /// severe level are tagged.
    pub fn tag_included(self) -> (r: bool)
        ensures
            r == (self.severity() >= 2),
    {
        match self {
            LogLevel::Fatal => false,
            LogLevel::Error => false,
            _ => true,
        }
    }

    /// The tag as displayed: colored for the levels that have a color, when
    /// the environment enables colors, and plain otherwise.
    pub fn display(self) -> (r: String)
        ensures
            self.display_ok(r@),
    {
        proof {
            reveal_strlit("[FATAL]");
            reveal_strlit("[ERR]");
            reveal_strlit("[WARN]");
        }
        match self {
            LogLevel::Fatal => paint_magenta(self.label()),
            LogLevel::Error => paint_red(self.label()),
            LogLevel::Warn => paint_yellow(self.label()),
            _ => String::from_str(self.label()),
        }
    }
}

/// Relies on `colored`'s `Colorize::magenta` for `&str` and the `Display` of
/// its `ColoredString`: when colors are enabled the result is the input
/// wrapped in `ESC[35m` … `ESC[0m`, and the input unchanged otherwise.  The
/// input must hold no escape character, else inner resets would be escaped.
#[verifier::external_body]
fn paint_magenta(s: &str) -> (r: String)
    requires
        forall|i: int| 0 <= i < s@.len() ==> s@[i] != esc(),
    ensures
        r@ == s@ || r@ == ansi_wrapped(seq!['3', '5'], s@),
{
    s.magenta().to_string()
}

/// Relies on `colored`'s `Colorize::red` for `&str` and the `Display` of its
/// `ColoredString`: when colors are enabled the result is the input wrapped
/// in `ESC[31m` … `ESC[0m`, and the input unchanged otherwise.  The input
/// must hold no escape character, else inner resets would be escaped.
#[verifier::external_body]
fn paint_red(s: &str) -> (r: String)
    requires
        forall|i: int| 0 <= i < s@.len() ==> s@[i] != esc(),
    ensures
        r@ == s@ || r@ == ansi_wrapped(seq!['3', '1'], s@),
{
    s.red().to_string()
}

/// Relies on `colored`'s `Colorize::yellow` for `&str` and the `Display` of
/// its `ColoredString`: when colors are enabled the result is the input
/// wrapped in `ESC[33m` … `ESC[0m`, and the input unchanged otherwise.  The
/// input must hold no escape character, else inner resets would be escaped.
#[verifier::external_body]
fn paint_yellow(s: &str) -> (r: String)
    requires
        forall|i: int| 0 <= i < s@.len() ==> s@[i] != esc(),
    ensures
        r@ == s@ || r@ == ansi_wrapped(seq!['3', '3'], s@),
{
    s.yellow().to_string()
}

/// The shape every timestamp text has: bracketed and non-empty.
pub open spec fn timestamp_ok(ts: Seq<char>) -> bool {
    &&& ts.len() >= 2
    &&& ts[0] == '['
    &&& ts[ts.len() - 1] == ']'
}

/// Relies on `chrono`'s `Local::now` and `DateTime::format` with the pattern
/// `[%a %b %e %T %Y]`: whatever the clock reads, the produced text begins
/// with `[` and ends with `]`.
#[verifier::external_body]
fn local_timestamp() -> (r: String)
    ensures
        timestamp_ok(r@),
{
    format!("{}", chrono::Local::now().format("[%a %b %e %T %Y]"))
}

/// The log line assembled from its parts: the timestamp when asked for, the
/// level's tag for warnings and quieter levels, and the message, each
/// non-final part followed by one space.
pub open spec fn line_spec(
    timestamps: bool,
    ts: Seq<char>,
    level: LogLevel,
    tag: Seq<char>,
    msg: Seq<char>,
) -> Seq<char> {
    (if timestamps {
        ts + seq![' ']
    } else {
        Seq::<char>::empty()
    }) + (if level.severity() >= 2 {
        tag + seq![' ']
    } else {
        Seq::<char>::empty()
    }) + msg
}

/// Compose one log line: a timestamp when the host's timestamp flag is set,
/// the level's tag for warnings and quieter levels, then the message, joined
/// by single spaces.  Handing the line to the host's output routine is the
/// caller's affair.
pub fn log_line(timestamps: bool, level: LogLevel, message: &str) -> (r: String)
    ensures
        exists|ts: Seq<char>, tag: Seq<char>|
            (timestamps ==> timestamp_ok(ts)) && level.display_ok(tag) && r@ == line_spec(
                timestamps,
                ts,
                level,
                tag,
                message@,
            ),
        !timestamps && level.severity() < 2 ==> r@ == message@,
        !timestamps && level.severity() >= 3 ==> r@ == level.label_spec() + seq![' '] + message@,
{
    let mut out = String::new();
    let ghost mut ts_w: Seq<char> = Seq::empty();
    let ghost mut tag_w: Seq<char> = level.label_spec();
    if timestamps {
        let ts = local_timestamp();
        proof {
            ts_w = ts@;
        }
        out.append(ts.as_str());
        out.append(" ");
    }
    if level.tag_included() {
        let tag = level.display();
        proof {
            tag_w = tag@;
        }
        out.append(tag.as_str());
        out.append(" ");
    }
    out.append(message);
    proof {
        reveal_strlit(" ");
        assert(" "@ =~= seq![' ']);
        assert(out@ =~= line_spec(timestamps, ts_w, level, tag_w, message@));
        assert((timestamps ==> timestamp_ok(ts_w)) && level.display_ok(tag_w) && out@ == line_spec(
            timestamps,
            ts_w,
            level,
            tag_w,
            message@,
        ));
        if !timestamps && level.severity() >= 3 {
            assert(out@ =~= level.label_spec() + seq![' '] + message@);
        }
    }
    out
}

} // verus!
