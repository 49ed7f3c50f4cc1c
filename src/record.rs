use vstd::prelude::*;
use vstd::string::*;
use crate::level::Level;
use crate::stamp::Stamp;
use crate::timestamp::{
    current_stamp, format_timestamp, is_digit, is_timestamp_shape, lemma_timestamp_shape, stamp_text,
};

verus! {

/// One record: `[TIMESTAMP] [TAG] MESSAGE` and a newline.
pub open spec fn line_text(timestamp: Seq<char>, tag: Seq<char>, message: Seq<char>) -> Seq<char> {
    seq!['['] + timestamp + seq![']', ' ', '['] + tag + seq![']', ' '] + message + seq!['\n']
}

/// Builds the record line from an already rendered timestamp.
pub fn compose_line(timestamp: &str, level: Level, message: &str) -> (r: String)
    ensures
        r@ == line_text(timestamp@, level.tag_text(), message@),
{
    let mut line = String::new();
    line.append("[");
    line.append(timestamp);
    line.append("] [");
    line.append(level.tag());
    line.append("] ");
    line.append(message);
    line.append("\n");
    proof {
        reveal_strlit("[");
        reveal_strlit("] [");
        reveal_strlit("] ");
        reveal_strlit("\n");
        assert(line@ =~= line_text(timestamp@, level.tag_text(), message@));
    }
    line
}

/// The record line for `message` at `level`, stamped with the reading `s`.
pub fn render_line(s: &Stamp, level: Level, message: &str) -> (r: String)
    requires
        s.wf(),
    ensures
        r@ == line_text(stamp_text(*s), level.tag_text(), message@),
{
    let timestamp = format_timestamp(s);
    compose_line(timestamp.as_str(), level, message)
}

/// The record line for `message` at `level`, stamped with the reading of
/// `current_stamp`: the current local time, or the epoch where the clock's
/// reading is out of the calendar's range.
pub fn record_line(level: Level, message: &str) -> (r: String)
    ensures
        exists|s: Stamp| s.wf() && r@ == line_text(stamp_text(s), level.tag_text(), message@),
{
    let now = current_stamp();
    render_line(&now, level, message)
}

/// `line` is one record of `message` at `tag`: `[DDDD-DD-DD DD:DD:DD] [TAG] `,
/// each `D` a decimal digit, then the message and a newline.
pub open spec fn is_record_line(line: Seq<char>, tag: Seq<char>, message: Seq<char>) -> bool {
    exists|t: Seq<char>| is_timestamp_shape(t) && line == line_text(t, tag, message)
}

/// `line` ends with a newline and holds no other.
pub open spec fn is_single_line(line: Seq<char>) -> bool {
    &&& line.len() > 0
    &&& line.last() == '\n'
    &&& forall|i: int| 0 <= i < line.len() - 1 ==> #[trigger] line[i] != '\n'
}

/// A record stamped with a valid reading of a year from 0 to 9999 has the
/// shape `[DDDD-DD-DD DD:DD:DD] [TAG] MESSAGE` and a newline; where the
/// message holds no newline, the record is exactly one line.
pub proof fn lemma_line_integrity(s: Stamp, level: Level, message: Seq<char>)
    requires
        s.wf(),
        0 <= s.year <= 9999,
    ensures
        is_record_line(line_text(stamp_text(s), level.tag_text(), message), level.tag_text(), message),
        !message.contains('\n') ==> is_single_line(
            line_text(stamp_text(s), level.tag_text(), message),
        ),
{
    let t = stamp_text(s);
    let tag = level.tag_text();
    let line = line_text(t, tag, message);
    lemma_timestamp_shape(s);
    assert(is_timestamp_shape(t) && line == line_text(t, tag, message));
    if !message.contains('\n') {
        assert forall|i: int| 0 <= i < line.len() - 1 implies #[trigger] line[i] != '\n' by {
            if 1 <= i < 20 {
                assert(line[i] == t[i - 1]);
                if i - 1 != 4 && i - 1 != 7 && i - 1 != 10 && i - 1 != 13 && i - 1 != 16 {
                    assert(is_digit(t[i - 1]));
                }
            } else if 23 <= i < 23 + tag.len() {
                assert(line[i] == tag[i - 23]);
            } else if 25 + tag.len() <= i < 25 + tag.len() + message.len() {
                assert(line[i] == message[i - 25 - tag.len()]);
                assert(message.contains(line[i]));
            }
        }
    }
}

pub open spec fn open_context_prefix() -> Seq<char> {
    "Could not open or create log file at path: "@
}

/// The explanation attached to a failure to open the log file at `path`.
pub fn open_context(path: &str) -> (r: String)
    ensures
        r@ == open_context_prefix() + path@,
{
    let mut text = String::new();
    text.append("Could not open or create log file at path: ");
    text.append(path);
    proof {
        reveal_strlit("Could not open or create log file at path: ");
        assert(text@ =~= open_context_prefix() + path@);
    }
    text
}

/// The explanation attached to a failed write of a record.
pub fn write_context() -> (r: &'static str)
    ensures
        r@ == "Could not write to log file"@,
{
    "Could not write to log file"
}

} // verus!
