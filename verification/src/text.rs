//! What the log says: the description of a key event, the line that reports
//! the opened device, and the timestamped record around either.

use vstd::prelude::*;
use vstd::string::StringExecFns;
use crate::decimal::{decimal, render};
use crate::event::KeyEvent;

verus! {

/// The name that evdev prints for a key code: the symbolic name of the first
/// key constant with that code, such as `KEY_A`, or a phrase that holds the
/// number where the code has no constant.
pub uninterp spec fn key_name(code: u16) -> Seq<char>;

/// Description of a key event whose key goes by the given label. An event
/// of the modifier key and an event of any other key are worded differently;
/// both hold the label and the value in decimal.
pub open spec fn labelled_text(label: Seq<char>, e: KeyEvent) -> Seq<char> {
    if e.on_modifier() {
        "LEFTALT: key code: "@ + label + ", value: "@ + decimal(e.value as int)
    } else {
        "key "@ + label + " got with value "@ + decimal(e.value as int)
    }
}

/// Description of a key event, as its record carries it.
pub open spec fn description(e: KeyEvent) -> Seq<char> {
    labelled_text(key_name(e.code), e)
}

/// Description of the device that was opened: its path and, in brackets,
/// the name it reports, or `unknown` where it reports none.
pub open spec fn opened_text(path: Seq<char>, name: Option<Seq<char>>) -> Seq<char> {
    "Opened device: "@ + path + " ("@ + match name {
        Some(n) => n,
        None => "unknown"@,
    } + ")"@
}

/// The texts of a sequence of strings, one for one.
pub open spec fn texts_of(lines: Seq<String>) -> Seq<Seq<char>> {
    Seq::new(lines.len(), |i: int| lines[i]@)
}

/// Whether the character is a decimal digit.
pub open spec fn is_digit(c: char) -> bool {
    '0' <= c && c <= '9'
}

/// Whether the text has the form of a date and a time of day to the second:
/// the year, `-`, two digits of the month, `-`, two digits of the day, a
/// space, and two digits each of hour, minute and second with `:` between
/// them. The year has four digits, or a sign and more where four do not hold
/// it.
pub open spec fn is_timestamp(s: Seq<char>) -> bool {
    let y = s.len() - 15;
    &&& s.len() >= 19
    &&& (is_digit(s[0]) || s[0] == '+' || s[0] == '-')
    &&& forall|i: int| 1 <= i < y ==> is_digit(#[trigger] s[i])
    &&& s[y] == '-'
    &&& is_digit(s[y + 1])
    &&& is_digit(s[y + 2])
    &&& s[y + 3] == '-'
    &&& is_digit(s[y + 4])
    &&& is_digit(s[y + 5])
    &&& s[y + 6] == ' '
    &&& is_digit(s[y + 7])
    &&& is_digit(s[y + 8])
    &&& s[y + 9] == ':'
    &&& is_digit(s[y + 10])
    &&& is_digit(s[y + 11])
    &&& s[y + 12] == ':'
    &&& is_digit(s[y + 13])
    &&& is_digit(s[y + 14])
}

/// A record: the timestamp, two spaces, the description.
pub open spec fn record_text(stamp: Seq<char>, description: Seq<char>) -> Seq<char> {
    stamp + seq![' ', ' '] + description
}

/// Trusted: the `Debug` text of `evdev::KeyCode`, reached through `format!`.
/// That text depends on the code alone, so the contract gives it a name and
/// says nothing else of it.
#[verifier::external_body]
fn key_label(code: u16) -> (label: String)
    ensures
        label@ == key_name(code),
{
    format!("{:?}", evdev::KeyCode::new(code))
}

/// Trusted: `chrono::Local::now`, printed by `DateTime::format` with the
/// pattern `%Y-%m-%d %H:%M:%S`. Which instant comes out depends on the clock
/// and the time zone of the machine, so the contract claims only the form
/// that chrono gives to every date and time under this pattern: month, day,
/// hour, minute and second padded with zeros to two digits, the year to four,
/// with a sign in front where the year lies outside 0 to 9999. chrono reads
/// the clock as a time since 1970 and does not return where the clock stands
/// before that.
#[verifier::external_body]
fn local_timestamp() -> (stamp: String)
    ensures
        is_timestamp(stamp@),
{
    chrono::Local::now().format("%Y-%m-%d %H:%M:%S").to_string()
}

/// Describes a key event whose key goes by the given label.
pub fn describe_labelled(label: &str, event: &KeyEvent) -> (text: String)
    ensures
        text@ == labelled_text(label@, *event),
{
    let value = render(event.value);
    let mut text = if event.is_modifier() {
        String::from_str("LEFTALT: key code: ")
    } else {
        String::from_str("key ")
    };
    text.append(label);
    if event.is_modifier() {
        text.append(", value: ");
    } else {
        text.append(" got with value ");
    }
    text.append(value.as_str());
    text
}

/// Describes a key event for the log, under the name that evdev gives its
/// key.
pub fn describe(event: &KeyEvent) -> (text: String)
    ensures
        text@ == description(*event),
{
    let label = key_label(event.code);
    describe_labelled(label.as_str(), event)
}

/// Describes the device that was opened, for the first line of the log.
pub fn describe_opened(path: &str, name: Option<&str>) -> (text: String)
    ensures
        text@ == opened_text(
            path@,
            match name {
                Some(n) => Some(n@),
                None => None,
            },
        ),
{
    let mut text = String::from_str("Opened device: ");
    text.append(path);
    text.append(" (");
    match name {
        Some(n) => text.append(n),
        None => text.append("unknown"),
    }
    text.append(")");
    text
}

/// Puts a timestamp in front of a description.
pub fn compose_record(stamp: &str, description: &str) -> (line: String)
    ensures
        line@ == record_text(stamp@, description@),
{
    proof {
        reveal_strlit("  ");
    }
    let mut line = String::from_str(stamp);
    line.append("  ");
    line.append(description);
    assert(line@ =~= record_text(stamp@, description@));
    line
}

/// Makes the record of a description at the present local time: a
/// timestamp of the clock's choosing, two spaces, the description.
pub fn stamp_now(description: &str) -> (line: String)
    ensures
        exists|stamp: Seq<char>|
            is_timestamp(stamp) && line@ == #[trigger] record_text(stamp, description@),
{
    let stamp = local_timestamp();
    compose_record(stamp.as_str(), description)
}

} // verus!
