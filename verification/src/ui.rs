//! Operator-facing progress lines: whether they are shown, and their text.
use vstd::prelude::*;

use crate::text::{ascii_lower_chars, ascii_lower_seq, chars_eq, chars_of, push_str, trim, trim_chars};

verus! {

/// The normalized form of a `PROCESSING_UI` value: trimmed, in ASCII
/// lowercase.
pub open spec fn ui_value(value: Seq<char>) -> Seq<char> {
    ascii_lower_seq(trim(value))
}

/// Values that turn the operator UI off.
pub open spec fn disables_ui(value: Seq<char>) -> bool {
    let v = ui_value(value);
    v == "0"@ || v == "false"@ || v == "off"@ || v == "no"@
}

/// Values that turn the operator UI on.
pub open spec fn enables_ui(value: Seq<char>) -> bool {
    let v = ui_value(value);
    v == "1"@ || v == "true"@ || v == "on"@ || v == "yes"@
}

fn is_one_of(v: &Vec<char>, a: &str, b: &str, c: &str, d: &str) -> (r: bool)
    ensures
        r == (v@ == a@ || v@ == b@ || v@ == c@ || v@ == d@),
{
    chars_eq(v, &chars_of(a)) || chars_eq(v, &chars_of(b)) || chars_eq(v, &chars_of(c))
        || chars_eq(v, &chars_of(d))
}

/// Whether a `PROCESSING_UI` value turns the UI off.
pub fn is_disabled_value(value: &str) -> (r: bool)
    ensures
        r == disables_ui(value@),
{
    let v = ascii_lower_chars(&trim_chars(&chars_of(value)));
    is_one_of(&v, "0", "false", "off", "no")
}

/// Whether a `PROCESSING_UI` value turns the UI on.
pub fn is_enabled_value(value: &str) -> (r: bool)
    ensures
        r == enables_ui(value@),
{
    let v = ascii_lower_chars(&trim_chars(&chars_of(value)));
    is_one_of(&v, "1", "true", "on", "yes")
}

/// Whether the UI is shown: as `PROCESSING_UI` says when it says so, else
/// when standard error is a terminal.
pub open spec fn ui_shown(setting: Option<Seq<char>>, stderr_is_terminal: bool) -> bool {
    match setting {
        Some(v) => if disables_ui(v) {
            false
        } else if enables_ui(v) {
            true
        } else {
            stderr_is_terminal
        },
        None => stderr_is_terminal,
    }
}

/// Decides whether the operator UI is shown.
pub fn ui_enabled(setting: Option<&str>, stderr_is_terminal: bool) -> (r: bool)
    ensures
        r == ui_shown(
            match setting {
                Some(v) => Some(v@),
                None => None,
            },
            stderr_is_terminal,
        ),
{
    match setting {
        Some(value) => {
            if is_disabled_value(value) {
                false
            } else if is_enabled_value(value) {
                true
            } else {
                stderr_is_terminal
            }
        },
        None => stderr_is_terminal,
    }
}

/// `[processing-svc] {level}: {message}`
pub open spec fn ui_line_text(level: Seq<char>, message: Seq<char>) -> Seq<char> {
    "[processing-svc] "@ + level + ": "@ + message
}

/// The text of one operator line.
pub fn ui_line(level: &str, message: &str) -> (r: String)
    ensures
        r@ == ui_line_text(level@, message@),
{
    let mut out = String::new();
    push_str(&mut out, "[processing-svc] ");
    push_str(&mut out, level);
    push_str(&mut out, ": ");
    push_str(&mut out, message);
    assert(out@ =~= ui_line_text(level@, message@));
    out
}

} // verus!
