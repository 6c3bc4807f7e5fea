//! Decisions on the text of the editor's input fields.
use vstd::prelude::*;
use vstd::string::StringExecFns;

verus! {

/// An ASCII decimal digit.
pub open spec fn is_digit(c: char) -> bool {
    '0' <= c && c <= '9'
}

/// The number that the digits `s` write in base ten, most significant first.
pub open spec fn digits_value(s: Seq<char>) -> nat
    decreases s.len(),
{
    if s.len() == 0 {
        0
    } else {
        digits_value(s.drop_last()) * 10 + (s.last() as int - '0' as int) as nat
    }
}

/// Every character of `d` is an ASCII decimal digit.
pub open spec fn all_digits(d: Seq<char>) -> bool {
    forall|i: int| 0 <= i < d.len() ==> is_digit(#[trigger] d[i])
}

/// The unsigned number that `s` writes: an optional `+`, then one or more
/// ASCII digits and nothing else.
pub open spec fn decimal_of(s: Seq<char>) -> Option<nat> {
    let digits = if s.len() > 0 && s[0] == '+' {
        s.drop_first()
    } else {
        s
    };
    if digits.len() > 0 && all_digits(digits) {
        Some(digits_value(digits))
    } else {
        None
    }
}

/// The position that `s` names: its decimal value, where that fits in `usize`.
pub open spec fn position_of(s: Seq<char>) -> Option<usize> {
    match decimal_of(s) {
        Some(v) => if v <= usize::MAX {
            Some(v as usize)
        } else {
            None
        },
        None => None,
    }
}

/// The message shown to the user for an input that is not a position.
pub open spec fn parse_error_message(text: Seq<char>) -> Seq<char> {
    "Parse error: "@ + text
}

/// Relies on `str::parse::<usize>`, that is `usize::from_str_radix(s, 10)`:
/// it accepts an optional `+` followed by ASCII digits only, and fails on any
/// other text and on a value that does not fit in `usize`.
#[verifier::external_body]
fn parse_usize(s: &str) -> (r: Option<usize>)
    ensures
        r == position_of(s@),
{
    s.parse::<usize>().ok()
}

/// Reads a position from an input field's text. On failure the error holds
/// the message to show to the user, which quotes the text.
pub fn parse_or_show_err(text: String) -> (r: Result<usize, String>)
    ensures
        match position_of(text@) {
            Some(v) => r == Ok::<usize, String>(v),
            None => r is Err && r->Err_0@ == parse_error_message(text@),
        },
{
    match parse_usize(text.as_str()) {
        Some(v) => Ok(v),
        None => {
            let msg = String::from_str("Parse error: ").concat(text.as_str());
            proof {
                reveal_strlit("Parse error: ");
            }
            Err(msg)
        },
    }
}

/// The position one step forward or back from `current`, where a field that
/// held no position counts as position 0.
pub open spec fn stepped(current: Option<usize>, forward: bool) -> int {
    let base: int = match current {
        Some(p) => p as int,
        None => 0,
    };
    if forward {
        base + 1
    } else {
        base - 1
    }
}

/// Moves a position one step forward or back. The step must stay within
/// `usize`: no step back from position 0 (or from a field that held no
/// position), and no step forward from the largest value.
pub fn step_position(current: Option<usize>, forward: bool) -> (r: usize)
    requires
        0 <= stepped(current, forward) <= usize::MAX,
    ensures
        r == stepped(current, forward),
{
    let base: usize = match current {
        Some(p) => p,
        None => 0,
    };
    if forward {
        base + 1
    } else {
        base - 1
    }
}

} // verus!
