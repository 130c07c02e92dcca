//! Reading a container's network address out of the runtime's `inspect` output.
use vstd::prelude::*;

use crate::command::CommandError;
use crate::text::{chars_of, decimal, decimal_spec};

verus! {

/// Why a container's address could not be resolved.
#[derive(Debug, Clone, PartialEq, Eq)]
pub enum AddressError {
    /// The container is not running under this lifecycle (never started, or stopped).
    NotRunning,
    /// The inspection command itself failed.
    InspectFailed(CommandError),
    /// The inspection output did not hold a non-empty address where one was expected.
    MalformedOutput,
}

/// What `json` finds when it parses `text` and follows element `index` of the top-level
/// array, then member `outer`, then member `inner`, if that is a string.
pub uninterp spec fn json_string_at(
    text: Seq<char>,
    index: int,
    outer: Seq<char>,
    inner: Seq<char>,
) -> Option<Seq<char>>;

/// The longest run of digits after a `.` that is handed to the JSON parser. The parser counts
/// a number's decimal exponent in an `i16`, one down per fraction digit, so a longer fraction
/// could overflow it.
pub const FRACTION_DIGIT_LIMIT: usize = 32766;

pub open spec fn is_ascii_digit(c: char) -> bool {
    48 <= (c as u32) <= 57
}

/// At `j` stands a `.` followed by more than `FRACTION_DIGIT_LIMIT` digits.
pub open spec fn long_fraction_at(text: Seq<char>, j: int) -> bool {
    &&& 0 <= j
    &&& j + FRACTION_DIGIT_LIMIT + 1 < text.len()
    &&& text[j] == '.'
    &&& forall|k: int| j < k <= j + FRACTION_DIGIT_LIMIT + 1 ==> is_ascii_digit(#[trigger] text[k])
}

/// Somewhere in `text` a `.` is followed by more than `FRACTION_DIGIT_LIMIT` digits.
pub open spec fn has_long_fraction(text: Seq<char>) -> bool {
    exists|j: int| long_fraction_at(text, j)
}

/// Whether some `.` in `text` is followed by more than `FRACTION_DIGIT_LIMIT` digits.
pub fn contains_long_fraction(text: &str) -> (r: bool)
    ensures
        r == has_long_fraction(text@),
{
    let chars = chars_of(text);
    let n = chars.len();
    let limit: usize = FRACTION_DIGIT_LIMIT + 1;
    // the last character that is not a digit, and whether it is a `.`
    let mut last_non_digit: Option<usize> = None;
    let mut last_is_dot = false;
    let mut i: usize = 0;
    while i < n
        invariant
            chars@ == text@,
            n == text@.len(),
            limit == FRACTION_DIGIT_LIMIT + 1,
            i <= n,
            forall|j: int| 0 <= j && j + limit < i ==> !long_fraction_at(text@, j),
            match last_non_digit {
                Some(l) => {
                    &&& l < i
                    &&& !is_ascii_digit(text@[l as int])
                    &&& last_is_dot == (text@[l as int] == '.')
                    &&& forall|k: int| l < k < i ==> is_ascii_digit(#[trigger] text@[k])
                },
                None => forall|k: int| 0 <= k < i ==> is_ascii_digit(#[trigger] text@[k]),
            },
        decreases n - i,
    {
        let c = chars[i];
        let digit = 48 <= (c as u32) && (c as u32) <= 57;
        if digit {
            match last_non_digit {
                Some(l) => {
                    if last_is_dot && i - l == limit {
                        assert(long_fraction_at(text@, l as int));
                        return true;
                    }
                },
                None => {},
            }
            proof {
                let j = i - limit;
                if j >= 0 && long_fraction_at(text@, j) {
                    match last_non_digit {
                        Some(l) => {
                            if j < l {
                                assert(is_ascii_digit(text@[l as int]));
                            } else if j > l {
                                assert(is_ascii_digit(text@[j]));
                            }
                        },
                        None => {
                            assert(is_ascii_digit(text@[j]));
                        },
                    }
                }
            }
        } else {
            proof {
                let j = i - limit;
                if j >= 0 {
                    assert(!long_fraction_at(text@, j) || is_ascii_digit(text@[i as int]));
                }
            }
            last_non_digit = Some(i);
            last_is_dot = c == '.';
        }
        i = i + 1;
    }
    false
}

/// Relies on `json::parse`, the `Index<usize>` and `Index<&str>` impls of `json::JsonValue`
/// (which give `Null` for a missing element or member) and `JsonValue::as_str`. The parser
/// overflows an `i16` on a number with a very long fraction, hence the precondition.
#[verifier::external_body]
fn json_string_lookup(text: &str, index: usize, outer: &str, inner: &str) -> (r: Option<String>)
    requires
        !has_long_fraction(text@),
    ensures
        r matches Some(s) ==> json_string_at(text@, index as int, outer@, inner@) == Some(s@),
        r is None ==> json_string_at(text@, index as int, outer@, inner@) is None,
{
    match json::parse(text) {
        Ok(value) => value[index][outer][inner].as_str().map(|s| s.to_string()),
        Err(_) => None,
    }
}

/// Where the runtime reports a container's address in its `inspect` output:
/// `[0].NetworkSettings.IPAddress`. Output that holds a number with an overlong fraction is
/// not read at all.
pub open spec fn reported_ip(inspect_output: Seq<char>) -> Option<Seq<char>> {
    if has_long_fraction(inspect_output) {
        None
    } else {
        json_string_at(inspect_output, 0, "NetworkSettings"@, "IPAddress"@)
    }
}

/// `"<ip>:<port>"`.
pub open spec fn address_text(ip: Seq<char>, port: u16) -> Seq<char> {
    ip + seq![':'] + decimal_spec(port as nat)
}

/// The address for a reported ip field: absent or empty is malformed output.
pub open spec fn address_for_field(ip: Option<Seq<char>>, port: u16) -> Option<Seq<char>> {
    match ip {
        Some(s) => if s.len() > 0 {
            Some(address_text(s, port))
        } else {
            None
        },
        None => None,
    }
}

/// Formats a reported ip field as `"<ip>:<port>"`; an absent or empty field is
/// `MalformedOutput`.
pub fn address_from_field(ip: Option<String>, port: u16) -> (r: Result<String, AddressError>)
    ensures
        match address_for_field(
            match ip {
                Some(s) => Some(s@),
                None => None,
            },
            port,
        ) {
            Some(a) => r matches Ok(s) && s@ == a,
            None => r == Err::<String, AddressError>(AddressError::MalformedOutput),
        },
{
    match ip {
        Some(s) => {
            if s.as_str().unicode_len() == 0 {
                Err(AddressError::MalformedOutput)
            } else {
                let mut a = s;
                a.append(":");
                a.append(decimal(port as u64).as_str());
                proof {
                    reveal_strlit(":");
                }
                assert(a@ =~= address_text(ip->Some_0@, port));
                Ok(a)
            }
        },
        None => Err(AddressError::MalformedOutput),
    }
}

/// The address that the runtime's `inspect` output reports, with `port` appended.
pub fn address_from_inspect(inspect_output: &str, port: u16) -> (r: Result<String, AddressError>)
    ensures
        match address_for_field(reported_ip(inspect_output@), port) {
            Some(a) => r matches Ok(s) && s@ == a,
            None => r == Err::<String, AddressError>(AddressError::MalformedOutput),
        },
{
    if contains_long_fraction(inspect_output) {
        return Err(AddressError::MalformedOutput);
    }
    let ip = json_string_lookup(inspect_output, 0, "NetworkSettings", "IPAddress");
    address_from_field(ip, port)
}

} // verus!
