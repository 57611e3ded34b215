//! JSON text written by `serde_json`.
use vstd::prelude::*;
use crate::strs::joined;

verus! {

#[verifier::external_type_specification]
#[verifier::external_body]
pub struct ExJsonError(serde_json::Error);

/// The lower-case hexadecimal digit of `n` (below 16).
pub open spec fn hex_digit(n: int) -> char {
    if n < 10 {
        (('0' as int) + n) as char
    } else {
        (('a' as int) + n - 10) as char
    }
}

/// How `serde_json` writes a character inside a string: `"` and `\` after a backslash,
/// the short escapes for backspace, tab, line feed, form feed and carriage return, `\u00`
/// and two hexadecimal digits for the other control characters below 0x20, and any other
/// character as itself.
pub open spec fn json_char(c: char) -> Seq<char> {
    let n = c as int;
    if c == '"' {
        seq!['\\', '"']
    } else if c == '\\' {
        seq!['\\', '\\']
    } else if n == 8 {
        seq!['\\', 'b']
    } else if n == 9 {
        seq!['\\', 't']
    } else if n == 10 {
        seq!['\\', 'n']
    } else if n == 12 {
        seq!['\\', 'f']
    } else if n == 13 {
        seq!['\\', 'r']
    } else if n < 32 {
        seq!['\\', 'u', '0', '0', hex_digit(n / 16), hex_digit(n % 16)]
    } else {
        seq![c]
    }
}

/// The characters of a string as `serde_json` writes them between the quotes.
pub open spec fn json_text(s: Seq<char>) -> Seq<char>
    decreases s.len(),
{
    if s.len() == 0 {
        Seq::<char>::empty()
    } else {
        json_text(s.drop_last()) + json_char(s.last())
    }
}

/// A JSON string.
pub open spec fn json_string(s: Seq<char>) -> Seq<char> {
    seq!['"'] + json_text(s) + seq!['"']
}

/// A compact JSON array of already written values: no space around its commas.
pub open spec fn json_array(items: Seq<Seq<char>>) -> Seq<char> {
    seq!['['] + joined(items, seq![',']) + seq![']']
}

/// The compact JSON text that `serde_json` writes for a list of lists of strings.
pub open spec fn json_of_string_lists(v: Seq<Seq<Seq<char>>>) -> Seq<char> {
    json_array(v.map_values(|l: Seq<Seq<char>>| json_array(l.map_values(|s: Seq<char>| json_string(s)))))
}

/// `serde_json::to_string` on a list of lists of strings. Its documentation says that
/// serialization fails only where a `Serialize` impl decides to fail or a map has
/// non-string keys; neither happens for lists and strings, so the call succeeds. Its text is
/// the compact JSON of the lists, with strings escaped as the serializer's escape table
/// (`ser.rs`) does: `json_of_string_lists`.
#[verifier::external_body]
pub(crate) fn string_lists_to_json(v: &Vec<Vec<String>>) -> (r: Result<String, serde_json::Error>)
    ensures
        r is Ok,
        r matches Ok(s) ==> s@ == json_of_string_lists(v.deep_view()),
{
    serde_json::to_string(v)
}

} // verus!
