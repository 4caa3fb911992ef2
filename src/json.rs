//! What the library takes from serde_json: reading members of a JSON document and
//! writing JSON string literals.
use vstd::prelude::*;
use crate::opt_text;

verus! {

/// A lower-case hexadecimal digit.
pub open spec fn hex_digit(v: u8) -> char {
    if v < 10 {
        (v + 48) as char
    } else {
        (v + 87) as char
    }
}

/// How one character is written inside a JSON string: `"` and `\` get a backslash;
/// backspace, tab, line feed, form feed and carriage return get their short escapes;
/// other characters below 0x20 become `\u00` and two hex digits; the rest stand as
/// they are.
pub open spec fn json_escape(c: char) -> Seq<char> {
    if c == '"' {
        seq!['\\', '"']
    } else if c == '\\' {
        seq!['\\', '\\']
    } else if c == '\u{8}' {
        seq!['\\', 'b']
    } else if c == '\t' {
        seq!['\\', 't']
    } else if c == '\n' {
        seq!['\\', 'n']
    } else if c == '\u{c}' {
        seq!['\\', 'f']
    } else if c == '\r' {
        seq!['\\', 'r']
    } else if (c as u32) < 0x20 {
        seq![
            '\\',
            'u',
            '0',
            '0',
            hex_digit((c as u32 / 16) as u8),
            hex_digit((c as u32 % 16) as u8),
        ]
    } else {
        seq![c]
    }
}

/// The characters of `s`, each escaped for a JSON string.
pub open spec fn json_escaped(s: Seq<char>) -> Seq<char>
    decreases s.len(),
{
    if s.len() == 0 {
        Seq::empty()
    } else {
        json_escaped(s.drop_last()) + json_escape(s.last())
    }
}

/// The JSON string literal for `s`, quotes included.
pub open spec fn json_quoted(s: Seq<char>) -> Seq<char> {
    seq!['"'] + json_escaped(s) + seq!['"']
}

/// A character that JSON writes inside a string as it is.
pub open spec fn is_plain_json_char(c: char) -> bool {
    c != '"' && c != '\\' && (c as u32) >= 0x20
}

/// A text with no character that needs escaping is quoted as it stands.
pub proof fn lemma_plain_text_quoted(s: Seq<char>)
    requires
        forall|i: int| 0 <= i < s.len() ==> #[trigger] is_plain_json_char(s[i]),
    ensures
        json_escaped(s) == s,
        json_quoted(s) == seq!['"'] + s + seq!['"'],
    decreases s.len(),
{
    if s.len() > 0 {
        let p = s.drop_last();
        assert forall|i: int| 0 <= i < p.len() implies #[trigger] is_plain_json_char(p[i]) by {
            assert(p[i] == s[i]);
        }
        lemma_plain_text_quoted(p);
        assert(is_plain_json_char(s[s.len() - 1]));
        assert(p + seq![s.last()] =~= s);
    }
}

/// serde_json's message for why `doc` is not a JSON document; `None` if it is one.
pub uninterp spec fn json_parse_error(doc: Seq<char>) -> Option<Seq<char>>;

/// The member `key` of the JSON document `doc`, when `doc` parses, holds an object, and
/// that member is a string.
pub uninterp spec fn json_str_member(doc: Seq<char>, key: Seq<char>) -> Option<Seq<char>>;

/// The member `key` of the JSON document `doc` written back as compact JSON, when `doc`
/// parses, holds an object with that member, and writing it succeeds.
pub uninterp spec fn json_member_text(doc: Seq<char>, key: Seq<char>) -> Option<Seq<char>>;

/// Relies on serde_json::to_string applied to a `str` (`format_escaped_str`): a quote,
/// each character escaped as `json_escape` says, a quote. Writing into a `Vec` does not
/// fail.
#[verifier::external_body]
pub(crate) fn quote(s: &str) -> (r: String)
    ensures
        r@ == json_quoted(s@),
{
    serde_json::to_string(s).unwrap_or_default()
}

/// Relies on serde_json::from_str into a `serde_json::Value`: whether the text is one
/// JSON document, and the error's message when it is not.
#[verifier::external_body]
pub(crate) fn parse_error(doc: &str) -> (r: Option<String>)
    ensures
        opt_text(r) == json_parse_error(doc@),
{
    serde_json::from_str::<serde_json::Value>(doc).err().map(|e| e.to_string())
}

/// Relies on serde_json::from_str, then `Value::get` and `Value::as_str`: the string held
/// by one member of a JSON object.
#[verifier::external_body]
pub(crate) fn str_member(doc: &str, key: &str) -> (r: Option<String>)
    ensures
        opt_text(r) == json_str_member(doc@, key@),
{
    let v = serde_json::from_str::<serde_json::Value>(doc).ok()?;
    v.get(key).and_then(|m| m.as_str()).map(|m| m.to_string())
}

/// Relies on serde_json::from_str, then `Value::get` and serde_json::to_string: one
/// member of a JSON object, written back as compact JSON.
#[verifier::external_body]
pub(crate) fn member_text(doc: &str, key: &str) -> (r: Option<String>)
    ensures
        opt_text(r) == json_member_text(doc@, key@),
{
    let v = serde_json::from_str::<serde_json::Value>(doc).ok()?;
    serde_json::to_string(v.get(key)?).ok()
}

} // verus!
