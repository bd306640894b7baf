//! The JSON text of the envelopes. String literals are escaped and objects are
//! parsed by serde_json; the shape of each envelope is framed here.
use vstd::prelude::*;
use vstd::string::StringExecFns;

verus! {

/// Lower-case hexadecimal digits.
pub open spec fn hex_digits() -> Seq<char> {
    seq!['0', '1', '2', '3', '4', '5', '6', '7', '8', '9', 'a', 'b', 'c', 'd', 'e', 'f']
}

/// How one character stands inside a JSON string literal: the quote and the
/// backslash are escaped, the control characters that have a short escape
/// use it, the other control characters are written `\u00XX`, and every
/// other character stands for itself.
pub open spec fn escaped_char(c: char) -> Seq<char> {
    if c == '"' {
        seq!['\\', '"']
    } else if c == '\\' {
        seq!['\\', '\\']
    } else if c == '\u{8}' {
        seq!['\\', 'b']
    } else if c == '\t' {
        seq!['\\', 't']
    } else if c == '\n' {
        seq!['\\', 'n']
    } else if c == '\u{c}' {
        seq!['\\', 'f']
    } else if c == '\r' {
        seq!['\\', 'r']
    } else if (c as u32) < 0x20 {
        seq!['\\', 'u', '0', '0', hex_digits()[(c as int) / 16], hex_digits()[(c as int) % 16]]
    } else {
        seq![c]
    }
}

/// The characters of `s`, each escaped.
pub open spec fn escaped_text(s: Seq<char>) -> Seq<char>
    decreases s.len(),
{
    if s.len() == 0 {
        Seq::empty()
    } else {
        escaped_text(s.drop_last()) + escaped_char(s.last())
    }
}

/// The JSON string literal that stands for `s`: its escaped characters
/// between double quotes. Proofs that only move such literals around do
/// not need its definition, so it is kept opaque.
#[verifier::opaque]
pub open spec fn json_string(s: Seq<char>) -> Seq<char> {
    seq!['"'] + escaped_text(s) + seq!['"']
}

/// The members of the JSON object that the text `s` holds, in the order of
/// their names, each with its value's text where that value is a JSON string;
/// `None` when `s` is not exactly one JSON object.
pub uninterp spec fn json_object_members(s: Seq<char>) -> Option<Seq<(Seq<char>, Option<Seq<char>>)>>;

/// Relies on `serde_json::to_string` on a `str`: the text between double
/// quotes, with the escapes of serde_json's escape table. Writing into memory
/// cannot fail.
#[verifier::external_body]
pub(crate) fn json_quote(s: &str) -> (r: String)
    ensures
        r@ == json_string(s@),
{
    serde_json::to_string(s).unwrap_or_default()
}

/// Relies on `serde_json::from_str`, reading a JSON object into a map from
/// member name to `serde_json::Value`, and on `serde_json::Value::as_str`,
/// which gives a value's text when it is a JSON string.
#[verifier::external_body]
pub(crate) fn parse_json_object(s: &str) -> (r: Option<Vec<(String, Option<String>)>>)
    ensures
        r is Some <==> json_object_members(s@) is Some,
        r matches Some(v) ==> json_object_members(s@) == Some(v.deep_view()),
{
    match serde_json::from_str::<std::collections::BTreeMap<String, serde_json::Value>>(s) {
        Ok(m) => Some(m.into_iter().map(|(k, v)| (k, v.as_str().map(|t| t.to_owned()))).collect()),
        Err(_) => None,
    }
}

/// The text of the first member named `key`, when its value is a JSON string.
pub open spec fn member_text(m: Seq<(Seq<char>, Option<Seq<char>>)>, key: Seq<char>) -> Option<
    Seq<char>,
>
    decreases m.len(),
{
    if m.len() == 0 {
        None
    } else if m[0].0 == key {
        m[0].1
    } else {
        member_text(m.drop_first(), key)
    }
}

/// The text of member `key` of the JSON object in `s`, when `s` is one and
/// that member is a string.
pub open spec fn object_text(s: Seq<char>, key: Seq<char>) -> Option<Seq<char>> {
    match json_object_members(s) {
        Some(m) => member_text(m, key),
        None => None,
    }
}

/// The text of member `key`, when there is such a member and it is a string.
pub fn find_member(members: &Vec<(String, Option<String>)>, key: &str) -> (r: Option<String>)
    ensures
        r is Some <==> member_text(members.deep_view(), key@) is Some,
        r matches Some(t) ==> member_text(members.deep_view(), key@) == Some(t@),
{
    let k = key.to_owned();
    let ghost m = members.deep_view();
    let mut i: usize = 0;
    assert(m.subrange(0, m.len() as int) =~= m);
    while i < members.len()
        invariant
            i <= members@.len(),
            m == members.deep_view(),
            k@ == key@,
            member_text(m, key@) == member_text(m.subrange(i as int, m.len() as int), key@),
        decreases members@.len() - i,
    {
        let entry = &members[i];
        assert(m.subrange(i as int, m.len() as int)[0] == m[i as int]);
        assert(m[i as int] == (entry.0@, entry.1.deep_view()));
        if entry.0 == k {
            return entry.1.clone();
        }
        assert(m.subrange(i as int, m.len() as int).drop_first() =~= m.subrange(
            i as int + 1,
            m.len() as int,
        ));
        i = i + 1;
    }
    None
}

} // verus!
