//! JSON text, written as UTF-8 bytes: string literals (written by
//! serde_json), and the pieces (members, booleans) an object is built from.

use vstd::prelude::*;
use vstd::string::*;

use crate::foreign::{json_quoted, json_string_bytes};

verus! {

/// A JSON string literal holding the given text, as serde_json writes it.
pub open spec fn json_string(s: Seq<char>) -> Seq<u8> {
    json_quoted(s)
}

/// A JSON object member: the key as a string, a colon, then the value.
pub open spec fn json_member(key: Seq<char>, value: Seq<u8>) -> Seq<u8> {
    json_string(key) + seq![58u8] + value
}

/// A JSON boolean.
pub open spec fn json_bool(b: bool) -> Seq<u8> {
    if b {
        seq![116u8, 114u8, 117u8, 101u8]
    } else {
        seq![102u8, 97u8, 108u8, 115u8, 101u8]
    }
}

/// A member that follows an earlier one (comma first) when the text is
/// present, and nothing when it is absent.
pub open spec fn optional_member(key: Seq<char>, value: Option<Seq<char>>) -> Seq<u8> {
    match value {
        Some(v) => seq![44u8] + json_member(key, json_string(v)),
        None => Seq::empty(),
    }
}

/// The JSON text holds the member `key: value` somewhere in it.
pub open spec fn has_member(json: Seq<u8>, key: Seq<char>, value: Seq<u8>) -> bool {
    exists|before: Seq<u8>, after: Seq<u8>| json == before + json_member(key, value) + after
}

/// A member written between two pieces of text is held by the whole.
pub proof fn lemma_member_between(before: Seq<u8>, key: Seq<char>, value: Seq<u8>, after: Seq<u8>)
    ensures
        has_member(before + json_member(key, value) + after, key, value),
{
    assert((before + json_member(key, value) + after) == before + json_member(key, value) + after);
}

/// A present optional member written between two pieces of text is held by
/// the whole, with the text as a JSON string.
pub proof fn lemma_optional_member_between(before: Seq<u8>, key: Seq<char>, v: Seq<char>, after: Seq<u8>)
    ensures
        has_member(before + optional_member(key, Some(v)) + after, key, json_string(v)),
{
    let p = before + seq![44u8];
    assert(before + optional_member(key, Some(v)) + after =~= p + json_member(key, json_string(v)) + after);
    lemma_member_between(p, key, json_string(v), after);
}

/// Appends a JSON string literal holding `s`.
pub fn push_json_string(out: &mut Vec<u8>, s: &str)
    ensures
        final(out)@ == old(out)@ + json_string(s@),
{
    match json_string_bytes(s) {
        Ok(mut literal) => {
            out.append(&mut literal);
        },
        Err(_) => {
            assert(false);
        },
    }
}

fn push_member_key(out: &mut Vec<u8>, key: &str)
    ensures
        final(out)@ == old(out)@ + json_string(key@) + seq![58u8],
{
    push_json_string(out, key);
    out.push(58);
}

/// Appends a member whose value is a string.
pub fn push_string_member(out: &mut Vec<u8>, key: &str, value: &str)
    ensures
        final(out)@ == old(out)@ + json_member(key@, json_string(value@)),
{
    push_member_key(out, key);
    push_json_string(out, value);
    assert(final(out)@ =~= old(out)@ + json_member(key@, json_string(value@)));
}

/// Appends a member whose value is a boolean.
pub fn push_bool_member(out: &mut Vec<u8>, key: &str, value: bool)
    ensures
        final(out)@ == old(out)@ + json_member(key@, json_bool(value)),
{
    push_member_key(out, key);
    if value {
        out.push(116);
        out.push(114);
        out.push(117);
        out.push(101);
    } else {
        out.push(102);
        out.push(97);
        out.push(108);
        out.push(115);
        out.push(101);
    }
    assert(final(out)@ =~= old(out)@ + json_member(key@, json_bool(value)));
}

/// Appends `,"key":"value"` when the value is present, nothing otherwise.
pub fn push_optional_member(out: &mut Vec<u8>, key: &str, value: &Option<String>)
    ensures
        final(out)@ == old(out)@ + optional_member(key@, match value {
            Some(v) => Some(v@),
            None => None,
        }),
{
    match value {
        Some(v) => {
            out.push(44);
            push_string_member(out, key, v.as_str());
            assert(final(out)@ =~= old(out)@ + optional_member(key@, Some(v@)));
        },
        None => {
            assert(out@ =~= old(out)@ + Seq::<u8>::empty());
        },
    }
}

} // verus!
