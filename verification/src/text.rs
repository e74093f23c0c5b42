//! Strings as sequences of characters.

use vstd::prelude::*;
use vstd::string::*;
use vstd::utf8::{decode_utf8, valid_utf8};

verus! {

/// The characters of `text`, in order.
pub fn chars_of(text: &str) -> (chars: Vec<char>)
    ensures
        chars@ == text@,
{
    let mut chars: Vec<char> = Vec::new();
    for c in it: text.chars()
        invariant
            chars@ == it.seq().take(it.index()),
    {
        chars.push(c);
    }
    chars
}

/// Whether `a` and `b` hold the same characters.
pub fn same_text(a: &str, b: &str) -> (same: bool)
    ensures
        same == (a@ == b@),
{
    let a = a.to_owned();
    let b = b.to_owned();
    a == b
}

/// The text that `bytes` hold, if they are valid UTF-8.
pub open spec fn text_of(bytes: Seq<u8>) -> Option<Seq<char>> {
    if valid_utf8(bytes) {
        Some(decode_utf8(bytes))
    } else {
        None
    }
}

/// Decodes the output of a process with `String::from_utf8`, which turns
/// bytes that are valid UTF-8 into the string they encode and refuses all
/// others as a whole. The error, which says where the first invalid byte
/// stands, is dropped.
#[verifier::external_body]
pub(crate) fn decode(bytes: Vec<u8>) -> (text: Option<String>)
    ensures
        text.deep_view() == text_of(bytes@),
{
    match String::from_utf8(bytes) {
        Ok(text) => Some(text),
        Err(_) => None,
    }
}

/// `text` without the one line feed it ends in, if it ends in one.
pub open spec fn without_line_feed(text: Seq<char>) -> Seq<char> {
    if text.len() > 0 && text.last() == '\n' {
        text.drop_last()
    } else {
        text
    }
}

/// Strips the line feed that ends the output of a command. No more than
/// that one character is taken off.
pub fn trim_line_feed(text: String) -> (trimmed: String)
    ensures
        trimmed@ == without_line_feed(text@),
{
    let length: usize = text.as_str().unicode_len();
    if length > 0 && text.as_str().get_char(length - 1) == '\n' {
        text.as_str().substring_char(0, length - 1).to_owned()
    } else {
        text
    }
}

/// `text` without `prefix` in front, or all of `text` if it does not start
/// with `prefix`.
pub open spec fn without_prefix(text: Seq<char>, prefix: Seq<char>) -> Seq<char> {
    if prefix.is_prefix_of(text) {
        text.skip(prefix.len() as int)
    } else {
        text
    }
}

/// Whether `pattern` stands in `chars` at index `at` and ends by index `end`.
pub open spec fn stands_at_spec(chars: Seq<char>, at: int, end: int, pattern: Seq<char>) -> bool {
    &&& 0 <= at <= end <= chars.len()
    &&& end - at >= pattern.len()
    &&& chars.subrange(at, at + pattern.len()) == pattern
}

/// Looks for `pattern` in `chars` at index `at`, within the characters before
/// index `end`.
pub fn stands_at(chars: &Vec<char>, at: usize, end: usize, pattern: &Vec<char>) -> (found: bool)
    ensures
        found == stands_at_spec(chars@, at as int, end as int, pattern@),
{
    if at > end || end > chars.len() || end - at < pattern.len() {
        return false;
    }
    let mut k: usize = 0;
    while k < pattern.len()
        invariant
            k <= pattern.len(),
            at + pattern.len() <= end <= chars.len(),
            forall|j: int| 0 <= j < k ==> chars[at + j] == pattern[j],
        decreases pattern.len() - k,
    {
        if chars[at + k] != pattern[k] {
            assert(chars@.subrange(at as int, at + pattern.len())[k as int] != pattern[k as int]);
            return false;
        }
        k += 1;
    }
    assert(chars@.subrange(at as int, at + pattern.len()) =~= pattern@);
    true
}

/// Whether the bytes of `pattern` stand in `bytes` from index `at` on.
pub open spec fn bytes_stand_at_spec(bytes: Seq<u8>, at: int, pattern: Seq<u8>) -> bool {
    &&& 0 <= at
    &&& at + pattern.len() <= bytes.len()
    &&& bytes.subrange(at, at + pattern.len()) == pattern
}

/// Looks for `pattern` in `bytes` at index `at`.
pub fn bytes_stand_at(bytes: &[u8], at: usize, pattern: &[u8]) -> (found: bool)
    ensures
        found == bytes_stand_at_spec(bytes@, at as int, pattern@),
{
    if at > bytes.len() || bytes.len() - at < pattern.len() {
        return false;
    }
    let mut k: usize = 0;
    while k < pattern.len()
        invariant
            k <= pattern.len(),
            at + pattern.len() <= bytes.len(),
            forall|j: int| 0 <= j < k ==> bytes[at + j] == pattern[j],
        decreases pattern.len() - k,
    {
        if bytes[at + k] != pattern[k] {
            assert(bytes@.subrange(at as int, at + pattern.len())[k as int] != pattern[k as int]);
            return false;
        }
        k += 1;
    }
    assert(bytes@.subrange(at as int, at + pattern.len()) =~= pattern@);
    true
}

/// Strips `prefix` from the front of `text`, where it stands there.
pub fn strip_prefix<'a>(text: &'a str, prefix: &str) -> (rest: &'a str)
    ensures
        rest@ == without_prefix(text@, prefix@),
{
    let chars = chars_of(text);
    let pattern = chars_of(prefix);
    if stands_at(&chars, 0, chars.len(), &pattern) {
        text.substring_char(pattern.len(), chars.len())
    } else {
        text
    }
}

} // verus!
