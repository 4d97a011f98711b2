//! The JSON reader and writer the protocol is built on.
//!
//! Parsing and printing are done by `serde_json`. Nothing in this module is
//! proved: each function states what the `serde_json` calls in its body are
//! taken to do. What was read is handed on as plain values, and named in
//! contracts by the bodiless spec function beside the reader.

use vstd::prelude::*;

verus! {

/// What is known of one member of a document: `None` where the document
/// has no such member, `Some(None)` where the member is there but holds no
/// value of the kind asked for.
pub type Member<T> = Option<Option<T>>;

/// What `serde_json` reads out of `text` under three keys, or `None` where
/// `text` is not one JSON document: the member under `signed` as an `i64`,
/// the member under `unsigned` as a `u64`, and the member under `word` as a
/// string. A document that is no object has no members.
pub uninterp spec fn json_members(
    text: Seq<char>,
    signed: Seq<char>,
    unsigned: Seq<char>,
    word: Seq<char>,
) -> Option<(Member<i64>, Member<u64>, Member<Seq<char>>)>;

/// The character of the decimal digit `d`.
pub open spec fn digit_char(d: nat) -> char {
    if d == 0 {
        '0'
    } else if d == 1 {
        '1'
    } else if d == 2 {
        '2'
    } else if d == 3 {
        '3'
    } else if d == 4 {
        '4'
    } else if d == 5 {
        '5'
    } else if d == 6 {
        '6'
    } else if d == 7 {
        '7'
    } else if d == 8 {
        '8'
    } else {
        '9'
    }
}

/// The decimal numeral of `n`: most significant digit first, no sign, no
/// leading zero, `"0"` for zero.
pub open spec fn decimal_digits(n: nat) -> Seq<char>
    decreases n,
{
    if n < 10 {
        seq![digit_char(n)]
    } else {
        decimal_digits(n / 10).push(digit_char(n % 10))
    }
}

/// `serde_json::from_str` at type `serde_json::Value`, then
/// `serde_json::Value::get` with each key, and `as_i64`, `as_u64` and `as_str`
/// on what was found. The parser reports malformed text, trailing characters
/// and nesting beyond its depth limit as an error, and none of the calls
/// panics. Taken on trust: the outcome depends on the four arguments alone.
#[verifier::external_body]
pub(crate) fn read_members(text: &str, signed: &str, unsigned: &str, word: &str) -> (r: Option<
    (Member<i64>, Member<u64>, Member<String>),
>)
    ensures
        match r {
            Some(found) => json_members(text@, signed@, unsigned@, word@) == Some(
                (
                    found.0,
                    found.1,
                    match found.2 {
                        Some(Some(held)) => Some(Some(held@)),
                        Some(None) => Some(None),
                        None => None,
                    },
                ),
            ),
            None => json_members(text@, signed@, unsigned@, word@) is None,
        },
{
    let document = serde_json::from_str::<serde_json::Value>(text).ok()?;
    Some(
        (
            document.get(signed).map(|value| value.as_i64()),
            document.get(unsigned).map(|value| value.as_u64()),
            document.get(word).map(|value| value.as_str().map(|held| held.to_owned())),
        ),
    )
}

/// `serde_json::to_string` at type `u64`: the JSON text of a number. Taken
/// on trust: the text is the decimal numeral of `n`, and writing into a
/// string cannot fail.
#[verifier::external_body]
pub(crate) fn number_text(n: u64) -> (r: String)
    ensures
        r@ == decimal_digits(n as nat),
{
    match serde_json::to_string(&n) {
        Ok(text) => text,
        Err(_) => String::new(),
    }
}

} // verus!
