//! Reading the query strings and form bodies of the GitHub login flow.
//!
//! Both are lists of `key=value` pieces joined by `&`. They are read as
//! bytes: the two separators are ASCII, so cutting at them never splits a
//! character. Where a key occurs more than once, its last piece counts.

use crate::error::Oauth;
use vstd::prelude::*;
use vstd::string::*;

verus! {

/// The byte `&`, which separates the pieces.
pub const AMPERSAND: u8 = 0x26;

/// The byte `=`, which separates a key from its value.
pub const EQUALS: u8 = 0x3d;

/// Where the piece that ends before `end` starts: behind the nearest `&`
/// before `end`, or at the start of the text.
pub open spec fn piece_start(text: Seq<u8>, end: int) -> int
    decreases end,
{
    if end <= 0 {
        0
    } else if text[end - 1] == AMPERSAND {
        end
    } else {
        piece_start(text, end - 1)
    }
}

/// A piece starts no later than it ends.
proof fn lemma_piece_start_is_before(text: Seq<u8>, end: int)
    ensures
        piece_start(text, end) <= end || end < 0,
    decreases end,
{
    if end > 0 && text[end - 1] != AMPERSAND {
        lemma_piece_start_is_before(text, end - 1);
    }
}

/// The place of the first `=` in `text[from..to]`, or `to` where there is
/// none.
pub open spec fn first_equals(text: Seq<u8>, from: int, to: int) -> int
    decreases to - from,
{
    if from >= to {
        to
    } else if text[from] == EQUALS {
        from
    } else {
        first_equals(text, from + 1, to)
    }
}

/// The first place in `text[from..to]` that holds no `=`, or `to` where
/// there is none.
pub open spec fn skip_equals(text: Seq<u8>, from: int, to: int) -> int
    decreases to - from,
{
    if from >= to {
        to
    } else if text[from] != EQUALS {
        from
    } else {
        skip_equals(text, from + 1, to)
    }
}

/// The place behind the last byte of `text[from..to]` that is no `=`, or
/// `from` where there is none.
pub open spec fn trim_equals(text: Seq<u8>, from: int, to: int) -> int
    decreases to - from,
{
    if to <= from {
        from
    } else if text[to - 1] != EQUALS {
        to
    } else {
        trim_equals(text, from, to - 1)
    }
}

/// The value of the last piece of `text[..end]` whose key is `key`. A
/// piece has a key only if it holds a `=`: the key is what stands before the
/// first one. The value is what follows, without the `=` it begins with
/// and, if `trim_tail` is set, without the `=` it ends with.
pub open spec fn last_value(text: Seq<u8>, key: Seq<u8>, end: int, trim_tail: bool) -> Option<
    Seq<u8>,
>
    decreases end,
    via last_value_ends
{
    let start = piece_start(text, end);
    let eq = first_equals(text, start, end);
    if eq < end && text.subrange(start, eq) == key {
        let from = skip_equals(text, eq, end);
        let to = if trim_tail {
            trim_equals(text, from, end)
        } else {
            end
        };
        Some(text.subrange(from, to))
    } else if start <= 0 {
        None
    } else {
        last_value(text, key, start - 1, trim_tail)
    }
}

#[via_fn]
proof fn last_value_ends(text: Seq<u8>, key: Seq<u8>, end: int, trim_tail: bool) {
    lemma_piece_start_is_before(text, end);
}

/// Whether every piece of `text[..end]` holds a `=`.
pub open spec fn every_piece_has_equals(text: Seq<u8>, end: int) -> bool
    decreases end,
    via every_piece_has_equals_ends
{
    let start = piece_start(text, end);
    first_equals(text, start, end) < end && (start <= 0 || every_piece_has_equals(text, start - 1))
}

#[via_fn]
proof fn every_piece_has_equals_ends(text: Seq<u8>, end: int) {
    lemma_piece_start_is_before(text, end);
}

/// Whether every piece of `text[..end]` holds exactly one `=`.
pub open spec fn every_piece_is_a_pair(text: Seq<u8>, end: int) -> bool
    decreases end,
    via every_piece_is_a_pair_ends
{
    let start = piece_start(text, end);
    let eq = first_equals(text, start, end);
    eq < end && first_equals(text, eq + 1, end) == end && (start <= 0 || every_piece_is_a_pair(
        text,
        start - 1,
    ))
}

#[via_fn]
proof fn every_piece_is_a_pair_ends(text: Seq<u8>, end: int) {
    lemma_piece_start_is_before(text, end);
}

/// The value a query string gives for `key`.
pub open spec fn query_value_of(query: Seq<u8>, key: Seq<u8>) -> Option<Seq<u8>> {
    last_value(query, key, query.len() as int, false)
}

/// The session code a login request carries in its query string: the value
/// of `code`, which must be there and not be empty.
pub open spec fn session_code_of(query: Seq<u8>) -> Result<Seq<u8>, Oauth> {
    match query_value_of(query, "code".spec_bytes()) {
        Some(code) => if code.len() > 0 {
            Ok(code)
        } else {
            Err(Oauth::BadRequest)
        },
        None => Err(Oauth::BadRequest),
    }
}

/// The session code of a query string that is held to the letter: every
/// piece must be one key and one value, and `code` must be among the keys.
pub open spec fn strict_session_code_of(query: Seq<u8>) -> Option<Seq<u8>> {
    if every_piece_is_a_pair(query, query.len() as int) {
        query_value_of(query, "code".spec_bytes())
    } else {
        None
    }
}

/// The access token a token response carries in its body: the value of
/// `access_token`, or nothing at all where the body names none. A body with
/// a piece that holds no `=` is not a token response.
pub open spec fn access_token_of(body: Seq<u8>) -> Option<Seq<u8>> {
    if every_piece_has_equals(body, body.len() as int) {
        match last_value(body, "access_token".spec_bytes(), body.len() as int, true) {
            Some(token) => Some(token),
            None => Some(Seq::empty()),
        }
    } else {
        None
    }
}

/// A piece starts behind a `&` or at the start of the text, and holds no
/// `&` itself.
pub proof fn lemma_piece_start(text: Seq<u8>, end: int)
    requires
        0 <= end <= text.len(),
    ensures
        0 <= piece_start(text, end) <= end,
        piece_start(text, end) == 0 || text[piece_start(text, end) - 1] == AMPERSAND,
        forall|i: int| piece_start(text, end) <= i < end ==> text[i] != AMPERSAND,
    decreases end,
{
    if end > 0 && text[end - 1] != AMPERSAND {
        lemma_piece_start(text, end - 1);
    }
}

/// The first `=` of a range is a `=` with none before it.
pub proof fn lemma_first_equals(text: Seq<u8>, from: int, to: int)
    requires
        0 <= from <= to <= text.len(),
    ensures
        from <= first_equals(text, from, to) <= to,
        first_equals(text, from, to) < to ==> text[first_equals(text, from, to)] == EQUALS,
        forall|i: int| from <= i < first_equals(text, from, to) ==> text[i] != EQUALS,
    decreases to - from,
{
    if from < to && text[from] != EQUALS {
        lemma_first_equals(text, from + 1, to);
    }
}

/// A value begins behind every `=` the range begins with.
pub proof fn lemma_skip_equals(text: Seq<u8>, from: int, to: int)
    requires
        0 <= from <= to <= text.len(),
    ensures
        from <= skip_equals(text, from, to) <= to,
        skip_equals(text, from, to) < to ==> text[skip_equals(text, from, to)] != EQUALS,
        forall|i: int| from <= i < skip_equals(text, from, to) ==> text[i] == EQUALS,
    decreases to - from,
{
    if from < to && text[from] == EQUALS {
        lemma_skip_equals(text, from + 1, to);
    }
}

/// A trimmed value ends before every `=` the range ends with.
pub proof fn lemma_trim_equals(text: Seq<u8>, from: int, to: int)
    requires
        0 <= from <= to <= text.len(),
    ensures
        from <= trim_equals(text, from, to) <= to,
        trim_equals(text, from, to) > from ==> text[trim_equals(text, from, to) - 1] != EQUALS,
        forall|i: int| trim_equals(text, from, to) <= i < to ==> text[i] == EQUALS,
    decreases to - from,
{
    if to > from && text[to - 1] == EQUALS {
        lemma_trim_equals(text, from, to - 1);
    }
}

/// A value, once found, is a stretch of the text it was found in: it holds
/// no `&`, and a trimmed value neither begins nor ends with `=`.
pub proof fn lemma_value_is_clean(text: Seq<u8>, key: Seq<u8>, end: int, trim_tail: bool)
    requires
        0 <= end <= text.len(),
    ensures
        last_value(text, key, end, trim_tail) matches Some(value) ==> {
            &&& forall|i: int| 0 <= i < value.len() ==> value[i] != AMPERSAND
            &&& value.len() > 0 ==> value[0] != EQUALS
            &&& trim_tail && value.len() > 0 ==> value[value.len() - 1] != EQUALS
        },
    decreases end,
{
    let start = piece_start(text, end);
    lemma_piece_start(text, end);
    let eq = first_equals(text, start, end);
    lemma_first_equals(text, start, end);
    if eq < end && text.subrange(start, eq) == key {
        let from = skip_equals(text, eq, end);
        lemma_skip_equals(text, eq, end);
        lemma_trim_equals(text, from, end);
    } else if start > 0 {
        lemma_value_is_clean(text, key, start - 1, trim_tail);
    }
}

fn find_piece_start(text: &[u8], end: usize) -> (start: usize)
    requires
        end <= text@.len(),
    ensures
        start == piece_start(text@, end as int),
        start <= end,
{
    let mut at: usize = end;
    while at > 0 && text[at - 1] != AMPERSAND
        invariant
            at <= end <= text@.len(),
            piece_start(text@, end as int) == piece_start(text@, at as int),
        decreases at,
    {
        at = at - 1;
    }
    at
}

fn find_first_equals(text: &[u8], from: usize, to: usize) -> (at: usize)
    requires
        from <= to <= text@.len(),
    ensures
        at == first_equals(text@, from as int, to as int),
        from <= at <= to,
{
    let mut at: usize = from;
    while at < to && text[at] != EQUALS
        invariant
            from <= at <= to <= text@.len(),
            first_equals(text@, from as int, to as int) == first_equals(text@, at as int, to as int),
        decreases to - at,
    {
        at = at + 1;
    }
    at
}

fn find_skip_equals(text: &[u8], from: usize, to: usize) -> (at: usize)
    requires
        from <= to <= text@.len(),
    ensures
        at == skip_equals(text@, from as int, to as int),
        from <= at <= to,
{
    let mut at: usize = from;
    while at < to && text[at] == EQUALS
        invariant
            from <= at <= to <= text@.len(),
            skip_equals(text@, from as int, to as int) == skip_equals(text@, at as int, to as int),
        decreases to - at,
    {
        at = at + 1;
    }
    at
}

fn find_trim_equals(text: &[u8], from: usize, to: usize) -> (at: usize)
    requires
        from <= to <= text@.len(),
    ensures
        at == trim_equals(text@, from as int, to as int),
        from <= at <= to,
{
    let mut at: usize = to;
    while at > from && text[at - 1] == EQUALS
        invariant
            from <= at <= to <= text@.len(),
            trim_equals(text@, from as int, to as int) == trim_equals(text@, from as int, at as int),
        decreases at,
    {
        at = at - 1;
    }
    at
}

/// Whether `text[from..to]` reads `word`.
fn reads(text: &[u8], from: usize, to: usize, word: &[u8]) -> (same: bool)
    requires
        from <= to <= text@.len(),
    ensures
        same == (text@.subrange(from as int, to as int) == word@),
{
    if to - from != word.len() {
        return false;
    }
    let mut i: usize = 0;
    while i < word.len()
        invariant
            from <= to <= text@.len(),
            to - from == word@.len(),
            i <= word@.len(),
            forall|j: int| 0 <= j < i ==> text@[from + j] == word@[j],
        decreases word@.len() - i,
    {
        if text[from + i] != word[i] {
            assert(text@.subrange(from as int, to as int)[i as int] != word@[i as int]);
            return false;
        }
        i = i + 1;
    }
    assert(text@.subrange(from as int, to as int) =~= word@);
    true
}

/// A copy of `text[from..to]`.
fn copy_of(text: &[u8], from: usize, to: usize) -> (copy: Vec<u8>)
    requires
        from <= to <= text@.len(),
    ensures
        copy@ == text@.subrange(from as int, to as int),
{
    let mut copy: Vec<u8> = Vec::new();
    let mut at: usize = from;
    while at < to
        invariant
            from <= at <= to <= text@.len(),
            copy@ == text@.subrange(from as int, at as int),
        decreases to - at,
    {
        copy.push(text[at]);
        assert(copy@ =~= text@.subrange(from as int, at + 1));
        at = at + 1;
    }
    copy
}

/// Finds the value of the last piece of `text` whose key is `key`.
fn find_last_value(text: &[u8], key: &[u8], trim_tail: bool) -> (value: Option<Vec<u8>>)
    ensures
        match value {
            Some(found) => last_value(text@, key@, text@.len() as int, trim_tail) == Some(found@),
            None => last_value(text@, key@, text@.len() as int, trim_tail) is None,
        },
{
    let mut end: usize = text.len();
    loop
        invariant
            end <= text@.len(),
            last_value(text@, key@, text@.len() as int, trim_tail) == last_value(
                text@,
                key@,
                end as int,
                trim_tail,
            ),
        decreases end,
    {
        let start = find_piece_start(text, end);
        let eq = find_first_equals(text, start, end);
        if eq < end && reads(text, start, eq, key) {
            let from = find_skip_equals(text, eq, end);
            let to = if trim_tail {
                find_trim_equals(text, from, end)
            } else {
                end
            };
            return Some(copy_of(text, from, to));
        }
        if start == 0 {
            return None;
        }
        end = start - 1;
    }
}

/// Decides whether every piece of `text` holds a `=`; with `single` set,
/// whether every piece holds exactly one.
fn check_pieces(text: &[u8], single: bool) -> (good: bool)
    ensures
        good == (if single {
            every_piece_is_a_pair(text@, text@.len() as int)
        } else {
            every_piece_has_equals(text@, text@.len() as int)
        }),
{
    let mut end: usize = text.len();
    loop
        invariant
            end <= text@.len(),
            single ==> every_piece_is_a_pair(text@, text@.len() as int) == every_piece_is_a_pair(
                text@,
                end as int,
            ),
            !single ==> every_piece_has_equals(text@, text@.len() as int)
                == every_piece_has_equals(text@, end as int),
        decreases end,
    {
        let start = find_piece_start(text, end);
        let eq = find_first_equals(text, start, end);
        if eq >= end {
            return false;
        }
        if single && find_first_equals(text, eq + 1, end) != end {
            return false;
        }
        if start == 0 {
            return true;
        }
        end = start - 1;
    }
}

/// Looks `key` up in a query string.
pub fn query_value(query: &[u8], key: &[u8]) -> (value: Option<Vec<u8>>)
    ensures
        match value {
            Some(found) => query_value_of(query@, key@) == Some(found@),
            None => query_value_of(query@, key@) is None,
        },
{
    find_last_value(query, key, false)
}

/// Reads the session code out of the query string of a login request.
pub fn session_code(query: &[u8]) -> (r: Result<Vec<u8>, Oauth>)
    ensures
        match r {
            Ok(code) => session_code_of(query@) == Ok::<Seq<u8>, Oauth>(code@),
            Err(error) => session_code_of(query@) == Err::<Seq<u8>, Oauth>(error),
        },
{
    match find_last_value(query, "code".as_bytes(), false) {
        Some(code) => {
            if code.len() > 0 {
                Ok(code)
            } else {
                Err(Oauth::BadRequest)
            }
        },
        None => Err(Oauth::BadRequest),
    }
}

/// Reads the session code out of a query string that is held to the letter.
pub fn strict_session_code(query: &[u8]) -> (code: Option<Vec<u8>>)
    ensures
        match code {
            Some(found) => strict_session_code_of(query@) == Some(found@),
            None => strict_session_code_of(query@) is None,
        },
{
    if check_pieces(query, true) {
        find_last_value(query, "code".as_bytes(), false)
    } else {
        None
    }
}

/// Reads the access token out of the body of a token response.
pub fn access_token(body: &[u8]) -> (token: Option<Vec<u8>>)
    ensures
        match token {
            Some(found) => access_token_of(body@) == Some(found@),
            None => access_token_of(body@) is None,
        },
{
    if check_pieces(body, false) {
        match find_last_value(body, "access_token".as_bytes(), true) {
            Some(token) => Some(token),
            None => Some(Vec::new()),
        }
    } else {
        None
    }
}

} // verus!
