//! What the authorization endpoints decide: the consent page a resource
//! owner is shown, and what becomes of the answer.

use vstd::prelude::*;
use vstd::string::*;

verus! {

/// The name every consenting owner is known by.
pub const OWNER: &'static str = "dummy user";

/// What the authorization endpoint makes of a request.
#[derive(Clone, Debug)]
pub enum OwnerAuthorization {
    /// The owner has yet to answer: show this page.
    InProgress(String),
    /// The owner refused.
    Denied,
    /// The owner agreed; this is who they are.
    Authorized(String),
}

/// The consent page for a client that asks for `scope`.
pub open spec fn consent_page(client_id: Seq<char>, redirect_uri: Seq<char>, scope: Seq<char>) -> Seq<
    char,
> {
    "<html>'"@ + client_id + "' (at "@ + redirect_uri + ") is requesting permission for '"@ + scope
        + "'<form method=\"post\"><input type=\"submit\" value=\"Accept\" formaction=\"authorize?response_type=code&client_id="@
        + client_id
        + "\"><input type=\"submit\" value=\"Deny\" formaction=\"authorize?response_type=code&client_id="@
        + client_id + "&deny=1\"></form></html>"@
}

/// Whether `word` stands in `text` at `at`.
pub open spec fn occurs_at(text: Seq<u8>, word: Seq<u8>, at: int) -> bool {
    0 <= at && at + word.len() <= text.len() && text.subrange(at, at + word.len()) == word
}

/// Whether `word` stands somewhere in `text`.
pub open spec fn occurs_in(text: Seq<u8>, word: Seq<u8>) -> bool {
    exists|at: int| occurs_at(text, word, at)
}

/// Answers a request for the consent page: the owner is shown who asks for
/// what, and two buttons.
pub fn handle_get(client_id: &str, redirect_uri: &str, scope: &str) -> (r: OwnerAuthorization)
    ensures
        r matches OwnerAuthorization::InProgress(page) && page@ == consent_page(
            client_id@,
            redirect_uri@,
            scope@,
        ),
{
    let mut page = "<html>'".to_owned();
    page.append(client_id);
    page.append("' (at ");
    page.append(redirect_uri);
    page.append(") is requesting permission for '");
    page.append(scope);
    page.append(
        "'<form method=\"post\"><input type=\"submit\" value=\"Accept\" formaction=\"authorize?response_type=code&client_id=",
    );
    page.append(client_id);
    page.append(
        "\"><input type=\"submit\" value=\"Deny\" formaction=\"authorize?response_type=code&client_id=",
    );
    page.append(client_id);
    page.append("&deny=1\"></form></html>");
    OwnerAuthorization::InProgress(page)
}

/// Answers the owner's choice: a denial is final, anything else makes the
/// owner [`OWNER`].
pub fn handle_post(denied: bool) -> (r: OwnerAuthorization)
    ensures
        match r {
            OwnerAuthorization::Denied => denied,
            OwnerAuthorization::Authorized(owner) => !denied && owner@ == OWNER@,
            OwnerAuthorization::InProgress(_) => false,
        },
{
    if denied {
        OwnerAuthorization::Denied
    } else {
        OwnerAuthorization::Authorized(OWNER.to_owned())
    }
}

/// Whether `text[at..]` begins with `word`.
fn begins_at(text: &[u8], word: &[u8], at: usize) -> (same: bool)
    requires
        at + word@.len() <= text@.len(),
    ensures
        same == occurs_at(text@, word@, at as int),
{
    let length: usize = text.len();
    let mut i: usize = 0;
    while i < word.len()
        invariant
            at + word@.len() <= text@.len() == length,
            i <= word@.len(),
            forall|j: int| 0 <= j < i ==> text@[at + j] == word@[j],
        decreases word@.len() - i,
    {
        if text[at + i] != word[i] {
            assert(text@.subrange(at as int, at + word@.len())[i as int] != word@[i as int]);
            return false;
        }
        i = i + 1;
    }
    assert(text@.subrange(at as int, at + word@.len()) =~= word@);
    true
}

/// Decides whether `word` stands somewhere in `text`.
pub fn contains(text: &[u8], word: &[u8]) -> (found: bool)
    ensures
        found == occurs_in(text@, word@),
{
    if word.len() > text.len() {
        return false;
    }
    let last: usize = text.len() - word.len();
    let mut at: usize = 0;
    loop
        invariant
            word@.len() <= text@.len(),
            last == text@.len() - word@.len(),
            at <= last,
            forall|before: int| 0 <= before < at ==> !occurs_at(text@, word@, before),
        decreases last - at,
    {
        if begins_at(text, word, at) {
            return true;
        }
        if at == last {
            return false;
        }
        at = at + 1;
    }
}

/// Whether the query string of an answer holds the word `deny`: the owner
/// pressed the second button.
pub fn is_denied(query: &[u8]) -> (denied: bool)
    ensures
        denied == occurs_in(query@, "deny".spec_bytes()),
{
    contains(query, "deny".as_bytes())
}

} // verus!
