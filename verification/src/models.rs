//! The records that are written to the database and sent to GitHub, as far
//! as they are built here. A creation time is a `chrono::NaiveDateTime`; it
//! is carried through unread.

use vstd::prelude::*;

verus! {

/// `chrono::NaiveDateTime`, a date and time without a zone. It is held and
/// handed on, never looked into.
#[verifier::external_type_specification]
#[verifier::external_body]
pub struct ExNaiveDateTime(chrono::NaiveDateTime);

/// A question about to be stored.
#[derive(Debug)]
pub struct NewQuestion {
    pub title: String,
    pub created: chrono::NaiveDateTime,
    pub presentation_id: i32,
    pub user_id: i32,
}

impl NewQuestion {
    pub fn new(
        title: String,
        created: chrono::NaiveDateTime,
        presentation_id: i32,
        user_id: i32,
    ) -> (record: Self)
        ensures
            record.title == title,
            record.created == created,
            record.presentation_id == presentation_id,
            record.user_id == user_id,
    {
        NewQuestion { title, created, presentation_id, user_id }
    }
}

/// An answer about to be stored.
#[derive(Debug)]
pub struct NewAnswer {
    pub user_id: i32,
    pub created: chrono::NaiveDateTime,
    pub option_id: i32,
}

impl NewAnswer {
    pub fn new(user_id: i32, created: chrono::NaiveDateTime, option_id: i32) -> (record: Self)
        ensures
            record.user_id == user_id,
            record.created == created,
            record.option_id == option_id,
    {
        NewAnswer { user_id, created, option_id }
    }
}

/// The body of the request that trades a session code for an access token.
#[derive(Debug)]
pub struct GHAccessTokenBody {
    client_id: String,
    client_secret: String,
    code: String,
    accept: String,
}

impl GHAccessTokenBody {
    /// The body as contracts see it: client id, client secret, code, and
    /// the format the answer is asked in.
    pub closed spec fn view(&self) -> (String, String, String, String) {
        (self.client_id, self.client_secret, self.code, self.accept)
    }

    pub fn new(client_id: String, client_secret: String, code: String, accept: String) -> (body:
        Self)
        ensures
            body.view() == (client_id, client_secret, code, accept),
    {
        GHAccessTokenBody { client_id, client_secret, code, accept }
    }

    /// Takes the body apart again: client id, client secret, code, format.
    pub fn into_parts(self) -> (parts: (String, String, String, String))
        ensures
            parts == self.view(),
    {
        (self.client_id, self.client_secret, self.code, self.accept)
    }
}

/// A presentation about to be stored.
#[derive(Debug)]
pub struct NewPresentation {
    title: String,
    user_id: i32,
    created: chrono::NaiveDateTime,
}

impl NewPresentation {
    /// The record as contracts see it: title, owner, creation time.
    pub closed spec fn view(&self) -> (String, i32, chrono::NaiveDateTime) {
        (self.title, self.user_id, self.created)
    }

    pub fn new(title: String, user_id: i32, created: chrono::NaiveDateTime) -> (record: Self)
        ensures
            record.view() == (title, user_id, created),
    {
        NewPresentation { title, user_id, created }
    }

    /// Takes the record apart again: title, owner, creation time.
    pub fn into_parts(self) -> (parts: (String, i32, chrono::NaiveDateTime))
        ensures
            parts == self.view(),
    {
        (self.title, self.user_id, self.created)
    }
}

/// An option about to be stored.
#[derive(Debug)]
pub struct NewOption {
    pub data: String,
    pub user_id: i32,
    pub question_id: i32,
    pub created: chrono::NaiveDateTime,
}

impl NewOption {
    pub fn new(
        data: String,
        user_id: i32,
        question_id: i32,
        created: chrono::NaiveDateTime,
    ) -> (record: Self)
        ensures
            record.data == data,
            record.user_id == user_id,
            record.question_id == question_id,
            record.created == created,
    {
        NewOption { data, user_id, question_id, created }
    }
}

} // verus!
