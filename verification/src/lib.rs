//! The backend of a questionnaire that is shown live: a presenter steps
//! through the questions of a presentation, and every connected viewer
//! follows.
//!
//! The heart of it is in three modules. [`navigation`] says which question
//! comes after which. [`web_socket`] is the session that serves one
//! connected client, as a state machine without a transport of its own.
//! [`web_socket_server`] is the hub that knows every live session and sends
//! a message to all of them. [`protocol`] is the JSON the two sides speak,
//! read and written through [`json`].
//!
//! The rest is what the HTTP endpoints around it decide: the errors they
//! answer with ([`error`], [`oauth_error`]), the GitHub login ([`github`],
//! [`oauth`], [`session`], [`middleware`]) and the records they build
//! ([`models`]).
//!
//! Nothing here opens a socket, reads a clock or touches a database. The
//! program that does is built on top.

use vstd::prelude::*;

pub mod error;
pub mod github;
pub mod json;
pub mod middleware;
pub mod models;
pub mod navigation;
pub mod oauth;
pub mod oauth_error;
pub mod protocol;
pub mod session;
pub mod web_socket;
pub mod web_socket_server;

verus! {

/// The key under which a request's session keeps the GitHub user.
pub const GH_USER_SESSION_ID_KEY: &'static str = "gh_user_id";

} // verus!
