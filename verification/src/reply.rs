//! What the tracker answers a request with.

use vstd::prelude::*;
use crate::models::{Bug, Project, User};

verus! {

/// The body of an answer.
#[derive(Debug)]
pub enum Body {
    /// A plain text body.
    Text(String),
    /// A rendered page, sent as `text/html`.
    Html(String),
    /// A failure raised as an error of the request, sent as plain text.
    ErrorText(String),
    /// One bug, as JSON.
    Bug(Bug),
    /// All bugs, as JSON.
    Bugs(Vec<Bug>),
    /// One project, as JSON.
    Project(Project),
    /// All projects, as JSON.
    Projects(Vec<Project>),
    /// `{"status": "success", "token": ...}`.
    LoginSuccess(String),
    /// `{"status": "failure"}`.
    LoginFailure,
    /// `{"status": "success", "message": "User created successfully", "user": ...}`.
    UserCreated(User),
}

/// An answer: an HTTP status and a body.
#[derive(Debug)]
pub struct Reply {
    pub status: u16,
    pub body: Body,
}

/// `r` is a plain text answer with the given status and message.
pub open spec fn text_reply(r: Reply, status: u16, message: Seq<char>) -> bool {
    &&& r.status == status
    &&& r.body matches Body::Text(t) && t@ == message
}

/// `r` is an error answer with the given status and message.
pub open spec fn error_reply(r: Reply, status: u16, message: Seq<char>) -> bool {
    &&& r.status == status
    &&& r.body matches Body::ErrorText(t) && t@ == message
}

} // verus!
