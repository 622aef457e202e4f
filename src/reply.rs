use vstd::prelude::*;
use vstd::string::*;
use crate::user::{User, UserView};

verus! {

pub const STATUS_OK: u16 = 200;

pub const STATUS_NOT_FOUND: u16 = 404;

pub const STATUS_SERVER_ERROR: u16 = 500;

/// The body of an HTTP reply.
#[derive(Debug, Clone, PartialEq, Eq)]
pub enum Body {
    Text(String),
    Json(User),
    Empty,
}

/// An HTTP reply: a status code and a body.
#[derive(Debug, Clone, PartialEq, Eq)]
pub struct Reply {
    pub status: u16,
    pub body: Body,
}

pub enum BodyView {
    Text(Seq<char>),
    Json(UserView),
    Empty,
}

pub struct ReplyView {
    pub status: u16,
    pub body: BodyView,
}

impl View for Body {
    type V = BodyView;

    open spec fn view(&self) -> BodyView {
        match self {
            Body::Text(s) => BodyView::Text(s@),
            Body::Json(u) => BodyView::Json(u@),
            Body::Empty => BodyView::Empty,
        }
    }
}

impl View for Reply {
    type V = ReplyView;

    open spec fn view(&self) -> ReplyView {
        ReplyView { status: self.status, body: self.body@ }
    }
}

pub open spec fn text_reply(status: u16, text: Seq<char>) -> ReplyView {
    ReplyView { status, body: BodyView::Text(text) }
}

pub open spec fn greeting() -> Seq<char> {
    "Jai Mata Di"@
}

pub open spec fn msg_user_added() -> Seq<char> {
    "User added successfully"@
}

pub open spec fn msg_already_available() -> Seq<char> {
    "User already available"@
}

pub open spec fn msg_user_not_found() -> Seq<char> {
    "User not found"@
}

pub open spec fn msg_updated() -> Seq<char> {
    "User updated successfully"@
}

pub open spec fn msg_deleted() -> Seq<char> {
    "User deleted successfully"@
}

pub open spec fn msg_not_in_database() -> Seq<char> {
    "User not found in the database"@
}

/// The body of a reply that reports a database failure with its description.
pub open spec fn error_text(detail: Seq<char>) -> Seq<char> {
    "Error: "@ + detail
}

impl Reply {
    /// A reply with a text body.
    pub fn text(status: u16, text: &str) -> (r: Reply)
        ensures
            r@ == text_reply(status, text@),
    {
        Reply { status, body: Body::Text(String::from_str(text)) }
    }

    /// A 500 reply whose body gives the description of a database failure.
    pub fn server_error(detail: &str) -> (r: Reply)
        ensures
            r@ == text_reply(STATUS_SERVER_ERROR, error_text(detail@)),
    {
        let mut s = String::from_str("Error: ");
        s.append(detail);
        Reply { status: STATUS_SERVER_ERROR, body: Body::Text(s) }
    }
}

} // verus!
