use vstd::prelude::*;
use crate::reply::{
    error_text, greeting, msg_already_available, msg_deleted, msg_not_in_database, msg_updated,
    msg_user_added, msg_user_not_found, text_reply, Body, BodyView, Reply, ReplyView, STATUS_NOT_FOUND,
    STATUS_OK, STATUS_SERVER_ERROR,
};
use crate::user::{lower_of, lowercase, normalized, User, UserView};

verus! {

/// What `add_user` does once the collection has been searched for the email.
#[derive(Debug, Clone, PartialEq, Eq)]
pub enum AddStep {
    /// Answer at once; nothing is stored.
    Reply(Reply),
    /// Insert this record, then answer with `add_user_after_insert`.
    Insert(User),
}

pub enum AddStepView {
    Reply(ReplyView),
    Insert(UserView),
}

impl View for AddStep {
    type V = AddStepView;

    open spec fn view(&self) -> AddStepView {
        match self {
            AddStep::Reply(r) => AddStepView::Reply(r@),
            AddStep::Insert(u) => AddStepView::Insert(u@),
        }
    }
}

/// The full-document replace that `update_user` asks of the collection.
#[derive(Debug, Clone, PartialEq, Eq)]
pub struct Replacement {
    /// The email that selects the document, as given in the path.
    pub filter: String,
    /// The document that takes its place.
    pub doc: User,
}

pub struct ReplacementView {
    pub filter: Seq<char>,
    pub doc: UserView,
}

impl View for Replacement {
    type V = ReplacementView;

    open spec fn view(&self) -> ReplacementView {
        ReplacementView { filter: self.filter@, doc: self.doc@ }
    }
}

/// A search result of the collection, as plain values.
pub open spec fn found_view(r: Result<Option<User>, String>) -> Result<Option<UserView>, Seq<char>> {
    match r {
        Ok(Some(u)) => Ok(Some(u@)),
        Ok(None) => Ok(None),
        Err(e) => Err(e@),
    }
}

/// A count reported by the collection (modified or deleted documents), as plain values.
pub open spec fn count_view(r: Result<u64, String>) -> Result<u64, Seq<char>> {
    match r {
        Ok(n) => Ok(n),
        Err(e) => Err(e@),
    }
}

/// The outcome of an insert, as plain values.
pub open spec fn done_view(r: Result<(), String>) -> Result<(), Seq<char>> {
    match r {
        Ok(()) => Ok(()),
        Err(e) => Err(e@),
    }
}

pub open spec fn greet_reply() -> ReplyView {
    text_reply(STATUS_OK, greeting())
}

/// After the search for an existing record: a hit answers "already available";
/// no hit, or a failed search, goes on to insert `doc`.
pub open spec fn add_user_step(lookup: Result<Option<UserView>, Seq<char>>, doc: UserView) -> AddStepView {
    match lookup {
        Ok(Some(_)) => AddStepView::Reply(text_reply(STATUS_OK, msg_already_available())),
        _ => AddStepView::Insert(doc),
    }
}

pub open spec fn add_user_result(insert: Result<(), Seq<char>>) -> ReplyView {
    match insert {
        Ok(()) => text_reply(STATUS_OK, msg_user_added()),
        Err(e) => text_reply(STATUS_SERVER_ERROR, error_text(e)),
    }
}

/// The email that `get_user` searches for.
pub open spec fn get_user_query(path: Seq<char>) -> Seq<char> {
    lower_of(path)
}

pub open spec fn get_user_result(found: Result<Option<UserView>, Seq<char>>) -> ReplyView {
    match found {
        Ok(Some(u)) => ReplyView { status: STATUS_OK, body: BodyView::Json(u) },
        Ok(None) => text_reply(STATUS_NOT_FOUND, msg_user_not_found()),
        Err(_) => ReplyView { status: STATUS_SERVER_ERROR, body: BodyView::Empty },
    }
}

/// The path email selects the document as it is; the new record's email is lowercased.
pub open spec fn update_user_plan(path: Seq<char>, body: UserView) -> ReplacementView {
    ReplacementView { filter: path, doc: normalized(body) }
}

pub open spec fn update_user_result(modified: Result<u64, Seq<char>>) -> ReplyView {
    match modified {
        Ok(n) => if n > 0 {
            text_reply(STATUS_OK, msg_updated())
        } else {
            text_reply(STATUS_NOT_FOUND, msg_not_in_database())
        },
        Err(e) => text_reply(STATUS_SERVER_ERROR, error_text(e)),
    }
}

/// The email that selects the document to delete: the path, as it is.
pub open spec fn delete_user_filter(path: Seq<char>) -> Seq<char> {
    path
}

pub open spec fn delete_user_result(deleted: Result<u64, Seq<char>>) -> ReplyView {
    match deleted {
        Ok(n) => if n > 0 {
            text_reply(STATUS_OK, msg_deleted())
        } else {
            text_reply(STATUS_NOT_FOUND, msg_not_in_database())
        },
        Err(e) => text_reply(STATUS_SERVER_ERROR, error_text(e)),
    }
}

/// `GET /`.
pub fn greet() -> (r: Reply)
    ensures
        r@ == greet_reply(),
{
    Reply::text(STATUS_OK, "Jai Mata Di")
}

/// `POST /add_user`, once the collection has been searched for `doc.email`,
/// where `doc` is the request's user after `User::normalized`.
pub fn add_user_after_lookup(doc: User, lookup: &Result<Option<User>, String>) -> (r: AddStep)
    ensures
        r@ == add_user_step(found_view(*lookup), doc@),
{
    match lookup {
        Ok(Some(_)) => AddStep::Reply(Reply::text(STATUS_OK, "User already available")),
        _ => AddStep::Insert(doc),
    }
}

/// `POST /add_user`, once the record has been inserted or the insert failed.
pub fn add_user_after_insert(insert: &Result<(), String>) -> (r: Reply)
    ensures
        r@ == add_user_result(done_view(*insert)),
{
    match insert {
        Ok(()) => Reply::text(STATUS_OK, "User added successfully"),
        Err(e) => Reply::server_error(e.as_str()),
    }
}

/// `GET /get_user/{email}`: the email to search for.
pub fn get_user_filter(path: &str) -> (r: String)
    ensures
        r@ == get_user_query(path@),
{
    lowercase(path)
}

/// `GET /get_user/{email}`, once the collection has been searched.
pub fn get_user_reply(found: Result<Option<User>, String>) -> (r: Reply)
    ensures
        r@ == get_user_result(found_view(found)),
{
    match found {
        Ok(Some(u)) => Reply { status: STATUS_OK, body: Body::Json(u) },
        Ok(None) => Reply::text(STATUS_NOT_FOUND, "User not found"),
        Err(_) => Reply { status: STATUS_SERVER_ERROR, body: Body::Empty },
    }
}

/// `PUT /update_user/{email}`: the replace to perform.
pub fn update_user_replacement(path: String, body: User) -> (r: Replacement)
    ensures
        r@ == update_user_plan(path@, body@),
{
    Replacement { filter: path, doc: body.normalized() }
}

/// `PUT /update_user/{email}`, once the replace reported how many documents it modified.
pub fn update_user_reply(modified: &Result<u64, String>) -> (r: Reply)
    ensures
        r@ == update_user_result(count_view(*modified)),
{
    match modified {
        Ok(n) => if *n > 0 {
            Reply::text(STATUS_OK, "User updated successfully")
        } else {
            Reply::text(STATUS_NOT_FOUND, "User not found in the database")
        },
        Err(e) => Reply::server_error(e.as_str()),
    }
}

/// `DELETE /delete_user/{email}`, once the delete reported how many documents it removed.
pub fn delete_user_reply(deleted: &Result<u64, String>) -> (r: Reply)
    ensures
        r@ == delete_user_result(count_view(*deleted)),
{
    match deleted {
        Ok(n) => if *n > 0 {
            Reply::text(STATUS_OK, "User deleted successfully")
        } else {
            Reply::text(STATUS_NOT_FOUND, "User not found in the database")
        },
        Err(e) => Reply::server_error(e.as_str()),
    }
}

} // verus!
