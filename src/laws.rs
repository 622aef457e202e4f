use vstd::prelude::*;
use crate::collection::{delete_one, email_at_most_once, email_once, find_one, has_email, insert_one, replace_one};
use crate::handlers::{
    add_user_result, add_user_step, delete_user_filter, delete_user_result, get_user_query,
    get_user_result, update_user_plan, update_user_result, AddStepView,
};
use crate::reply::{
    msg_already_available, msg_user_added, msg_user_not_found, text_reply, BodyView, ReplyView,
    STATUS_NOT_FOUND, STATUS_OK,
};
use crate::user::{lower_of, normalized, UserView};

verus! {

/// Adding a user whose lowercased email is not stored yet inserts exactly one
/// record for that email, with the email lowercased, and answers
/// "User added successfully". Adding again, with an email that differs at most
/// in case, answers "User already available" and inserts nothing.
pub proof fn add_user_inserts_once(
    c: Seq<UserView>,
    u: UserView,
    again: UserView,
    first: Option<UserView>,
    second: Option<UserView>,
)
    requires
        !has_email(c, lower_of(u.email)),
        find_one(c, normalized(u).email, first),
        lower_of(again.email) == lower_of(u.email),
        find_one(insert_one(c, normalized(u)), normalized(again).email, second),
    ensures
        add_user_step(Ok(first), normalized(u)) == AddStepView::Insert(normalized(u)),
        normalized(u).email == lower_of(u.email),
        add_user_result(Ok(())) == text_reply(STATUS_OK, msg_user_added()),
        email_once(insert_one(c, normalized(u)), lower_of(u.email)),
        add_user_step(Ok(second), normalized(again)) == AddStepView::Reply(
            text_reply(STATUS_OK, msg_already_available()),
        ),
{
    let d = normalized(u);
    let c1 = insert_one(c, d);
    let e = lower_of(u.email);
    assert(c1[c.len() as int].email == e);
    assert forall|i: int, j: int|
        0 <= i < c1.len() && 0 <= j < c1.len() && #[trigger] c1[i].email == e && #[trigger] c1[j].email
            == e implies i == j by {
        if i < c.len() {
            assert(c[i] == c1[i]);
        }
        if j < c.len() {
            assert(c[j] == c1[j]);
        }
    }
}

/// `get_user` searches for the same email, and so may give the same answers,
/// for two path emails whose lowercase forms agree.
pub proof fn get_user_ignores_case(c: Seq<UserView>, a: Seq<char>, b: Seq<char>, r: Option<UserView>)
    requires
        lower_of(a) == lower_of(b),
    ensures
        get_user_query(a) == get_user_query(b),
        find_one(c, get_user_query(a), r) == find_one(c, get_user_query(b), r),
{
}

/// `update_user` answers 200 only if a record exists whose email is the path
/// email exactly as given.
pub proof fn update_user_needs_exact_match(
    c: Seq<UserView>,
    path: Seq<char>,
    body: UserView,
    c2: Seq<UserView>,
    modified: u64,
)
    requires
        replace_one(c, update_user_plan(path, body).filter, update_user_plan(path, body).doc, c2, modified),
        update_user_result(Ok(modified)).status == STATUS_OK,
    ensures
        has_email(c, path),
{
}

/// After `update_user` answered 200, `get_user` by the body's email, in any case
/// with the same lowercase form, finds the new record and its username. This
/// holds where the path email selected a single record and no other record
/// already carried the new email.
pub proof fn update_user_then_get(
    c: Seq<UserView>,
    path: Seq<char>,
    body: UserView,
    c2: Seq<UserView>,
    modified: u64,
    q: Seq<char>,
    r: Option<UserView>,
)
    requires
        replace_one(c, update_user_plan(path, body).filter, update_user_plan(path, body).doc, c2, modified),
        update_user_result(Ok(modified)).status == STATUS_OK,
        email_at_most_once(c, path),
        forall|i: int| 0 <= i < c.len() && #[trigger] c[i].email == lower_of(body.email) ==> c[i].email == path,
        lower_of(q) == lower_of(body.email),
        find_one(c2, get_user_query(q), r),
    ensures
        get_user_result(Ok(r)) == (ReplyView { status: STATUS_OK, body: BodyView::Json(normalized(body)) }),
        normalized(body).username == body.username,
{
    let d = normalized(body);
    let e = d.email;
    assert(has_email(c, path));
    let i = choose|i: int|
        0 <= i < c.len() && #[trigger] c[i].email == path && c2 == c.update(i, d) && modified == (if c[i]
            == d { 0u64 } else { 1u64 });
    assert(c2[i].email == e);
    match r {
        None => {},
        Some(x) => {
            let k = choose|k: int| 0 <= k < c2.len() && c2[k] == x;
            if k != i {
                assert(c2[k] == c[k]);
                assert(c[k].email == path);
            }
        },
    }
}

/// `delete_user` answers 200 only if a record exists whose email is the path
/// email exactly as given.
pub proof fn delete_user_needs_exact_match(c: Seq<UserView>, path: Seq<char>, c2: Seq<UserView>, deleted: u64)
    requires
        delete_one(c, delete_user_filter(path), c2, deleted),
        delete_user_result(Ok(deleted)).status == STATUS_OK,
    ensures
        has_email(c, path),
{
}

/// After `delete_user` answered 200, `get_user` for the same path answers 404.
/// This holds where the path selected a single record and no record carries
/// the lowercase form of the path unless it is the path itself.
pub proof fn delete_user_then_get(
    c: Seq<UserView>,
    path: Seq<char>,
    c2: Seq<UserView>,
    deleted: u64,
    r: Option<UserView>,
)
    requires
        delete_one(c, delete_user_filter(path), c2, deleted),
        delete_user_result(Ok(deleted)).status == STATUS_OK,
        email_at_most_once(c, path),
        forall|i: int| 0 <= i < c.len() && #[trigger] c[i].email == lower_of(path) ==> c[i].email == path,
        find_one(c2, get_user_query(path), r),
    ensures
        get_user_result(Ok(r)) == text_reply(STATUS_NOT_FOUND, msg_user_not_found()),
{
    assert(has_email(c, path));
    let i = choose|i: int| 0 <= i < c.len() && #[trigger] c[i].email == path && c2 == c.remove(i) && deleted == 1;
    match r {
        None => {},
        Some(x) => {
            let k = choose|k: int| 0 <= k < c2.len() && c2[k] == x;
            if k < i {
                assert(c2[k] == c[k]);
                assert(c[k].email == path);
            } else {
                assert(c2[k] == c[k + 1]);
                assert(c[k + 1].email == path);
            }
        },
    }
}

} // verus!
