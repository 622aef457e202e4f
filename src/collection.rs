use vstd::prelude::*;
use crate::user::UserView;

verus! {

// The collection as a sequence of records, and what each single-document
// operation that the handlers ask for may do to it. The store picks which of
// several matching documents an operation touches, so each is stated as a
// relation that holds of every outcome the store may give.

pub open spec fn has_email(c: Seq<UserView>, e: Seq<char>) -> bool {
    exists|i: int| 0 <= i < c.len() && #[trigger] c[i].email == e
}

/// At most one record carries the email `e`.
pub open spec fn email_at_most_once(c: Seq<UserView>, e: Seq<char>) -> bool {
    forall|i: int, j: int|
        0 <= i < c.len() && 0 <= j < c.len() && #[trigger] c[i].email == e && #[trigger] c[j].email
            == e ==> i == j
}

/// Exactly one record carries the email `e`.
pub open spec fn email_once(c: Seq<UserView>, e: Seq<char>) -> bool {
    has_email(c, e) && email_at_most_once(c, e)
}

/// `r` is a possible answer of a search for one document whose email is `e`.
pub open spec fn find_one(c: Seq<UserView>, e: Seq<char>, r: Option<UserView>) -> bool {
    match r {
        None => !has_email(c, e),
        Some(d) => d.email == e && c.contains(d),
    }
}

/// The collection after `d` was inserted.
pub open spec fn insert_one(c: Seq<UserView>, d: UserView) -> Seq<UserView> {
    c.push(d)
}

/// `c2` and `modified` are a possible outcome of replacing one document whose
/// email is `filter` by `d`: a document that already equals `d` counts as not modified.
pub open spec fn replace_one(
    c: Seq<UserView>,
    filter: Seq<char>,
    d: UserView,
    c2: Seq<UserView>,
    modified: u64,
) -> bool {
    if has_email(c, filter) {
        exists|i: int|
            0 <= i < c.len() && #[trigger] c[i].email == filter && c2 == c.update(i, d) && modified
                == (if c[i] == d { 0u64 } else { 1u64 })
    } else {
        c2 == c && modified == 0
    }
}

/// `c2` and `deleted` are a possible outcome of deleting one document whose email is `filter`.
pub open spec fn delete_one(c: Seq<UserView>, filter: Seq<char>, c2: Seq<UserView>, deleted: u64) -> bool {
    if has_email(c, filter) {
        exists|i: int| 0 <= i < c.len() && #[trigger] c[i].email == filter && c2 == c.remove(i) && deleted == 1
    } else {
        c2 == c && deleted == 0
    }
}

} // verus!
