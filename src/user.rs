use vstd::prelude::*;

verus! {

/// What `str::to_lowercase` makes of a string.
pub uninterp spec fn lower_of(s: Seq<char>) -> Seq<char>;

/// Relies on `str::to_lowercase`: the lowercase form depends on the characters alone.
#[verifier::external_body]
pub(crate) fn lowercase(s: &str) -> (r: String)
    ensures
        r@ == lower_of(s@),
{
    s.to_lowercase()
}

/// A user record, as stored in the collection and exchanged as JSON.
#[derive(Debug, Clone, PartialEq, Eq)]
pub struct User {
    pub username: String,
    pub email: String,
}

/// The contents of a `User`.
pub struct UserView {
    pub username: Seq<char>,
    pub email: Seq<char>,
}

impl View for User {
    type V = UserView;

    open spec fn view(&self) -> UserView {
        UserView { username: self.username@, email: self.email@ }
    }
}

/// The record that is stored for `u`: the same username, the email lowercased.
pub open spec fn normalized(u: UserView) -> UserView {
    UserView { username: u.username, email: lower_of(u.email) }
}

impl User {
    pub fn new(username: String, email: String) -> (r: User)
        ensures
            r.username == username,
            r.email == email,
    {
        User { username, email }
    }

    /// The record to store for this user: the email is lowercased.
    pub fn normalized(self) -> (r: User)
        ensures
            r@ == normalized(self@),
    {
        let email = lowercase(self.email.as_str());
        User { username: self.username, email }
    }
}

} // verus!
