use vstd::prelude::*;

verus! {

/// Body of a request that creates a user.
pub struct CreateUser {
    pub username: String,
}

/// A stored user: a server-generated identifier and a client-chosen name.
pub struct User {
    pub id: String,
    pub username: String,
}

/// The mathematical value of a `User`.
pub struct UserView {
    pub id: Seq<char>,
    pub username: Seq<char>,
}

impl View for User {
    type V = UserView;

    open spec fn view(&self) -> UserView {
        UserView { id: self.id@, username: self.username@ }
    }
}

impl User {
    /// A field-by-field copy.
    pub fn duplicate(&self) -> (r: User)
        ensures
            r@ == self@,
    {
        User { id: self.id.clone(), username: self.username.clone() }
    }
}

/// Process-wide configuration that the request-handling code reads.
pub struct Config {
    /// The single bearer token that gated routes accept.
    pub auth_token: String,
}

} // verus!
