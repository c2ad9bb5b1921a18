//! Record shapes of the API: user records, creation payloads, listings, the
//! service descriptor, and the error kind handlers can return.

use vstd::prelude::*;

verus! {

/// A stored user record: identifier, display name, and email address.
pub struct User {
    pub id: String,
    pub name: String,
    pub email: String,
}

/// The abstract value of a `User`: its three fields as character sequences.
pub ghost struct UserView {
    pub id: Seq<char>,
    pub name: Seq<char>,
    pub email: Seq<char>,
}

impl View for User {
    type V = UserView;

    open spec fn view(&self) -> UserView {
        UserView { id: self.id@, name: self.name@, email: self.email@ }
    }
}

/// A request payload asking for a user to be created. The declared
/// constraints are a display name of at least one character and an email
/// address of at least five characters; `valid` states them, and enforcement
/// is left to the caller.
pub struct CreateUser {
    pub name: String,
    pub email: String,
}

impl CreateUser {
    /// The declared constraints on a creation payload.
    pub open spec fn valid(self) -> bool {
        self.name@.len() >= 1 && self.email@.len() >= 5
    }

    /// Decides whether this payload meets its declared constraints.
    pub fn is_valid(&self) -> (r: bool)
        ensures
            r == self.valid(),
    {
        self.name.as_str().unicode_len() >= 1 && self.email.as_str().unicode_len() >= 5
    }
}

/// A listing response: an ordered sequence of users and a total count.
pub struct UserList {
    pub users: Vec<User>,
    pub total: i64,
}

/// The abstract value of a `UserList`.
pub ghost struct UserListView {
    pub users: Seq<UserView>,
    pub total: int,
}

impl View for UserList {
    type V = UserListView;

    open spec fn view(&self) -> UserListView {
        UserListView { users: self.users@.map_values(|u: User| u@), total: self.total as int }
    }
}

impl UserList {
    /// A listing is consistent when its count matches the number of listed
    /// users.
    pub open spec fn consistent(self) -> bool {
        self@.total == self@.users.len()
    }
}

/// The service descriptor returned from the root route.
pub struct ApiInfo {
    pub name: String,
    pub version: String,
}

/// The abstract value of an `ApiInfo`.
pub ghost struct ApiInfoView {
    pub name: Seq<char>,
    pub version: Seq<char>,
}

impl View for ApiInfo {
    type V = ApiInfoView;

    open spec fn view(&self) -> ApiInfoView {
        ApiInfoView { name: self.name@, version: self.version@ }
    }
}

/// The error kind a handler can return: the requested record does not exist,
/// with a human-readable message.
#[derive(Debug)]
pub enum ApiError {
    NotFound { message: String },
}

impl ApiError {
    /// The message carried by this error.
    pub open spec fn spec_message(self) -> Seq<char> {
        match self {
            ApiError::NotFound { message } => message@,
        }
    }

    /// Returns the message carried by this error.
    pub fn message(&self) -> (r: &str)
        ensures
            r@ == self.spec_message(),
    {
        match self {
            ApiError::NotFound { message } => message.as_str(),
        }
    }
}

} // verus!
