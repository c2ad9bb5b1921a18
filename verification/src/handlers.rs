//! Handler logic for the API's routes: the service descriptor, the user
//! listing, lookup by identifier, and creation of a user record from a
//! payload and fresh entropy.

use vstd::prelude::*;
use crate::ids::spec_uuid_v4;
use crate::ids::uuid_v4;
use crate::types::ApiError;
use crate::types::ApiInfo;
use crate::types::ApiInfoView;
use crate::types::CreateUser;
use crate::types::User;
use crate::types::UserList;
use crate::types::UserView;

verus! {

/// The fixed service descriptor served from the root route.
pub open spec fn service_descriptor() -> ApiInfoView {
    ApiInfoView { name: "my-api"@, version: "0.1.0"@ }
}

/// The record served for the identifier `"1"`.
pub open spec fn alice() -> UserView {
    UserView { id: "1"@, name: "Alice"@, email: "alice@example.com"@ }
}

/// The record served for the identifier `"2"`.
pub open spec fn bob() -> UserView {
    UserView { id: "2"@, name: "Bob"@, email: "bob@example.com"@ }
}

/// The known records, in listing order.
pub open spec fn known_users() -> Seq<UserView> {
    seq![alice(), bob()]
}

/// The record served for an identifier, if any: `"1"` is Alice, `"2"` is
/// Bob, and no other identifier is known.
pub open spec fn spec_lookup(id: Seq<char>) -> Option<UserView> {
    if id == alice().id {
        Some(alice())
    } else if id == bob().id {
        Some(bob())
    } else {
        None
    }
}

/// Compares two string slices by their character sequences.
fn str_eq(a: &str, b: &str) -> (r: bool)
    ensures
        r == (a@ == b@),
{
    let a_owned: String = a.to_owned();
    let b_owned: String = b.to_owned();
    a_owned == b_owned
}

fn make_alice() -> (r: User)
    ensures
        r@ == alice(),
{
    User { id: "1".to_owned(), name: "Alice".to_owned(), email: "alice@example.com".to_owned() }
}

fn make_bob() -> (r: User)
    ensures
        r@ == bob(),
{
    User { id: "2".to_owned(), name: "Bob".to_owned(), email: "bob@example.com".to_owned() }
}

/// Serves the root route: the fixed service descriptor.
pub fn home() -> (r: ApiInfo)
    ensures
        r@ == service_descriptor(),
{
    ApiInfo { name: "my-api".to_owned(), version: "0.1.0".to_owned() }
}

/// Serves the listing route: the two known records, with the count equal to
/// the number of listed users.
pub fn list_users() -> (r: UserList)
    ensures
        r@.users == known_users(),
        r@.users.len() == 2,
        r@.total == 2,
        r.consistent(),
{
    let mut users: Vec<User> = Vec::new();
    users.push(make_alice());
    users.push(make_bob());
    let list = UserList { users, total: 2 };
    proof {
        assert(list@.users =~= known_users());
    }
    list
}

/// Serves the lookup route: the known record for the identifier, or a
/// not-found error with the message `"User not found"` for any other
/// identifier.
pub fn get_user(id: &str) -> (r: Result<User, ApiError>)
    ensures
        match r {
            Ok(u) => spec_lookup(id@) == Some(u@),
            Err(e) => spec_lookup(id@) is None && e.spec_message() == "User not found"@,
        },
{
    proof {
        reveal_strlit("1");
        reveal_strlit("2");
    }
    if str_eq(id, "1") {
        Ok(make_alice())
    } else if str_eq(id, "2") {
        Ok(make_bob())
    } else {
        Err(ApiError::NotFound { message: "User not found".to_owned() })
    }
}

/// Serves the creation route: assembles a record whose name and email echo
/// the payload and whose identifier is the version-4 UUID formatted from the
/// given sixteen bytes of fresh entropy. Nothing is stored.
pub fn create_user(body: CreateUser, entropy: &[u8; 16]) -> (r: User)
    ensures
        r@ == (UserView { id: spec_uuid_v4(entropy@), name: body.name@, email: body.email@ }),
{
    let id = uuid_v4(entropy);
    User { id, name: body.name, email: body.email }
}

} // verus!
