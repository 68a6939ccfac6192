use vstd::prelude::*;

verus! {

/// An account, as a record of its sign-in state and contact details.
pub struct User {
    pub active: bool,
    pub username: String,
    pub email: String,
    pub sign_in_count: u64,
}

/// An RGB colour, one component per channel.
pub struct Color(pub i32, pub i32, pub i32);

/// A point in three-dimensional space.
pub struct Point(pub i32, pub i32, pub i32);

/// Builds an active user with the given contact details and a
/// sign-in count of one.
pub fn build_user(email: String, username: String) -> (r: User)
    ensures
        r.email == email,
        r.username == username,
        r.active == true,
        r.sign_in_count == 1,
{
    User { email, username, active: true, sign_in_count: 1 }
}

} // verus!
