//! User accounts and a few tuple and unit structs.
use vstd::prelude::*;

verus! {

pub struct User {
    pub active: bool,
    pub username: String,
    pub email: String,
    pub sign_in_count: u64,
}

/// A new, active user who has signed in once.
pub fn build_user(email: String, username: String) -> (r: User)
    ensures
        r.email == email,
        r.username == username,
        r.active,
        r.sign_in_count == 1,
{
    User { email, username, active: true, sign_in_count: 1 }
}

/// A copy of `user` with another email address.
pub fn with_email(user: User, email: String) -> (r: User)
    ensures
        r.email == email,
        r.username == user.username,
        r.active == user.active,
        r.sign_in_count == user.sign_in_count,
{
    User { email, ..user }
}

#[derive(PartialEq, Eq, Structural, Clone, Copy, Debug)]
pub struct Color(pub i32, pub i32, pub i32);

#[derive(PartialEq, Eq, Structural, Clone, Copy, Debug)]
pub struct Point(pub i32, pub i32, pub i32);

#[derive(PartialEq, Eq, Structural, Clone, Copy, Debug)]
pub struct AlwaysEqual;

/// Black, and the origin.
pub fn tuple_structs() -> (r: (Color, Point))
    ensures
        r.0 == Color(0, 0, 0),
        r.1 == Point(0, 0, 0),
{
    let black = Color(0, 0, 0);
    let origin = Point(0, 0, 0);
    (black, origin)
}

/// The one value of a struct without fields.
pub fn unit_like_structs() -> (r: AlwaysEqual)
    ensures
        r == AlwaysEqual,
{
    AlwaysEqual
}

} // verus!
