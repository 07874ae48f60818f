use vstd::prelude::*;

verus! {

/// The closed set of roles. No order or hierarchy is implied.
#[derive(Debug, Clone, Copy, PartialEq, Eq, Structural)]
pub enum UserRole {
    Admin,
    Moderator,
    User,
}

impl UserRole {
    /// The lowercase name of the role.
    pub open spec fn name(self) -> Seq<char> {
        match self {
            UserRole::Admin => "admin"@,
            UserRole::Moderator => "moderator"@,
            UserRole::User => "user"@,
        }
    }

    pub fn to_str(&self) -> (r: &'static str)
        ensures
            r@ == self.name(),
    {
        match self {
            UserRole::Admin => "admin",
            UserRole::Moderator => "moderator",
            UserRole::User => "user",
        }
    }
}

/// An identity as the user directory records it. The id is the 128-bit value
/// of its UUID; the two instants are microseconds since the Unix epoch.
#[derive(Debug, Clone)]
pub struct User {
    pub id: u128,
    pub name: String,
    pub email: String,
    pub role: UserRole,
    pub photo: String,
    pub verified: bool,
    pub password: String,
    pub created_at: Option<i64>,
    pub updated_at: Option<i64>,
}

} // verus!
