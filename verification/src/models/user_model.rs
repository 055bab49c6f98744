use vstd::prelude::*;

verus! {

/// The role of a user account.
#[derive(Clone, Copy, Debug, PartialEq, Eq, Structural)]
pub enum UserRole {
    Admin,
    Creator,
    User,
}

/// A stored user account; the id is its text form.
#[derive(Clone, Debug)]
pub struct UserModel {
    pub id: String,
    pub name: String,
    pub email: String,
    pub password: String,
    pub photo: String,
    pub verified: bool,
    pub verification_code: String,
    pub role: UserRole,
}

} // verus!
