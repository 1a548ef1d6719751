//! The user record.

use vstd::prelude::*;
use vstd::string::StringExecFns;
use crate::token::new_token;

verus! {

/// An account: its login name, its credential and the session token that
/// its last login issued.
#[derive(Debug, Clone)]
pub struct User {
    pub id: String,
    pub username: String,
    pub password: String,
    pub token: String,
}

impl User {
    /// A new account with a fresh identifier and a fresh session token.
    pub fn new(username: &str, password: &str) -> (r: User)
        ensures
            r.username@ == username@,
            r.password@ == password@,
    {
        User {
            id: new_token(),
            username: String::from_str(username),
            password: String::from_str(password),
            token: new_token(),
        }
    }
}

} // verus!
