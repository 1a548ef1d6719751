//! The user collection: logins and session tokens.

use vstd::prelude::*;
use crate::error::AppError;
use crate::houses::{find_user_named, first_named};
use crate::text::text_eq;
use crate::token::new_token;
use crate::user::User;

verus! {

/// `i` is the first user of `users` that holds session token `token`.
pub open spec fn first_with_token(users: Seq<User>, token: Seq<char>, i: int) -> bool {
    &&& 0 <= i < users.len()
    &&& users[i].token@ == token
    &&& forall|j: int| 0 <= j < i ==> (#[trigger] users[j]).token@ != token
}

/// `u` with its session token replaced by `token`.
pub open spec fn with_token(u: User, token: String) -> User {
    User { id: u.id, username: u.username, password: u.password, token }
}

/// Logs `username` in with `password`: the account's session token becomes
/// `token`. Fails with `UserNotFound` where no account has that name, and
/// with `PasswordError` where the password differs; the collection is then
/// unchanged.
pub fn login_with_token(users: &mut Vec<User>, username: &str, password: &str, token: String) -> (r:
    Result<(), AppError>)
    ensures
        (forall|j: int| 0 <= j < old(users)@.len() ==> (#[trigger] old(users)@[j]).username@ != username@)
            ==> r == Err::<(), AppError>(AppError::UserNotFound),
        forall|i: int|
            first_named(old(users)@, username@, i) ==> if old(users)@[i].password@ == password@ {
                &&& r == Ok::<(), AppError>(())
                &&& final(users)@ == old(users)@.update(i, with_token(old(users)@[i], token))
            } else {
                r == Err::<(), AppError>(AppError::PasswordError)
            },
        r is Err ==> final(users)@ == old(users)@,
{
    match find_user_named(users, username) {
        None => Err(AppError::UserNotFound),
        Some(i) => {
            proof {
                assert forall|k: int| first_named(old(users)@, username@, k) implies k == i by {
                    if k < i {
                        assert(old(users)@[k].username@ != username@);
                    } else if i < k {
                        assert(old(users)@[i as int].username@ != username@);
                    }
                }
            }
            if !text_eq(password, users[i].password.as_str()) {
                return Err(AppError::PasswordError);
            }
            let u = User {
                id: users[i].id.clone(),
                username: users[i].username.clone(),
                password: users[i].password.clone(),
                token,
            };
            users.set(i, u);
            Ok(())
        },
    }
}

/// Logs `username` in with `password` under a fresh session token, which
/// it returns. Fails as `login_with_token` does, leaving the collection
/// unchanged.
pub fn login(users: &mut Vec<User>, username: &str, password: &str) -> (r: Result<String, AppError>)
    ensures
        (forall|j: int| 0 <= j < old(users)@.len() ==> (#[trigger] old(users)@[j]).username@ != username@)
            ==> r == Err::<String, AppError>(AppError::UserNotFound),
        forall|i: int|
            first_named(old(users)@, username@, i) ==> if old(users)@[i].password@ == password@ {
                &&& r is Ok
                &&& final(users)@ == old(users)@.update(i, with_token(old(users)@[i], r->Ok_0))
            } else {
                r == Err::<String, AppError>(AppError::PasswordError)
            },
        r is Err ==> final(users)@ == old(users)@,
{
    let token = new_token();
    match login_with_token(users, username, password, token.clone()) {
        Ok(()) => Ok(token),
        Err(e) => Err(e),
    }
}

/// The account that a request's session token belongs to. Fails with
/// `AuthenticationRequired` where the request has no token, where the
/// collection could not be read, or where no account holds the token.
pub fn authenticate(token: Option<String>, users: Result<Vec<User>, AppError>) -> (r: Result<
    User,
    AppError,
>)
    ensures
        token is None ==> r == Err::<User, AppError>(AppError::AuthenticationRequired),
        users is Err ==> r == Err::<User, AppError>(AppError::AuthenticationRequired),
        token matches Some(t) ==> users matches Ok(us) ==> {
            &&& (forall|j: int| 0 <= j < us@.len() ==> (#[trigger] us@[j]).token@ != t@) ==> r
                == Err::<User, AppError>(AppError::AuthenticationRequired)
            &&& forall|i: int| first_with_token(us@, t@, i) ==> r == Ok::<User, AppError>(us@[i])
        },
{
    match token {
        None => Err(AppError::AuthenticationRequired),
        Some(t) => match users {
            Err(_) => Err(AppError::AuthenticationRequired),
            Ok(us) => match find_token(&us, t.as_str()) {
                None => Err(AppError::AuthenticationRequired),
                Some(i) => {
                    let ghost all = us@;
                    proof {
                        assert forall|k: int| first_with_token(all, t@, k) implies k == i by {
                            if k < i {
                                assert(all[k].token@ != t@);
                            } else if i < k {
                                assert(all[i as int].token@ != t@);
                            }
                        }
                    }
                    let mut us = us;
                    Ok(us.remove(i))
                },
            },
        },
    }
}

/// The first user that holds session token `token`, if any.
pub fn find_token(users: &Vec<User>, token: &str) -> (r: Option<usize>)
    ensures
        match r {
            Some(i) => first_with_token(users@, token@, i as int),
            None => forall|j: int| 0 <= j < users@.len() ==> (#[trigger] users@[j]).token@ != token@,
        },
{
    let mut i: usize = 0;
    while i < users.len()
        invariant
            i <= users.len(),
            forall|j: int| 0 <= j < i ==> (#[trigger] users@[j]).token@ != token@,
        decreases users.len() - i,
    {
        if text_eq(users[i].token.as_str(), token) {
            return Some(i);
        }
        i = i + 1;
    }
    None
}

} // verus!
