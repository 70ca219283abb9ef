//! Account management over the websocket.
use vstd::prelude::*;

use crate::models::{password_text, Claims, User};
use crate::web::types::LoginParams;

verus! {

/// The id of the one user who may add others.
pub const ADMIN_ID: i32 = 1;

/// What adding a user stores, given the user the store already holds under
/// the login's name: refused (`Err`) unless the caller is the administrator
/// and the name is free; else the row to create, whose name is the login's
/// password (so the user logs in under that password as name) and whose
/// hash is `hash_pw` of that password.
pub fn add_user(login: &LoginParams, claims: &Claims, existing: Option<User>) -> (r: Result<
    (String, String),
    (),
>)
    ensures
        claims.id != ADMIN_ID ==> r is Err,
        existing is Some ==> r is Err,
        claims.id == ADMIN_ID && existing is None ==> (r matches Ok((name, hash)) && name@
            == login.password@ && hash@ == password_text(login.password@)),
{
    if claims.id != ADMIN_ID {
        return Err(());
    }
    match existing {
        None => {
            let pwh = User::hash_pw(login.password.as_str());
            Ok((login.password.clone(), pwh))
        },
        Some(_) => Err(()),
    }
}

/// Changing a password is accepted and changes nothing.
pub fn change_password(_un: &str, _pw: &str) -> (r: Result<(), ()>)
    ensures
        r is Ok,
{
    Ok(())
}

} // verus!
