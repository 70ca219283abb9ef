//! Signed tokens: who a request comes from.
use vstd::prelude::*;

use crate::models::{Claims, User};
use crate::web::Rejection;

verus! {

/// Why a token did not decode, as far as the reader tells causes apart.
#[derive(Clone, Copy, Debug, PartialEq, Eq, Structural)]
pub enum JwtErrorKind {
    ExpiredSignature,
    InvalidToken,
    Other,
}

/// The status with which a request without a valid token is refused.
pub const UNAUTHORIZED: u16 = 401;

/// The claims of a token that decoded, or 401 where it expired or is not
/// a token. Other decoding failures stop the reader, so they must not occur.
pub fn decode_jwt(decoded: Result<Claims, JwtErrorKind>) -> (r: Result<Claims, u16>)
    requires
        decoded matches Err(k) ==> k != JwtErrorKind::Other,
    ensures
        decoded matches Ok(c) ==> (r matches Ok(d) && d == c),
        decoded is Err ==> r == Err::<Claims, u16>(UNAUTHORIZED),
{
    match decoded {
        Ok(jwt) => Ok(jwt),
        Err(_) => Err(UNAUTHORIZED),
    }
}

/// What a token for the user says: the user's name and id.
pub fn claims_for(user: &User) -> (r: Claims)
    ensures
        r.name@ == user.username@,
        r.id == user.id,
{
    Claims { name: user.username.clone(), id: user.id }
}

/// The answer to a login, given what `check_user` found: the user to issue
/// a token for, or a bad request.
pub fn authenticate(checked: Option<User>) -> (r: Result<User, Rejection>)
    ensures
        checked matches Some(u) ==> (r matches Ok(v) && v == u),
        checked is None ==> r == Err::<User, Rejection>(Rejection::BadRequest),
{
    match checked {
        Some(user) => Ok(user),
        None => Err(Rejection::BadRequest),
    }
}

} // verus!
