//! The reader's web interface: what it decides for each request.
use vstd::prelude::*;

use crate::models::Claims;

pub mod handlers;
pub mod jwt;
pub mod rest;
pub mod types;
pub mod ws;

verus! {

/// Why a request is turned away: not found (what a bare rejection means),
/// or a bad request.
#[derive(Clone, Copy, Debug, PartialEq, Eq, Structural)]
pub enum Rejection {
    NotFound,
    BadRequest,
}

/// The claims of a decoded token, or a rejection where it did not decode.
pub fn make_claim(decoded: Result<Claims, u16>) -> (r: Result<Claims, Rejection>)
    ensures
        decoded matches Ok(c) ==> (r matches Ok(d) && d == c),
        decoded is Err ==> r == Err::<Claims, Rejection>(Rejection::NotFound),
{
    match decoded {
        Ok(claim) => Ok(claim),
        Err(_) => Err(Rejection::NotFound),
    }
}

} // verus!
