//! The HTTP face of the resolver.
//!
//! One place maps each resolver outcome to its status code, and one place
//! says which permissive cross-origin headers every response carries and how
//! a preflight request is answered.  The transport itself lives outside the
//! library and hands plain values in.

use vstd::prelude::*;

use crate::resolver::Response;

verus! {

/// The status code of each resolver outcome: confirmed answers 204,
/// not-found 404, and unexpected-error 500.
pub open spec fn spec_status(r: Response) -> u16 {
    match r {
        Response::Confirmed(_) => 204,
        Response::NotFound(_) => 404,
        Response::Unexpected(_) => 500,
    }
}

/// The status code the endpoint answers a confirmation request with.
pub fn status_of_response(r: &Response) -> (code: u16)
    ensures
        code == spec_status(*r),
{
    match r {
        Response::Confirmed(_) => 204,
        Response::NotFound(_) => 404,
        Response::Unexpected(_) => 500,
    }
}

/// The permissive cross-origin headers set on every response: any origin,
/// the two methods of the endpoint, any header, and credentials allowed.
pub fn cors_headers() -> (hs: Vec<(String, String)>)
    ensures
        hs@.len() == 4,
        hs@[0].0@ == "Access-Control-Allow-Origin"@ && hs@[0].1@ == "*"@,
        hs@[1].0@ == "Access-Control-Allow-Methods"@ && hs@[1].1@ == "POST, OPTIONS"@,
        hs@[2].0@ == "Access-Control-Allow-Headers"@ && hs@[2].1@ == "*"@,
        hs@[3].0@ == "Access-Control-Allow-Credentials"@ && hs@[3].1@ == "true"@,
{
    let mut hs: Vec<(String, String)> = Vec::new();
    hs.push(("Access-Control-Allow-Origin".to_owned(), "*".to_owned()));
    hs.push(("Access-Control-Allow-Methods".to_owned(), "POST, OPTIONS".to_owned()));
    hs.push(("Access-Control-Allow-Headers".to_owned(), "*".to_owned()));
    hs.push(("Access-Control-Allow-Credentials".to_owned(), "true".to_owned()));
    hs
}

/// A preflight request is answered 200; any other response keeps the status
/// its outcome gave it.
pub fn preflight_status(is_preflight: bool, status: u16) -> (s: u16)
    ensures
        is_preflight ==> s == 200,
        !is_preflight ==> s == status,
{
    if is_preflight {
        200
    } else {
        status
    }
}

} // verus!
