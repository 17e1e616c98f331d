use vstd::prelude::*;

use crate::error::ServerError;
use crate::text::{chars_of, matches_at, occurs_at, str_eq, trim_start_all, trim_start_matches};

verus! {

/// The scheme that an authorization header must start with.
pub const BEARER: &'static str = "Bearer ";

/// The token that identifies the test caller without a signature check.
pub const TEST_TOKEN: &'static str = "APITEST";

/// The caller id given to the holder of `TEST_TOKEN`.
pub const TEST_CALLER: &'static str = "test";

/// The token carried by an authorization header, given its text (`None` when
/// the header is missing or is not text). A missing header is "no auth header";
/// one that does not start with `BEARER` is "invalid auth header"; otherwise
/// the token is the header with every leading `BEARER` removed.
pub fn jwt_from_header(header: Option<&str>) -> (r: Result<String, ServerError>)
    ensures
        match header {
            None => r matches Err(e) && e.reason@ == "no auth header"@,
            Some(h) => if occurs_at(h@, BEARER@, 0) {
                r matches Ok(t) && t@ == trim_start_all(h@, BEARER@)
            } else {
                r matches Err(e) && e.reason@ == "invalid auth header"@
            },
        },
{
    match header {
        None => Err(ServerError::new("no auth header")),
        Some(h) => {
            let hs = chars_of(h);
            let bearer = chars_of(BEARER);
            if !matches_at(&hs, &bearer, 0) {
                return Err(ServerError::new("invalid auth header"));
            }
            Ok(trim_start_matches(h, BEARER))
        },
    }
}

/// The caller id of the test token, which skips the signature check; `None`
/// for any other token.
pub fn test_caller(jwt: &str) -> (r: Option<String>)
    ensures
        jwt@ == TEST_TOKEN@ ==> (r matches Some(c) && c@ == TEST_CALLER@),
        jwt@ != TEST_TOKEN@ ==> r is None,
{
    if str_eq(jwt, TEST_TOKEN) {
        Some(TEST_CALLER.to_owned())
    } else {
        None
    }
}

} // verus!
