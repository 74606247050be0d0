//! The request headers that identify a caller to a vendor.
use vstd::prelude::*;

verus! {

/// The `Authorization` value of a bearer token (RFC 6750).
pub open spec fn bearer_value(api_key: Seq<char>) -> Seq<char> {
    "Bearer "@ + api_key
}

/// The `Authorization` value for `api_key`: `Bearer <api_key>`.
pub fn bearer_authorization(api_key: &str) -> (value: String)
    ensures
        value@ == bearer_value(api_key@),
{
    let mut value = "Bearer ".to_owned();
    value.append(api_key);
    value
}

} // verus!
