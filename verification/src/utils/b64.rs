//! URL-safe base64 with padding.

use vstd::prelude::*;
use crate::utils::base_x::{base64_url, base64_url_decoded};

verus! {

/// Encodes bytes as URL-safe base64 with padding.
pub fn b64enc(x: &[u8]) -> (s: String)
    ensures
        s@ == base64_url(x@),
{
    crate::utils::base_x::b64enc(x)
}

/// Decodes URL-safe base64 with padding.
pub fn b64dec(input: &str) -> (r: Result<Vec<u8>, base64::DecodeError>)
    ensures
        r is Ok <==> base64_url_decoded(input@) is Some,
        r is Ok ==> base64_url_decoded(input@) == Some(r->Ok_0@),
{
    crate::utils::base_x::b64dec(input)
}

} // verus!
