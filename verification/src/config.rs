//! Per-run client configuration rules.
//!
//! The one verified decision here: a secure-transport base URI demands a
//! client certificate before any processing begins.

use vstd::prelude::*;

use crate::strings::str_eq;

verus! {

/// Whether the base URI's scheme selects secure transport and therefore
/// requires a client certificate.
pub fn requires_certificate(scheme: &str) -> (r: bool)
    ensures
        r == (scheme@ == "https"@),
{
    str_eq(scheme, "https")
}

} // verus!
