//! Target URL construction: the secret key is appended to the store's base
//! URI under the fixed API prefix `/v1/`.

use vstd::prelude::*;

use crate::errors::Error;

verus! {

/// Whether `reference` resolves against the URL `base`.
pub uninterp spec fn url_join_ok(base: Seq<char>, reference: Seq<char>) -> bool;

/// The text of the URL that `reference` resolves to against the URL `base`.
pub uninterp spec fn url_joined(base: Seq<char>, reference: Seq<char>) -> Seq<char>;

/// Relies on url::Url::parse and url::Url::join: parsing the base URL text
/// and resolving a reference against it depend on the two strings alone.
#[verifier::external_body]
fn resolve_reference(base: &str, reference: &str) -> (r: Option<String>)
    ensures
        r is Some <==> url_join_ok(base@, reference@),
        r matches Some(u) ==> u@ == url_joined(base@, reference@),
{
    let parsed = match url::Url::parse(base) {
        Ok(b) => b,
        Err(_) => return None,
    };
    match parsed.join(reference) {
        Ok(joined) => Some(String::from(joined)),
        Err(_) => None,
    }
}

/// The root-absolute API path for a secret key: the fixed prefix `/v1/`
/// followed by the key.
pub open spec fn api_path_spec(key: Seq<char>) -> Seq<char> {
    "/v1/"@ + key
}

/// The root-absolute API path for a secret key.
pub fn api_path(key: &str) -> (r: String)
    ensures
        r@ == api_path_spec(key@),
{
    String::from_str("/v1/").concat(key)
}

/// The full upload URL for one secret: the API path of `key` resolved
/// against the base URI.
///
/// Fails with `Error::UriConstruction` exactly when the base URI does not
/// parse or the key cannot be appended to it.
pub fn vault_url(base: &str, key: &str) -> (r: Result<String, Error>)
    ensures
        match r {
            Ok(u) => url_join_ok(base@, api_path_spec(key@)) && u@ == url_joined(
                base@,
                api_path_spec(key@),
            ),
            Err(e) => e == Error::UriConstruction && !url_join_ok(base@, api_path_spec(key@)),
        },
{
    let path = api_path(key);
    match resolve_reference(base, path.as_str()) {
        Some(u) => Ok(u),
        None => Err(Error::UriConstruction),
    }
}

} // verus!
