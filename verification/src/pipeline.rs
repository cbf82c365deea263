//! The per-file pipeline: from a discovered path and its content to the one
//! upload the file causes — target URL and JSON payload.
//!
//! Failures come in the order the stages run: first the path-to-key
//! relation, then normalization of the content, then URL construction.

use vstd::prelude::*;

use crate::errors::Error;
use crate::normalize::normalize_payload;
use crate::normalize::opt_view;
use crate::normalize::payload_spec;
use crate::paths::ext_dot_at;
use crate::paths::ext_of;
use crate::paths::extension_of;
use crate::paths::is_last_slash;
use crate::paths::key_of;
use crate::paths::key_spec;
use crate::paths::last_slash_of;
use crate::paths::lemma_ext_dot_unique;
use crate::paths::lemma_last_slash_unique;
use crate::paths::name_starts_at;
use crate::paths::secret_key_for;
use crate::paths::strip_spec;
use crate::target::api_path_spec;
use crate::target::url_join_ok;
use crate::target::url_joined;
use crate::target::vault_url;

verus! {

/// One planned upload: where the secret goes and what its body is.
pub struct PlannedUpload {
    /// The full URL the payload is POSTed to.
    pub target_url: String,
    /// The canonical JSON body.
    pub payload: String,
}

/// Plans the upload a single discovered file causes.
///
/// On success, the payload is exactly what `payload_spec` assigns to the
/// file's extension and content, and the target URL is the key's API path
/// resolved against the base URI. On failure, the error names the first
/// stage that failed: `Error::PathRelation` when the path yields no secret
/// key, then the normalization errors, then `Error::UriConstruction`.
pub fn plan_upload(base: &str, root: &str, path: &str, content: &str) -> (r: Result<
    PlannedUpload,
    Error,
>)
    ensures
        match r {
            Ok(u) => {
                &&& key_spec(path@, root@) is Some
                &&& payload_spec(ext_of(path@), content@) == Ok::<Seq<char>, Error>(u.payload@)
                &&& url_join_ok(base@, api_path_spec(key_spec(path@, root@).unwrap()))
                &&& u.target_url@ == url_joined(
                    base@,
                    api_path_spec(key_spec(path@, root@).unwrap()),
                )
            },
            Err(e) => {
                if key_spec(path@, root@) is None {
                    e == Error::PathRelation
                } else if payload_spec(ext_of(path@), content@) is Err {
                    payload_spec(ext_of(path@), content@) == Err::<Seq<char>, Error>(e)
                } else {
                    e == Error::UriConstruction && !url_join_ok(
                        base@,
                        api_path_spec(key_spec(path@, root@).unwrap()),
                    )
                }
            },
        },
{
    let key = match secret_key_for(path, root) {
        Ok(key) => {
            proof {
                let rel = strip_spec(path@, root@).unwrap();
                let i = choose|i: int| is_last_slash(rel, i) && key@ == rel.subrange(0, i);
                assert(is_last_slash(rel, i));
                assert(key_of(rel) is Some);
                lemma_last_slash_unique(rel, i, last_slash_of(rel));
                assert(key_spec(path@, root@) == Some(key@));
            }
            key
        },
        Err(e) => {
            proof {
                if strip_spec(path@, root@) is Some {
                    let rel = strip_spec(path@, root@).unwrap();
                    assert forall|i: int| !is_last_slash(rel, i) by {
                        if is_last_slash(rel, i) {
                            assert(0 <= i < rel.len() && rel[i] == '/');
                        }
                    }
                }
            }
            return Err(e);
        },
    };
    let ext = extension_of(path);
    proof {
        match &ext {
            Some(e) => {
                let (f, d) = choose|f: int, d: int|
                    name_starts_at(path@, f) && ext_dot_at(path@, f, d) && e@ == path@.subrange(
                        d + 1,
                        path@.len() as int,
                    );
                let (f2, d2) = choose|f2: int, d2: int|
                    name_starts_at(path@, f2) && ext_dot_at(path@, f2, d2);
                lemma_ext_dot_unique(path@, f, d, f2, d2);
                assert(ext_of(path@) == Some(e@));
            },
            None => {
                assert(ext_of(path@) is None);
            },
        }
    }
    let ext_ref: Option<&str> = match &ext {
        Some(e) => Some(e.as_str()),
        None => None,
    };
    proof {
        assert(opt_view(ext_ref) == ext_of(path@));
    }
    let payload = match normalize_payload(content, ext_ref) {
        Ok(p) => p,
        Err(e) => {
            return Err(e);
        },
    };
    match vault_url(base, key.as_str()) {
        Ok(target_url) => Ok(PlannedUpload { target_url, payload }),
        Err(e) => Err(e),
    }
}

} // verus!
