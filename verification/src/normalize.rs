//! Payload normalization: turning file content into the canonical JSON text
//! that is uploaded.
//!
//! The extension decides the treatment, case-insensitively:
//! - `json`: the content is parsed only to validate it; on success the
//!   content itself is returned verbatim, never re-encoded.
//! - `yaml` / `yml`: the content is parsed as YAML and re-serialized as JSON.
//! - anything else (or no extension): the payload is the empty string.

use vstd::prelude::*;

use crate::errors::Error;
use crate::strings::eq_ignore_ascii_case;
use crate::strings::lower_seq;

verus! {

/// Whether a string parses as JSON.
pub uninterp spec fn json_valid(s: Seq<char>) -> bool;

/// Whether a string parses as YAML and its parsed value re-serializes as
/// JSON.
pub uninterp spec fn yaml_to_json_ok(s: Seq<char>) -> bool;

/// Whether a string parses as YAML.
pub uninterp spec fn yaml_valid(s: Seq<char>) -> bool;

/// The JSON serialization of the YAML document a string holds.
pub uninterp spec fn yaml_as_json(s: Seq<char>) -> Seq<char>;

/// Relies on serde_json::from_str::<serde_json::Value>: whether a string is
/// syntactically valid JSON depends on the string alone.
#[verifier::external_body]
fn check_json(s: &str) -> (r: bool)
    ensures
        r == json_valid(s@),
{
    serde_json::from_str::<serde_json::Value>(s).is_ok()
}

/// Relies on serde_yaml::from_str::<serde_yaml::Value> and
/// serde_json::to_string: parsing a YAML document and re-serializing the
/// parsed value as JSON text both depend on the input string alone
/// (serde_yaml mappings keep their key order). Serialization fails only for
/// values JSON cannot carry, such as mappings with non-string keys.
#[verifier::external_body]
fn yaml_to_json(s: &str) -> (r: Result<String, Error>)
    ensures
        r is Ok <==> yaml_to_json_ok(s@),
        r matches Ok(p) ==> yaml_valid(s@) && p@ == yaml_as_json(s@),
        r matches Err(e) ==> e == (if yaml_valid(s@) {
            Error::PayloadSerialization
        } else {
            Error::PayloadParse
        }),
{
    match serde_yaml::from_str::<serde_yaml::Value>(s) {
        Ok(value) => match serde_json::to_string(&value) {
            Ok(text) => Ok(text),
            Err(_) => Err(Error::PayloadSerialization),
        },
        Err(_) => Err(Error::PayloadParse),
    }
}

/// The extension names JSON content.
pub open spec fn json_ext(e: Seq<char>) -> bool {
    lower_seq(e) == "json"@
}

/// The extension names YAML content.
pub open spec fn yaml_ext(e: Seq<char>) -> bool {
    lower_seq(e) == "yaml"@ || lower_seq(e) == "yml"@
}

/// Lowercasing the three recognized extension keywords leaves them
/// unchanged, and the keywords are pairwise distinct.
proof fn lemma_keywords_lower()
    ensures
        lower_seq("json"@) == "json"@,
        lower_seq("yaml"@) == "yaml"@,
        lower_seq("yml"@) == "yml"@,
        "json"@ != "yaml"@,
        "json"@ != "yml"@,
        "yaml"@ != "yml"@,
{
    reveal_strlit("json");
    reveal_strlit("yaml");
    reveal_strlit("yml");
    assert(lower_seq("json"@) =~= "json"@);
    assert(lower_seq("yaml"@) =~= "yaml"@);
    assert(lower_seq("yml"@) =~= "yml"@);
    assert("json"@[0] == 'j' && "yaml"@[0] == 'y');
    assert("json"@.len() == 4 && "yml"@.len() == 3 && "yaml"@.len() == 4);
}

/// The payload and error behavior of normalization, as a mathematical
/// function of the (lowercase-compared) extension and the content:
/// - `json`: the content itself if it is valid JSON, else a parse error;
/// - `yaml`/`yml`: the content's YAML document re-encoded as JSON if both
///   steps go through, else a parse or re-encoding error;
/// - anything else, or no extension: the empty payload, whatever the
///   content.
pub open spec fn payload_spec(ext: Option<Seq<char>>, content: Seq<char>) -> Result<
    Seq<char>,
    Error,
> {
    match ext {
        Some(e) => if json_ext(e) {
            if json_valid(content) {
                Ok(content)
            } else {
                Err(Error::PayloadParse)
            }
        } else if yaml_ext(e) {
            if yaml_to_json_ok(content) {
                Ok(yaml_as_json(content))
            } else if yaml_valid(content) {
                Err(Error::PayloadSerialization)
            } else {
                Err(Error::PayloadParse)
            }
        } else {
            Ok(Seq::empty())
        },
        None => Ok(Seq::empty()),
    }
}

/// The view of an optional extension.
pub open spec fn opt_view(ext: Option<&str>) -> Option<Seq<char>> {
    match ext {
        Some(e) => Some(e@),
        None => None,
    }
}

/// For JSON content, normalization is the identity: a valid JSON file's
/// payload is the file's content itself, never a re-encoding.
pub proof fn lemma_json_passthrough(ext: Seq<char>, content: Seq<char>)
    requires
        json_ext(ext),
        json_valid(content),
    ensures
        payload_spec(Some(ext), content) == Ok::<Seq<char>, Error>(content),
{
}

/// An unrecognized extension, or none at all, yields the empty payload,
/// whatever the content.
pub proof fn lemma_other_extension_empty(ext: Option<Seq<char>>, content: Seq<char>)
    requires
        match ext {
            Some(e) => !json_ext(e) && !yaml_ext(e),
            None => true,
        },
    ensures
        payload_spec(ext, content) == Ok::<Seq<char>, Error>(Seq::<char>::empty()),
{
}

/// Canonical JSON payload for one file's content, keyed by its extension:
/// exactly what `payload_spec` says, result and error alike.
pub fn normalize_payload(content: &str, ext: Option<&str>) -> (r: Result<String, Error>)
    ensures
        match r {
            Ok(p) => payload_spec(opt_view(ext), content@) == Ok::<Seq<char>, Error>(p@),
            Err(e) => payload_spec(opt_view(ext), content@) == Err::<Seq<char>, Error>(e),
        },
{
    proof {
        lemma_keywords_lower();
    }
    match ext {
        Some(e) => {
            if eq_ignore_ascii_case(e, "json") {
                proof {
                    assert(!yaml_ext(e@));
                }
                if check_json(content) {
                    Ok(String::from_str(content))
                } else {
                    Err(Error::PayloadParse)
                }
            } else if eq_ignore_ascii_case(e, "yaml") || eq_ignore_ascii_case(e, "yml") {
                yaml_to_json(content)
            } else {
                Ok(String::new())
            }
        },
        None => Ok(String::new()),
    }
}

} // verus!
