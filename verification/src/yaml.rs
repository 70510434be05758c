//! Reading YAML text.

use vstd::prelude::*;
use serde_json::Value;

verus! {

/// `serde_yaml::Error`, the error of reading YAML. Nothing is claimed of
/// what it holds: it is only told apart from success.
#[verifier::external_type_specification]
#[verifier::external_body]
pub struct ExYamlError(serde_yaml::Error);

/// The compact JSON text of the one document that `serde_yaml` reads from
/// a YAML text; `None` for a text that it refuses.
pub uninterp spec fn yaml_as_json(text: Seq<char>) -> Option<Seq<char>>;

/// Calls `serde_yaml::from_str` for a `serde_json::Value` and hands the
/// value out as the compact JSON text that `Display` writes for it. The
/// contract claims only that the same text always gives the same answer,
/// JSON text or error.
#[verifier::external_body]
fn yaml_to_json(text: &str) -> (r: Result<String, serde_yaml::Error>)
    ensures
        match r {
            Ok(json) => yaml_as_json(text@) == Some(json@),
            Err(_) => yaml_as_json(text@) is None,
        },
{
    Ok(serde_yaml::from_str::<Value>(text)?.to_string())
}

/// Reads a YAML document and writes it as JSON text. `None` where the
/// text is no YAML document that JSON can hold.
pub fn to_json(text: &str) -> (r: Option<String>)
    ensures
        match r {
            Some(json) => yaml_as_json(text@) == Some(json@),
            None => yaml_as_json(text@) is None,
        },
{
    match yaml_to_json(text) {
        Ok(json) => Some(json),
        Err(_) => None,
    }
}

} // verus!
