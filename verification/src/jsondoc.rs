use vstd::prelude::*;

verus! {

/// The text of the field named `key` at the top level of the JSON document
/// `doc`, when `doc` parses as JSON, its top level indexes by `key`, and
/// the field holds a string; absent otherwise. The result depends on the
/// document and key text alone.
pub uninterp spec fn json_text_field(doc: Seq<char>, key: Seq<char>) -> Option<Seq<char>>;

/// Relies on serde_json::from_str, serde_json::Value::get and
/// serde_json::Value::as_str: parses the document and extracts the text of
/// the named top-level string field, if all three steps succeed.
#[verifier::external_body]
pub fn get_json_text_field(doc: &str, key: &str) -> (r: Option<String>)
    ensures
        r is Some <==> json_text_field(doc@, key@) is Some,
        r is Some ==> r->0@ == json_text_field(doc@, key@)->0,
{
    let value: serde_json::Value = match serde_json::from_str(doc) {
        Ok(v) => v,
        Err(_) => return None,
    };
    let field: &serde_json::Value = match value.get(key) {
        Some(f) => f,
        None => return None,
    };
    match field.as_str() {
        Some(s) => Some(s.to_string()),
        None => None,
    }
}

} // verus!
