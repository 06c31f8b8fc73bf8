use vstd::prelude::*;

verus! {

/// The reason a text is not a JSON document.
#[verifier::external_type_specification]
#[verifier::external_body]
pub struct ExError(serde_json::Error);

/// What a text reads as: `None` when it is not a JSON document; otherwise
/// the document's field `key` when that field is a string.
pub uninterp spec fn string_field_of(text: Seq<char>, key: Seq<char>) -> Option<Option<Seq<char>>>;

pub open spec fn opt_text(o: Option<String>) -> Option<Seq<char>> {
    match o {
        Some(s) => Some(s@),
        None => None,
    }
}

/// Relies on `serde_json::from_str::<serde_json::Value>` to parse the text,
/// and on `Value::get` with `Value::as_str` to read the field `key` as a
/// string; all three depend on their arguments alone.
#[verifier::external_body]
pub(crate) fn read_string_field(text: &str, key: &str) -> (r: Result<Option<String>, serde_json::Error>)
    ensures
        r is Ok <==> string_field_of(text@, key@) is Some,
        r matches Ok(f) ==> string_field_of(text@, key@) == Some(opt_text(f)),
{
    let doc = serde_json::from_str::<serde_json::Value>(text)?;
    Ok(doc.get(key).and_then(serde_json::Value::as_str).map(String::from))
}

} // verus!
