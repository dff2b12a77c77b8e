use vstd::prelude::*;

verus! {

/// Whether a text is well-formed JSON, as serde_json's parser decides it;
/// parsing depends on the text alone.
pub uninterp spec fn json_text_ok(s: Seq<char>) -> bool;

/// The value serde_json's parser reads off a text it accepts; a function of
/// the text alone. Meaningful only where json_text_ok holds of the text.
pub uninterp spec fn json_parse_of(s: Seq<char>) -> serde_json::Value;

/// The pretty-printed JSON text of a value, as serde_json's serializer
/// produces it; a function of the value alone.
pub uninterp spec fn json_pretty_of(v: serde_json::Value) -> Seq<char>;

/// The default catalog value, an object whose only member is "files", an
/// empty array. The argument is immaterial; it only gives the name a
/// parameter.
pub uninterp spec fn default_catalog_value(u: int) -> serde_json::Value;

#[verifier::external_type_specification]
#[verifier::external_body]
pub struct ExJsonValue(serde_json::Value);

#[verifier::external_type_specification]
#[verifier::external_body]
pub struct ExJsonError(serde_json::Error);

/// Relies on serde_json::from_str: it returns Ok exactly on the texts its
/// parser accepts, and both the verdict and the parsed value depend on the
/// text alone.
#[verifier::external_body]
fn json_from_str(s: &str) -> (r: Result<serde_json::Value, serde_json::Error>)
    ensures
        r is Ok <==> json_text_ok(s@),
        r matches Ok(v) ==> v == json_parse_of(s@),
{
    serde_json::from_str(s)
}

/// Relies on serde_json::to_string_pretty: serializing a Value cannot fail
/// (object keys are strings, its numbers are finite, the writer is a Vec),
/// and the text depends on the value alone.
#[verifier::external_body]
fn json_to_pretty(v: &serde_json::Value) -> (r: Result<String, serde_json::Error>)
    ensures
        r is Ok,
        r matches Ok(t) ==> t@ == json_pretty_of(*v),
{
    serde_json::to_string_pretty(v)
}

/// Relies on serde_json::Error's Display impl for the human-readable parse
/// diagnostic.
#[verifier::external_body]
fn json_error_text(e: &serde_json::Error) -> String {
    e.to_string()
}

/// Relies on serde_json::Value's constructors: builds the default catalog,
/// a JSON object whose only member is "files", an empty array; its result
/// is the one value default_catalog_value stands for.
#[verifier::external_body]
fn default_catalog() -> (r: serde_json::Value)
    ensures
        r == default_catalog_value(0),
{
    let mut members = serde_json::Map::new();
    members.insert(String::from("files"), serde_json::Value::Array(Vec::new()));
    serde_json::Value::Object(members)
}

/// When a catalog load is owed success: always when the catalog file is
/// absent (the default catalog stands in), and on present content exactly
/// when the content is well-formed JSON.
pub open spec fn catalog_load_ok(content: Option<Seq<char>>) -> bool {
    match content {
        Option::None => true,
        Option::Some(s) => json_text_ok(s),
    }
}

/// The view of an optional catalog text.
pub open spec fn content_view(content: Option<String>) -> Option<Seq<char>> {
    match content {
        Option::None => Option::None,
        Option::Some(s) => Option::Some(s@),
    }
}

/// The catalog load decision on what was read from the catalog file:
/// absent content yields the default catalog rather than an error, present
/// content must parse and a malformed text is a hard failure carrying the
/// parse diagnostic.
pub fn load_catalog(content: Option<String>) -> (r: Result<serde_json::Value, String>)
    ensures
        r is Ok <==> catalog_load_ok(content_view(content)),
        content is None ==> (r matches Ok(v) && v == default_catalog_value(0)),
        content matches Some(t) ==> (r matches Ok(v) ==> v == json_parse_of(t@)),
{
    match content {
        None => Ok(default_catalog()),
        Some(text) => match json_from_str(text.as_str()) {
            Ok(v) => Ok(v),
            Err(e) => Err(json_error_text(&e)),
        },
    }
}

/// The catalog text a save writes out: exactly the value's pretty-printed
/// JSON form. Any text handed out is checked against the parser first, so
/// a saved catalog is never one that a later load would refuse; a value
/// whose serialized form would not load back is rejected with the
/// diagnostic.
pub fn catalog_text(value: &serde_json::Value) -> (r: Result<String, String>)
    ensures
        r is Ok <==> json_text_ok(json_pretty_of(*value)),
        r matches Ok(t) ==> t@ == json_pretty_of(*value) && json_text_ok(t@),
{
    let text = match json_to_pretty(value) {
        Ok(t) => t,
        Err(e) => {
            return Err(json_error_text(&e));
        },
    };
    match json_from_str(text.as_str()) {
        Ok(_) => Ok(text),
        Err(e) => Err(json_error_text(&e)),
    }
}

/// A catalog text produced by a successful save always loads back: a save
/// only ever writes well-formed JSON, and a load is owed success on exactly
/// such content.
pub proof fn lemma_saved_catalog_loads(text: Seq<char>)
    requires
        json_text_ok(text),
    ensures
        catalog_load_ok(Some(text)),
{
}

} // verus!
