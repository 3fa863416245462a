//! Manifest envelopes.
//!
//! Every manifest this library reads is an envelope `{ load_type_id,
//! actual_value }`: a declared type identifier and an opaque payload
//! whose shape only the matching factory knows.  This module parses
//! envelope text (through `serde_json`) and checks declared type
//! identifiers; reading files is the host's business.

use vstd::prelude::*;

verus! {

/// A JSON value, carried through this library as an opaque payload.
#[verifier::external_type_specification]
#[verifier::external_body]
pub struct ExValue(serde_json::Value);

/// The error `serde_json` reports for text that is not valid JSON.
#[verifier::external_type_specification]
#[verifier::external_body]
pub struct ExJsonError(serde_json::Error);

/// What `serde_json` parses this text into: the value for valid JSON,
/// nothing otherwise.  A function of the text alone.
pub uninterp spec fn json_of(s: Seq<char>) -> Option<serde_json::Value>;

/// The field this key selects in the value, when the value is a map
/// holding it.  A function of value and key alone.
pub uninterp spec fn field_of(v: serde_json::Value, key: Seq<char>) -> Option<serde_json::Value>;

/// The characters a JSON string value holds; nothing when the value is
/// not a string.  A function of the value alone.
pub uninterp spec fn string_of(v: serde_json::Value) -> Option<Seq<char>>;

/// The elements of a JSON array value, in order; nothing when the value
/// is not an array.  A function of the value alone.
pub uninterp spec fn array_of(v: serde_json::Value) -> Option<Seq<serde_json::Value>>;

/// The entries of a JSON object value, in the object's own order;
/// nothing when the value is not an object.  A function of the value
/// alone.
pub uninterp spec fn object_entries_of(v: serde_json::Value) -> Option<
    Seq<(String, serde_json::Value)>,
>;

/// Whether `serde_json` parses this text as JSON.
pub open spec fn json_text_parses(s: Seq<char>) -> bool {
    json_of(s) is Some
}

/// Relies on serde_json::from_str::<Value>: the result depends on the
/// text alone, and parsing fails exactly where no value exists for the
/// text.
#[verifier::external_body]
pub(crate) fn parse_value(text: &str) -> (r: Result<serde_json::Value, serde_json::Error>)
    ensures
        match r {
            Result::Ok(v) => json_of(text@) == Option::Some(v),
            Result::Err(_) => json_of(text@) is None,
        },
{
    serde_json::from_str::<serde_json::Value>(text)
}

/// Relies on serde_json::Value::get with a string index: the field the
/// key selects, Some exactly when the value is a map holding the key.
#[verifier::external_body]
pub(crate) fn value_get_field<'a>(value: &'a serde_json::Value, key: &str) -> (r: Option<
    &'a serde_json::Value,
>)
    ensures
        match r {
            Option::Some(f) => field_of(*value, key@) == Option::Some(*f),
            Option::None => field_of(*value, key@) is None,
        },
{
    value.get(key)
}

/// Relies on serde_json::Value::as_str: the held characters, Some
/// exactly when the value is a JSON string.
#[verifier::external_body]
pub(crate) fn value_as_str<'a>(value: &'a serde_json::Value) -> (r: Option<&'a str>)
    ensures
        match r {
            Option::Some(s) => string_of(*value) == Option::Some(s@),
            Option::None => string_of(*value) is None,
        },
{
    value.as_str()
}

/// Relies on serde_json::Value::as_array: the elements in order, Some
/// exactly when the value is a JSON array.
#[verifier::external_body]
pub(crate) fn value_as_array<'a>(value: &'a serde_json::Value) -> (r: Option<
    &'a Vec<serde_json::Value>,
>)
    ensures
        match r {
            Option::Some(a) => array_of(*value) == Option::Some(a@),
            Option::None => array_of(*value) is None,
        },
{
    value.as_array()
}

/// Relies on serde_json::Value::as_object and the map's iterator: the
/// entries as owned pairs, in the map's own key order, Some exactly
/// when the value is a JSON object.
#[verifier::external_body]
pub(crate) fn value_object_entries(value: &serde_json::Value) -> (r: Option<
    Vec<(String, serde_json::Value)>,
>)
    ensures
        match r {
            Option::Some(entries) => object_entries_of(*value) == Option::Some(entries@),
            Option::None => object_entries_of(*value) is None,
        },
{
    match value.as_object() {
        Option::Some(map) => Option::Some(
            map.iter().map(|(k, v)| (k.clone(), v.clone())).collect(),
        ),
        Option::None => Option::None,
    }
}

/// Relies on serde_json::Value::clone: a deep copy, equal to the
/// original value.
#[verifier::external_body]
pub(crate) fn clone_value(value: &serde_json::Value) -> (r: serde_json::Value)
    ensures
        r == *value,
{
    value.clone()
}

/// An I/O failure reported by the host's file reader.
#[derive(Debug)]
pub struct ReadFault {
    /// What the host reported, rendered as text.
    pub message: String,
}

/// What can go wrong turning manifest text into an envelope, or
/// checking it against an expected type identifier.
#[derive(Debug)]
#[allow(inconsistent_fields)]
pub enum LoadError {
    /// The host could not read the file at this path.
    ReadError {
        /// The path that could not be read.
        path: String,
        /// What the host reported.
        source: ReadFault,
    },
    /// The text is not valid JSON.
    ValueConversionError {
        /// The offending text.
        string_value: String,
        /// What `serde_json` reported.
        source: serde_json::Error,
    },
    /// The JSON is valid but is not an envelope: it lacks a string
    /// `load_type_id` or an `actual_value`.
    JSONLoadConversionError {
        /// The value that is not an envelope.
        value: serde_json::Value,
    },
    /// The envelope declares a different type identifier than the one
    /// expected here.
    LoadIDError {
        /// The identifier the envelope declares.
        actual: String,
        /// The identifier that was expected.
        expected: String,
    },
    /// The envelope's payload does not have the shape this use asks of
    /// it.
    DeserializationError {
        /// The payload with the wrong shape.
        value: serde_json::Value,
    },
}

/// An envelope: a declared type identifier and the payload it wraps.
/// The payload's shape is the business of whatever the identifier
/// selects.
#[derive(Debug)]
pub struct JSONLoad {
    /// Which loader the payload is meant for.
    pub load_type_id: String,
    /// The payload, opaque to this library.
    pub actual_value: serde_json::Value,
}

/// The type identifier a JSON value declares as an envelope: the
/// characters of its string `load_type_id` field, if it has one.
pub open spec fn envelope_id_of(v: serde_json::Value) -> Option<Seq<char>> {
    match field_of(v, "load_type_id"@) {
        Option::Some(f) => string_of(f),
        Option::None => Option::None,
    }
}

/// Whether a JSON value has an envelope's two-field shape: a string
/// `load_type_id` and an `actual_value`.
pub open spec fn envelope_shaped(v: serde_json::Value) -> bool {
    envelope_id_of(v) is Some && field_of(v, "actual_value"@) is Some
}

/// Parse envelope text.  Succeeds exactly on valid JSON of the
/// envelope's two-field shape, and the envelope then holds that JSON's
/// declared identifier and payload.  Text that is not valid JSON earns
/// a `ValueConversionError` holding that text; valid JSON of another
/// shape earns a `JSONLoadConversionError` holding the parsed value.
pub fn load_json_from_str(text: &str) -> (r: Result<JSONLoad, LoadError>)
    ensures
        r is Ok <==> (json_of(text@) matches Some(v) && envelope_shaped(v)),
        r matches Ok(j) ==> (json_of(text@) matches Some(v) && envelope_id_of(v) == Some(
            j.load_type_id@,
        ) && field_of(v, "actual_value"@) == Some(j.actual_value)),
        !json_text_parses(text@) ==> (r matches Err(e) && e matches
        LoadError::ValueConversionError { string_value, source } && string_value@ == text@),
        json_text_parses(text@) && r is Err ==> (r matches Err(e) && e matches
        LoadError::JSONLoadConversionError { value } && json_of(text@) == Some(value)
            && !envelope_shaped(value)),
{
    let value = match parse_value(text) {
        Result::Ok(v) => v,
        Result::Err(e) => {
            return Result::Err(
                LoadError::ValueConversionError { string_value: text.to_owned(), source: e },
            );
        },
    };
    let id_opt: Option<String> = match value_get_field(&value, "load_type_id") {
        Option::Some(field) => match value_as_str(field) {
            Option::Some(s) => Option::Some(s.to_owned()),
            Option::None => Option::None,
        },
        Option::None => Option::None,
    };
    let load_type_id = match id_opt {
        Option::Some(id) => id,
        Option::None => {
            return Result::Err(LoadError::JSONLoadConversionError { value });
        },
    };
    let actual_opt: Option<serde_json::Value> = match value_get_field(&value, "actual_value") {
        Option::Some(field) => Option::Some(clone_value(field)),
        Option::None => Option::None,
    };
    let actual_value = match actual_opt {
        Option::Some(payload) => payload,
        Option::None => {
            return Result::Err(LoadError::JSONLoadConversionError { value });
        },
    };
    Result::Ok(JSONLoad { load_type_id, actual_value })
}

/// Check an envelope's declared type identifier against the one
/// expected: success exactly when they are equal, and otherwise a
/// `LoadIDError` naming both.
pub fn check_load_id(json: &JSONLoad, load_id: &str) -> (r: Result<(), LoadError>)
    ensures
        r is Ok <==> json.load_type_id@ == load_id@,
        r matches Err(e) ==> (e matches LoadError::LoadIDError { actual, expected } && actual@
            == json.load_type_id@ && expected@ == load_id@),
{
    let expected = load_id.to_owned();
    if json.load_type_id == expected {
        Result::Ok(())
    } else {
        let actual = json.load_type_id.as_str().to_owned();
        Result::Err(LoadError::LoadIDError { actual, expected })
    }
}

/// Whether every element of a JSON array is a string.
pub open spec fn string_items(vs: Seq<serde_json::Value>) -> bool {
    forall|i: int| 0 <= i < vs.len() ==> (#[trigger] string_of(vs[i])) is Some
}

/// Whether a payload holds the named field as an array of strings.
pub open spec fn string_list_shaped(v: serde_json::Value, field: Seq<char>) -> bool {
    field_of(v, field) matches Some(f) && array_of(f) matches Some(vs) && string_items(vs)
}

/// Read an ordered list of strings out of a manifest's payload.
/// Succeeds exactly when the payload holds the named field as an array
/// of strings, and then returns those strings in the array's order; any
/// other shape earns a `DeserializationError` holding the payload.
pub fn string_list_from_value(value: &serde_json::Value, field_name: &str) -> (r: Result<
    Vec<String>,
    LoadError,
>)
    ensures
        r is Ok <==> string_list_shaped(*value, field_name@),
        r matches Ok(items) ==> (field_of(*value, field_name@) matches Some(f) && array_of(f)
            matches Some(vs) && items@.len() == vs.len() && (forall|i: int|
            0 <= i < vs.len() ==> string_of(vs[i]) == Some(#[trigger] items@[i]@))),
        r matches Err(e) ==> (e matches LoadError::DeserializationError { value: v } && v
            == *value),
{
    let field = match value_get_field(value, field_name) {
        Option::Some(f) => f,
        Option::None => {
            return Result::Err(LoadError::DeserializationError { value: clone_value(value) });
        },
    };
    let entries = match value_as_array(field) {
        Option::Some(a) => a,
        Option::None => {
            return Result::Err(LoadError::DeserializationError { value: clone_value(value) });
        },
    };
    let mut items: Vec<String> = Vec::new();
    let mut i: usize = 0;
    while i < entries.len()
        invariant
            field_of(*value, field_name@) == Option::Some(*field),
            array_of(*field) == Option::Some(entries@),
            i <= entries@.len(),
            items@.len() == i,
            forall|j: int|
                0 <= j < i ==> (#[trigger] string_of(entries@[j])) == Some(items@[j]@),
        decreases entries@.len() - i,
    {
        match value_as_str(&entries[i]) {
            Option::Some(s) => {
                items.push(s.to_owned());
            },
            Option::None => {
                proof {
                    assert(!string_items(entries@));
                }
                return Result::Err(LoadError::DeserializationError { value: clone_value(value) });
            },
        }
        i += 1;
    }
    proof {
        assert(string_items(entries@));
    }
    Result::Ok(items)
}

/// Read the ordered list of scene paths out of a stack manifest's
/// payload: a map with a `scene_paths` field holding an array of
/// strings.  Succeeds exactly on that shape and returns the paths in
/// manifest order; any other shape earns a `DeserializationError`
/// holding the payload.
pub fn scene_paths_from_value(value: &serde_json::Value) -> (r: Result<Vec<String>, LoadError>)
    ensures
        r is Ok <==> string_list_shaped(*value, "scene_paths"@),
        r matches Ok(items) ==> (field_of(*value, "scene_paths"@) matches Some(f) && array_of(f)
            matches Some(vs) && items@.len() == vs.len() && (forall|i: int|
            0 <= i < vs.len() ==> string_of(vs[i]) == Some(#[trigger] items@[i]@))),
        r matches Err(e) ==> (e matches LoadError::DeserializationError { value: v } && v
            == *value),
{
    string_list_from_value(value, "scene_paths")
}

} // verus!
