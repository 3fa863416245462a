//! Shared global stores: dictionaries of fonts, images and sounds that
//! live in the simulation registry.  Decoding fonts, images and sounds
//! is the host's business; the manifest of each dictionary — which
//! names map to which files — is parsed here.

use vstd::prelude::*;
use crate::load::{LoadError, clone_value, field_of, object_entries_of, string_of, value_as_str,
    value_get_field, value_object_entries};

pub mod audio_controller;
pub mod image_dict;
pub mod texture_dict;

verus! {

/// The type identifier a font-dictionary manifest must declare.
pub const FONT_DICT_LOAD_ID: &'static str = "font_dict";

/// The type identifier an image-dictionary manifest must declare.
pub const IMAGE_DICT_LOAD_ID: &'static str = "image_dict";

/// The type identifier an audio-controller manifest must declare.
pub const AUDIO_CONTROLLER_LOAD_ID: &'static str = "audio_controller";

/// The largest font file a font dictionary accepts, in bytes.
pub const FONT_FILE_SIZE: usize = 60000;

/// Whether every entry of a JSON object maps its key to a string.
pub open spec fn string_valued_entries(es: Seq<(String, serde_json::Value)>) -> bool {
    forall|i: int| 0 <= i < es.len() ==> (#[trigger] string_of(es[i].1)) is Some
}

/// Whether a payload holds the named field as an object whose values
/// are all strings.
pub open spec fn dict_shaped(v: serde_json::Value, field: Seq<char>) -> bool {
    field_of(v, field) matches Some(f) && object_entries_of(f) matches Some(es)
        && string_valued_entries(es)
}

/// Read a dictionary manifest's payload: a map with the named field
/// holding an object whose entries map names to file paths.  Succeeds
/// exactly on that shape and returns the name-to-path pairs in the
/// object's own order; any other shape earns a `DeserializationError`
/// holding the payload.
pub fn dict_entries_from_value(value: &serde_json::Value, field: &str) -> (r: Result<
    Vec<(String, String)>,
    LoadError,
>)
    ensures
        r is Ok <==> dict_shaped(*value, field@),
        r matches Ok(dict) ==> (field_of(*value, field@) matches Some(f) && object_entries_of(f)
            matches Some(es) && dict@.len() == es.len() && (forall|i: int|
            0 <= i < es.len() ==> dict@[i].0 == es[i].0 && (#[trigger] string_of(es[i].1)) == Some(
                dict@[i].1@,
            ))),
        r matches Err(e) ==> (e matches LoadError::DeserializationError { value: v } && v
            == *value),
{
    let object = match value_get_field(value, field) {
        Option::Some(f) => f,
        Option::None => {
            return Result::Err(LoadError::DeserializationError { value: clone_value(value) });
        },
    };
    let entries = match value_object_entries(object) {
        Option::Some(pairs) => pairs,
        Option::None => {
            return Result::Err(LoadError::DeserializationError { value: clone_value(value) });
        },
    };
    let mut dict: Vec<(String, String)> = Vec::new();
    let mut i: usize = 0;
    while i < entries.len()
        invariant
            field_of(*value, field@) == Option::Some(*object),
            object_entries_of(*object) == Option::Some(entries@),
            i <= entries@.len(),
            dict@.len() == i,
            forall|j: int|
                0 <= j < i ==> dict@[j].0 == entries@[j].0 && (#[trigger] string_of(
                    entries@[j].1,
                )) == Some(dict@[j].1@),
        decreases entries@.len() - i,
    {
        let name = entries[i].0.clone();
        match value_as_str(&entries[i].1) {
            Option::Some(path) => {
                dict.push((name, path.to_owned()));
            },
            Option::None => {
                proof {
                    assert(string_of(entries@[i as int].1) is None);
                    assert(!string_valued_entries(entries@));
                }
                return Result::Err(LoadError::DeserializationError { value: clone_value(value) });
            },
        }
        i += 1;
    }
    proof {
        assert(string_valued_entries(entries@));
    }
    Result::Ok(dict)
}

/// Remembers where the font dictionary's manifest lives.
pub struct FontDictLoader {
    /// The manifest's path.
    pub path: String,
}

impl FontDictLoader {
    /// Remember the manifest path.
    pub fn new(file_path: String) -> (r: FontDictLoader)
        ensures
            r.path == file_path,
    {
        FontDictLoader { path: file_path }
    }
}

/// Remembers where the image dictionary's manifest lives.
pub struct ImageDictLoader {
    /// The manifest's path.
    pub path: String,
}

impl ImageDictLoader {
    /// Remember the manifest path.
    pub fn new(file_path: String) -> (r: ImageDictLoader)
        ensures
            r.path == file_path,
    {
        ImageDictLoader { path: file_path }
    }
}

/// Remembers where the audio controller's manifest lives.
pub struct AudioControllerLoader {
    /// The manifest's path.
    pub path: String,
}

impl AudioControllerLoader {
    /// Remember the manifest path.
    pub fn new(file_path: String) -> (r: AudioControllerLoader)
        ensures
            r.path == file_path,
    {
        AudioControllerLoader { path: file_path }
    }
}

} // verus!
