//! The loader state for one entity.  Building the entity inside the
//! simulation registry is the host's business; the manifest an entity
//! is read from is an envelope naming one file per component.

use vstd::prelude::*;
use crate::load::{LoadError, array_of, field_of, string_list_shaped, string_list_from_value,
    string_of};

verus! {

/// The type identifier an entity manifest must declare.
pub const ENTITY_LOAD_ID: &'static str = "entity_loader";

/// Remembers where an entity's manifest lives.
pub struct EntityLoader {
    /// The entity manifest's path.
    pub entity_file: String,
}

impl EntityLoader {
    /// Remember the manifest path.
    pub fn new(file_path: String) -> (r: EntityLoader)
        ensures
            r.entity_file == file_path,
    {
        EntityLoader { entity_file: file_path }
    }
}

/// Read the ordered list of component paths out of an entity manifest's
/// payload: a map with a `component_paths` field holding an array of
/// strings.  Succeeds exactly on that shape and returns the paths in
/// manifest order — the host builds one component per path, in this
/// order; any other shape earns a `DeserializationError` holding the
/// payload.
pub fn component_paths_from_value(value: &serde_json::Value) -> (r: Result<Vec<String>, LoadError>)
    ensures
        r is Ok <==> string_list_shaped(*value, "component_paths"@),
        r matches Ok(items) ==> (field_of(*value, "component_paths"@) matches Some(f) && array_of(
            f,
        ) matches Some(vs) && items@.len() == vs.len() && (forall|i: int|
            0 <= i < vs.len() ==> string_of(vs[i]) == Some(#[trigger] items@[i]@))),
        r matches Err(e) ==> (e matches LoadError::DeserializationError { value: v } && v
            == *value),
{
    string_list_from_value(value, "component_paths")
}

} // verus!
