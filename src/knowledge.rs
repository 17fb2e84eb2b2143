//! The stored knowledge record and the request that creates one.
use vstd::prelude::*;
use crate::json::{
    integer_value, json_integer, json_optional, json_optional_text, json_text, new_object,
    object_entries, optional_chars, optional_text_value, optional_value, put, text_value, JsonObject,
};

verus! {

/// One stored knowledge entity: a named, user-owned collection of data.
///
/// `id`, `user_id` and `created_at` are set once by the store; `data`, `meta`
/// and `access_control` are payloads that this library carries unread.
#[derive(Debug, Clone)]
pub struct Knowledge {
    pub id: String,
    pub user_id: String,
    pub name: String,
    pub description: Option<String>,
    pub data: Option<serde_json::Value>,
    pub meta: Option<serde_json::Value>,
    pub access_control: Option<serde_json::Value>,
    pub created_at: i64,
    pub updated_at: i64,
}

/// What a caller supplies to create a record. Identifiers, timestamps, `meta`
/// and `access_control` are assigned by the store, not taken from here.
#[derive(Debug)]
pub struct CreateKnowledgeRequest {
    pub name: String,
    pub description: Option<String>,
    pub data: Option<serde_json::Value>,
}

impl Knowledge {
    /// A record is never updated before it was created.
    pub open spec fn wf(&self) -> bool {
        self.updated_at >= self.created_at
    }
}

/// The nine keys under which a record's fields appear in a JSON object.
pub open spec fn record_keys() -> Set<Seq<char>> {
    set![
        "id"@, "user_id"@, "name"@, "description"@, "data"@, "meta"@,
        "access_control"@, "created_at"@, "updated_at"@
    ]
}

/// The JSON entries of a record: one per field, an absent optional as null.
pub open spec fn record_entries(k: Knowledge) -> Map<Seq<char>, serde_json::Value> {
    map![
        "id"@ => json_text(k.id@),
        "user_id"@ => json_text(k.user_id@),
        "name"@ => json_text(k.name@),
        "description"@ => json_optional_text(optional_chars(k.description)),
        "data"@ => json_optional(k.data),
        "meta"@ => json_optional(k.meta),
        "access_control"@ => json_optional(k.access_control),
        "created_at"@ => json_integer(k.created_at),
        "updated_at"@ => json_integer(k.updated_at)
    ]
}

/// Builds the JSON object holding the record's fields.
pub(crate) fn record_object(k: Knowledge) -> (r: JsonObject)
    ensures
        object_entries(r) == record_entries(k),
{
    let ghost g = k;
    let mut m = new_object();
    put(&mut m, "id".to_owned(), text_value(k.id));
    put(&mut m, "user_id".to_owned(), text_value(k.user_id));
    put(&mut m, "name".to_owned(), text_value(k.name));
    put(&mut m, "description".to_owned(), optional_text_value(k.description));
    put(&mut m, "data".to_owned(), optional_value(k.data));
    put(&mut m, "meta".to_owned(), optional_value(k.meta));
    put(&mut m, "access_control".to_owned(), optional_value(k.access_control));
    put(&mut m, "created_at".to_owned(), integer_value(k.created_at));
    put(&mut m, "updated_at".to_owned(), integer_value(k.updated_at));
    assert(object_entries(m) =~= record_entries(g));
    m
}

} // verus!
