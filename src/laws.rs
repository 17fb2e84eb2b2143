//! What holds of every projection, proved over the contracts above.
use vstd::prelude::*;
use crate::json::json_array;
use crate::knowledge::{record_entries, record_keys, Knowledge};
use crate::response::{bare_projection, files_projection, user_files_projection};

verus! {

/// The relation keys never name a record field.
proof fn lemma_relation_keys_are_not_record_keys()
    ensures
        !record_keys().contains("user"@),
        !record_keys().contains("files"@),
        "user"@ != "files"@,
{
    reveal_strlit("user");
    reveal_strlit("files");
    reveal_strlit("id");
    reveal_strlit("user_id");
    reveal_strlit("name");
    reveal_strlit("description");
    reveal_strlit("data");
    reveal_strlit("meta");
    reveal_strlit("access_control");
    reveal_strlit("created_at");
    reveal_strlit("updated_at");
    assert("user"@[0] != "id"@[0]);
    assert("files"@[0] != "id"@[0]);
    assert("user"@.len() != "user_id"@.len());
    assert("files"@[0] != "user_id"@[0]);
    assert("user"@[0] != "name"@[0]);
    assert("files"@[0] != "name"@[0]);
    assert("user"@[0] != "description"@[0]);
    assert("files"@[0] != "description"@[0]);
    assert("user"@[0] != "data"@[0]);
    assert("files"@[0] != "data"@[0]);
    assert("user"@[0] != "meta"@[0]);
    assert("files"@[0] != "meta"@[0]);
    assert("user"@[0] != "access_control"@[0]);
    assert("files"@[0] != "access_control"@[0]);
    assert("user"@[0] != "created_at"@[0]);
    assert("files"@[0] != "created_at"@[0]);
    assert("user"@[1] != "updated_at"@[1]);
    assert("files"@[0] != "updated_at"@[0]);
    assert("user"@[0] != "files"@[0]);
}

/// A record's JSON object has exactly the nine record keys.
proof fn lemma_record_entries_keys(k: Knowledge)
    ensures
        record_entries(k).dom() == record_keys(),
{
    assert(record_entries(k).dom() =~= record_keys());
}

/// The bare projection keeps every field of the record as it was, and its
/// JSON object holds the record's fields and no relation key.
pub proof fn lemma_bare_projection_keeps_record(k: Knowledge)
    ensures
        bare_projection(k).record() == k,
        bare_projection(k).entries() == record_entries(k),
        bare_projection(k).entries().dom() == record_keys(),
        !bare_projection(k).entries().contains_key("user"@),
        !bare_projection(k).entries().contains_key("files"@),
{
    lemma_relation_keys_are_not_record_keys();
    lemma_record_entries_keys(k);
}

/// The user/files projection keeps every field of the record; its JSON object
/// has a `user` key exactly when a user was given and a `files` key exactly
/// when a file list was given, each holding what was given.
pub proof fn lemma_user_files_projection_keys(
    k: Knowledge,
    user: Option<serde_json::Value>,
    files: Option<Vec<serde_json::Value>>,
)
    ensures
        user_files_projection(k, user, files).record() == k,
        user_files_projection(k, user, files).entries().contains_key("user"@) <==> user is Some,
        user_files_projection(k, user, files).entries().contains_key("files"@) <==> files is Some,
        user matches Some(u) ==> user_files_projection(k, user, files).entries()["user"@] == u,
        files matches Some(f) ==> user_files_projection(k, user, files).entries()["files"@]
            == json_array(f@),
        forall|key: Seq<char>|
            record_keys().contains(key) ==> user_files_projection(k, user, files).entries().contains_key(key)
                && user_files_projection(k, user, files).entries()[key] == record_entries(k)[key],
{
    lemma_relation_keys_are_not_record_keys();
    lemma_record_entries_keys(k);
    reveal_strlit("user");
    reveal_strlit("files");
}

/// The files projection keeps every field of the record, and its JSON object
/// always has a `files` key holding the list, also when the list is empty.
pub proof fn lemma_files_projection_keys(k: Knowledge, files: Vec<serde_json::Value>)
    ensures
        files_projection(k, files).record() == k,
        files_projection(k, files).entries().contains_key("files"@),
        files_projection(k, files).entries()["files"@] == json_array(files@),
        !files_projection(k, files).entries().contains_key("user"@),
        files_projection(k, files).entries().dom() == record_keys().insert("files"@),
        forall|key: Seq<char>|
            record_keys().contains(key) ==> files_projection(k, files).entries()[key]
                == record_entries(k)[key],
{
    lemma_relation_keys_are_not_record_keys();
    lemma_record_entries_keys(k);
    reveal_strlit("user");
    reveal_strlit("files");
    assert(files_projection(k, files).entries().dom() =~= record_keys().insert("files"@));
}

/// Building a projection is a function of its inputs: equal inputs give equal
/// responses and equal JSON objects.
pub proof fn lemma_projections_are_deterministic(
    k1: Knowledge,
    k2: Knowledge,
    user1: Option<serde_json::Value>,
    user2: Option<serde_json::Value>,
    files1: Option<Vec<serde_json::Value>>,
    files2: Option<Vec<serde_json::Value>>,
    list1: Vec<serde_json::Value>,
    list2: Vec<serde_json::Value>,
)
    requires
        k1 == k2,
        user1 == user2,
        files1 == files2,
        list1 == list2,
    ensures
        bare_projection(k1) == bare_projection(k2),
        bare_projection(k1).entries() == bare_projection(k2).entries(),
        user_files_projection(k1, user1, files1) == user_files_projection(k2, user2, files2),
        user_files_projection(k1, user1, files1).entries() == user_files_projection(
            k2,
            user2,
            files2,
        ).entries(),
        files_projection(k1, list1) == files_projection(k2, list2),
        files_projection(k1, list1).entries() == files_projection(k2, list2).entries(),
{
}

} // verus!
