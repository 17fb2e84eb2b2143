//! The response shapes derived from a knowledge record.
//!
//! Each projection consumes the record and copies every field of it; the
//! relation fields (`user`, `files`) hold exactly what the caller passed in.
//! `to_object` gives the JSON object a response is sent as: an absent
//! optional relation leaves its key out, while the files projection always
//! has a `files` key, an empty array included.
use vstd::prelude::*;
use crate::json::{array_value, json_array, object_entries, put, JsonObject};
use crate::knowledge::{record_entries, record_object, Knowledge};

verus! {

/// A record as returned by the API, with no relation fields.
#[derive(Debug)]
pub struct KnowledgeResponse {
    pub id: String,
    pub user_id: String,
    pub name: String,
    pub description: Option<String>,
    pub data: Option<serde_json::Value>,
    pub meta: Option<serde_json::Value>,
    pub access_control: Option<serde_json::Value>,
    pub created_at: i64,
    pub updated_at: i64,
}

/// A record with its owner and its files, each attached only when supplied.
#[derive(Debug)]
pub struct KnowledgeUserResponse {
    pub id: String,
    pub user_id: String,
    pub name: String,
    pub description: Option<String>,
    pub data: Option<serde_json::Value>,
    pub meta: Option<serde_json::Value>,
    pub access_control: Option<serde_json::Value>,
    pub created_at: i64,
    pub updated_at: i64,
    pub user: Option<serde_json::Value>,
    pub files: Option<Vec<serde_json::Value>>,
}

/// A record with its list of files, which is always present.
#[derive(Debug)]
pub struct KnowledgeFilesResponse {
    pub id: String,
    pub user_id: String,
    pub name: String,
    pub description: Option<String>,
    pub data: Option<serde_json::Value>,
    pub meta: Option<serde_json::Value>,
    pub access_control: Option<serde_json::Value>,
    pub created_at: i64,
    pub updated_at: i64,
    pub files: Vec<serde_json::Value>,
}

/// The bare projection of `k`.
pub open spec fn bare_projection(k: Knowledge) -> KnowledgeResponse {
    KnowledgeResponse {
        id: k.id,
        user_id: k.user_id,
        name: k.name,
        description: k.description,
        data: k.data,
        meta: k.meta,
        access_control: k.access_control,
        created_at: k.created_at,
        updated_at: k.updated_at,
    }
}

/// The projection of `k` with an optional owner and an optional file list.
pub open spec fn user_files_projection(
    k: Knowledge,
    user: Option<serde_json::Value>,
    files: Option<Vec<serde_json::Value>>,
) -> KnowledgeUserResponse {
    KnowledgeUserResponse {
        id: k.id,
        user_id: k.user_id,
        name: k.name,
        description: k.description,
        data: k.data,
        meta: k.meta,
        access_control: k.access_control,
        created_at: k.created_at,
        updated_at: k.updated_at,
        user,
        files,
    }
}

/// The projection of `k` with a file list.
pub open spec fn files_projection(k: Knowledge, files: Vec<serde_json::Value>) -> KnowledgeFilesResponse {
    KnowledgeFilesResponse {
        id: k.id,
        user_id: k.user_id,
        name: k.name,
        description: k.description,
        data: k.data,
        meta: k.meta,
        access_control: k.access_control,
        created_at: k.created_at,
        updated_at: k.updated_at,
        files,
    }
}

impl KnowledgeResponse {
    /// The record fields this response carries.
    pub open spec fn record(&self) -> Knowledge {
        Knowledge {
            id: self.id,
            user_id: self.user_id,
            name: self.name,
            description: self.description,
            data: self.data,
            meta: self.meta,
            access_control: self.access_control,
            created_at: self.created_at,
            updated_at: self.updated_at,
        }
    }

    /// The entries of the JSON object this response is sent as.
    pub open spec fn entries(&self) -> Map<Seq<char>, serde_json::Value> {
        record_entries(self.record())
    }

    /// The JSON object this response is sent as: the record's nine fields.
    pub fn to_object(self) -> (r: JsonObject)
        ensures
            object_entries(r) == self.entries(),
    {
        let k = Knowledge {
            id: self.id,
            user_id: self.user_id,
            name: self.name,
            description: self.description,
            data: self.data,
            meta: self.meta,
            access_control: self.access_control,
            created_at: self.created_at,
            updated_at: self.updated_at,
        };
        record_object(k)
    }
}

impl From<Knowledge> for KnowledgeResponse {
    /// Copies every field of the record.
    fn from(knowledge: Knowledge) -> (r: KnowledgeResponse)
        ensures
            r == bare_projection(knowledge),
    {
        KnowledgeResponse {
            id: knowledge.id,
            user_id: knowledge.user_id,
            name: knowledge.name,
            description: knowledge.description,
            data: knowledge.data,
            meta: knowledge.meta,
            access_control: knowledge.access_control,
            created_at: knowledge.created_at,
            updated_at: knowledge.updated_at,
        }
    }
}

impl vstd::std_specs::convert::FromSpecImpl<Knowledge> for KnowledgeResponse {
    open spec fn obeys_from_spec() -> bool {
        true
    }

    open spec fn from_spec(v: Knowledge) -> KnowledgeResponse {
        bare_projection(v)
    }
}

impl KnowledgeUserResponse {
    /// The record fields this response carries.
    pub open spec fn record(&self) -> Knowledge {
        Knowledge {
            id: self.id,
            user_id: self.user_id,
            name: self.name,
            description: self.description,
            data: self.data,
            meta: self.meta,
            access_control: self.access_control,
            created_at: self.created_at,
            updated_at: self.updated_at,
        }
    }

    /// The entries of the JSON object this response is sent as: the record's
    /// fields, then `user` and `files` only where they are present.
    pub open spec fn entries(&self) -> Map<Seq<char>, serde_json::Value> {
        let base = record_entries(self.record());
        let with_user = match self.user {
            Some(u) => base.insert("user"@, u),
            None => base,
        };
        match self.files {
            Some(f) => with_user.insert("files"@, json_array(f@)),
            None => with_user,
        }
    }

    /// Takes every field of `knowledge` and attaches `user` and `files` as
    /// given.
    pub fn from_knowledge_and_user(
        knowledge: Knowledge,
        user: Option<serde_json::Value>,
        files: Option<Vec<serde_json::Value>>,
    ) -> (r: Self)
        ensures
            r == user_files_projection(knowledge, user, files),
    {
        KnowledgeUserResponse {
            id: knowledge.id,
            user_id: knowledge.user_id,
            name: knowledge.name,
            description: knowledge.description,
            data: knowledge.data,
            meta: knowledge.meta,
            access_control: knowledge.access_control,
            created_at: knowledge.created_at,
            updated_at: knowledge.updated_at,
            user,
            files,
        }
    }

    /// The JSON object this response is sent as; an absent relation leaves
    /// its key out.
    pub fn to_object(self) -> (r: JsonObject)
        ensures
            object_entries(r) == self.entries(),
    {
        let k = Knowledge {
            id: self.id,
            user_id: self.user_id,
            name: self.name,
            description: self.description,
            data: self.data,
            meta: self.meta,
            access_control: self.access_control,
            created_at: self.created_at,
            updated_at: self.updated_at,
        };
        let mut m = record_object(k);
        match self.user {
            Some(u) => put(&mut m, "user".to_owned(), u),
            None => {},
        }
        match self.files {
            Some(f) => put(&mut m, "files".to_owned(), array_value(f)),
            None => {},
        }
        m
    }
}

impl KnowledgeFilesResponse {
    /// The record fields this response carries.
    pub open spec fn record(&self) -> Knowledge {
        Knowledge {
            id: self.id,
            user_id: self.user_id,
            name: self.name,
            description: self.description,
            data: self.data,
            meta: self.meta,
            access_control: self.access_control,
            created_at: self.created_at,
            updated_at: self.updated_at,
        }
    }

    /// The entries of the JSON object this response is sent as: the record's
    /// fields and `files`, which is there even when the list is empty.
    pub open spec fn entries(&self) -> Map<Seq<char>, serde_json::Value> {
        record_entries(self.record()).insert("files"@, json_array(self.files@))
    }

    /// Takes every field of `knowledge` and attaches `files` as given.
    pub fn from_knowledge_and_files(knowledge: Knowledge, files: Vec<serde_json::Value>) -> (r: Self)
        ensures
            r == files_projection(knowledge, files),
    {
        KnowledgeFilesResponse {
            id: knowledge.id,
            user_id: knowledge.user_id,
            name: knowledge.name,
            description: knowledge.description,
            data: knowledge.data,
            meta: knowledge.meta,
            access_control: knowledge.access_control,
            created_at: knowledge.created_at,
            updated_at: knowledge.updated_at,
            files,
        }
    }

    /// The JSON object this response is sent as, `files` always included.
    pub fn to_object(self) -> (r: JsonObject)
        ensures
            object_entries(r) == self.entries(),
    {
        let k = Knowledge {
            id: self.id,
            user_id: self.user_id,
            name: self.name,
            description: self.description,
            data: self.data,
            meta: self.meta,
            access_control: self.access_control,
            created_at: self.created_at,
            updated_at: self.updated_at,
        };
        let mut m = record_object(k);
        put(&mut m, "files".to_owned(), array_value(self.files));
        m
    }
}

} // verus!
