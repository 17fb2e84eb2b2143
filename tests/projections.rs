use knowledge_model::json::JsonObject;
use knowledge_model::knowledge::{CreateKnowledgeRequest, Knowledge};
use knowledge_model::response::{KnowledgeFilesResponse, KnowledgeResponse, KnowledgeUserResponse};
use serde_json::{Number, Value};

const RECORD_KEYS: [&str; 9] = [
    "id",
    "user_id",
    "name",
    "description",
    "data",
    "meta",
    "access_control",
    "created_at",
    "updated_at",
];

fn docs_record() -> Knowledge {
    Knowledge {
        id: "k1".to_string(),
        user_id: "u1".to_string(),
        name: "Docs".to_string(),
        description: None,
        data: None,
        meta: None,
        access_control: None,
        created_at: 1000,
        updated_at: 1000,
    }
}

fn object_of(pairs: Vec<(&str, Value)>) -> Value {
    let mut m = JsonObject::new();
    for (k, v) in pairs {
        m.insert(k.to_string(), v);
    }
    Value::Object(m)
}

fn full_record() -> Knowledge {
    Knowledge {
        id: "k2".to_string(),
        user_id: "u7".to_string(),
        name: "Notes".to_string(),
        description: Some("meeting notes".to_string()),
        data: Some(object_of(vec![
            ("pages", Value::Array(vec![Value::from(1i64), Value::from(2i64)])),
            ("title", Value::String("Q3".to_string())),
        ])),
        meta: Some(object_of(vec![("source", Value::String("import".to_string()))])),
        access_control: Some(object_of(vec![("public", Value::Bool(false))])),
        created_at: 1_700_000_000,
        updated_at: 1_700_000_500,
    }
}

fn alice() -> Value {
    object_of(vec![("name", Value::String("Alice".to_string()))])
}

fn sorted_keys(m: &JsonObject) -> Vec<String> {
    let mut keys: Vec<String> = m.keys().cloned().collect();
    keys.sort();
    keys
}

fn expected_keys(extra: &[&str]) -> Vec<String> {
    let mut keys: Vec<String> = RECORD_KEYS.iter().map(|k| k.to_string()).collect();
    keys.extend(extra.iter().map(|k| k.to_string()));
    keys.sort();
    keys
}

fn docs_fields() -> Vec<(&'static str, Value)> {
    vec![
        ("id", Value::String("k1".to_string())),
        ("user_id", Value::String("u1".to_string())),
        ("name", Value::String("Docs".to_string())),
        ("description", Value::Null),
        ("data", Value::Null),
        ("meta", Value::Null),
        ("access_control", Value::Null),
        ("created_at", Value::Number(Number::from(1000i64))),
        ("updated_at", Value::Number(Number::from(1000i64))),
    ]
}

#[test]
fn bare_projection_of_example_record() {
    let m = KnowledgeResponse::from(docs_record()).to_object();
    assert_eq!(Value::Object(m), object_of(docs_fields()));
}

#[test]
fn user_files_projection_without_relations() {
    let m = KnowledgeUserResponse::from_knowledge_and_user(docs_record(), None, None).to_object();
    assert!(!m.contains_key("user"));
    assert!(!m.contains_key("files"));
    assert_eq!(Value::Object(m), object_of(docs_fields()));
}

#[test]
fn user_files_projection_with_user_and_empty_files() {
    let m = KnowledgeUserResponse::from_knowledge_and_user(docs_record(), Some(alice()), Some(vec![]))
        .to_object();
    let mut fields = docs_fields();
    fields.push(("user", alice()));
    fields.push(("files", Value::Array(vec![])));
    assert_eq!(Value::Object(m), object_of(fields));
}

#[test]
fn files_projection_with_empty_list() {
    let m = KnowledgeFilesResponse::from_knowledge_and_files(docs_record(), vec![]).to_object();
    let mut fields = docs_fields();
    fields.push(("files", Value::Array(vec![])));
    assert_eq!(Value::Object(m), object_of(fields));
}

#[test]
fn bare_projection_keeps_every_field() {
    let k = full_record();
    let r = KnowledgeResponse::from(k.clone());
    assert_eq!(r.id, k.id);
    assert_eq!(r.user_id, k.user_id);
    assert_eq!(r.name, k.name);
    assert_eq!(r.description, k.description);
    assert_eq!(r.data, k.data);
    assert_eq!(r.meta, k.meta);
    assert_eq!(r.access_control, k.access_control);
    assert_eq!(r.created_at, k.created_at);
    assert_eq!(r.updated_at, k.updated_at);
    let m = r.to_object();
    assert_eq!(sorted_keys(&m), expected_keys(&[]));
    assert_eq!(m["description"], Value::String("meeting notes".to_string()));
    assert_eq!(m["data"], k.data.clone().unwrap());
    assert_eq!(m["meta"], k.meta.clone().unwrap());
    assert_eq!(m["access_control"], k.access_control.clone().unwrap());
    assert_eq!(m["created_at"], Value::from(1_700_000_000i64));
    assert_eq!(m["updated_at"], Value::from(1_700_000_500i64));
}

#[test]
fn user_files_projection_keys_follow_inputs() {
    let file = object_of(vec![("path", Value::String("a.txt".to_string()))]);
    let cases: Vec<(Option<Value>, Option<Vec<Value>>)> = vec![
        (None, None),
        (Some(alice()), None),
        (None, Some(vec![file.clone()])),
        (Some(alice()), Some(vec![file.clone()])),
        (Some(Value::Null), Some(vec![])),
    ];
    for (user, files) in cases {
        let r = KnowledgeUserResponse::from_knowledge_and_user(full_record(), user.clone(), files.clone());
        assert_eq!(r.user, user);
        assert_eq!(r.files, files);
        assert_eq!(r.name, "Notes");
        let m = r.to_object();
        assert_eq!(m.contains_key("user"), user.is_some());
        assert_eq!(m.contains_key("files"), files.is_some());
        if let Some(u) = &user {
            assert_eq!(&m["user"], u);
        }
        if let Some(f) = &files {
            assert_eq!(m["files"], Value::Array(f.clone()));
        }
        let mut extra: Vec<&str> = vec![];
        if user.is_some() {
            extra.push("user");
        }
        if files.is_some() {
            extra.push("files");
        }
        assert_eq!(sorted_keys(&m), expected_keys(&extra));
    }
}

#[test]
fn files_projection_always_has_files() {
    let file_a = object_of(vec![("path", Value::String("a.txt".to_string()))]);
    let file_b = object_of(vec![("path", Value::String("b.txt".to_string()))]);
    for files in [vec![], vec![file_a.clone()], vec![file_b.clone(), file_a.clone()]] {
        let r = KnowledgeFilesResponse::from_knowledge_and_files(full_record(), files.clone());
        assert_eq!(r.files, files);
        let m = r.to_object();
        assert_eq!(m["files"], Value::Array(files.clone()));
        assert_eq!(sorted_keys(&m), expected_keys(&["files"]));
    }
}

#[test]
fn payloads_survive_a_text_round_trip() {
    let k = full_record();
    let text = serde_json::to_string(&Value::Object(KnowledgeResponse::from(k.clone()).to_object())).unwrap();
    let back: Value = serde_json::from_str(&text).unwrap();
    assert_eq!(back["data"], k.data.unwrap());
    assert_eq!(back["meta"], k.meta.unwrap());
    assert_eq!(back["access_control"], k.access_control.unwrap());
}

#[test]
fn projections_are_deterministic() {
    let once = KnowledgeUserResponse::from_knowledge_and_user(full_record(), Some(alice()), Some(vec![]));
    let twice = KnowledgeUserResponse::from_knowledge_and_user(full_record(), Some(alice()), Some(vec![]));
    assert_eq!(once.to_object(), twice.to_object());
    let once = KnowledgeFilesResponse::from_knowledge_and_files(full_record(), vec![alice()]);
    let twice = KnowledgeFilesResponse::from_knowledge_and_files(full_record(), vec![alice()]);
    assert_eq!(once.to_object(), twice.to_object());
    let once = KnowledgeResponse::from(full_record());
    let twice = KnowledgeResponse::from(full_record());
    assert_eq!(once.to_object(), twice.to_object());
}

#[test]
fn creation_request_carries_caller_fields() {
    let req = CreateKnowledgeRequest {
        name: "Docs".to_string(),
        description: Some("d".to_string()),
        data: Some(alice()),
    };
    assert_eq!(req.name, "Docs");
    assert_eq!(req.description.as_deref(), Some("d"));
    assert_eq!(req.data, Some(alice()));
}

#[test]
fn negative_timestamps_are_numbers() {
    let mut k = docs_record();
    k.created_at = -5;
    k.updated_at = i64::MAX;
    let m = KnowledgeResponse::from(k).to_object();
    assert_eq!(m["created_at"], Value::from(-5i64));
    assert_eq!(m["updated_at"], Value::from(i64::MAX));
}
