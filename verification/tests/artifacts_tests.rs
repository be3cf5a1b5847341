use pw_core::artifacts::{default_limit, Artifact, ArtifactType};
use serde_json::Value;

fn language_rust() -> Value {
    let mut map = serde_json::Map::new();
    map.insert("language".to_string(), Value::String("rust".to_string()));
    Value::Object(map)
}

#[test]
fn test_artifact_creation() {
    let artifact = Artifact::new("user123", ArtifactType::CodeSnippet, "fn main() {}")
        .with_title("Main function")
        .with_metadata(language_rust());

    assert_eq!(artifact.user_id, "user123");
    assert_eq!(artifact.artifact_type, ArtifactType::CodeSnippet);
    assert_eq!(artifact.title, Some("Main function".to_string()));
}

#[test]
fn test_new_artifact_fields() {
    let a = Artifact::new("u", ArtifactType::Summary, "text");
    assert_eq!(a.content, "text");
    assert_eq!(a.title, None);
    assert_eq!(a.chunk_index, 0);
    assert_eq!(a.total_chunks, 1);
    assert_eq!(a.parent_id, None);
    assert_eq!(a.token_count, 0);
    assert_eq!(a.metadata, Value::Object(serde_json::Map::new()));
    assert!(a.created_at.secs > 0);
    assert!(a.created_at.nanos < 1_000_000_000);
    let b = Artifact::new("u", ArtifactType::Summary, "text");
    assert_ne!(a.id, b.id);
    assert_eq!(a.id.get_version_num(), 4);
}

#[test]
fn test_builders_keep_other_fields() {
    let a = Artifact::new("u", ArtifactType::Document, "c");
    let id = a.id;
    let titled = a.with_title("T");
    assert_eq!(titled.id, id);
    assert_eq!(titled.content, "c");
    let with_meta = titled.with_metadata(language_rust());
    assert_eq!(with_meta.title, Some("T".to_string()));
    assert_eq!(with_meta.metadata["language"], Value::String("rust".to_string()));
    assert_eq!(with_meta.id, id);
}

#[test]
fn test_artifact_type_names() {
    let expected = [
        (ArtifactType::ChatResponse, "chat_response"),
        (ArtifactType::Document, "document"),
        (ArtifactType::CodeSnippet, "code_snippet"),
        (ArtifactType::Summary, "summary"),
        (ArtifactType::Analysis, "analysis"),
        (ArtifactType::Custom, "custom"),
    ];
    for (t, name) in expected {
        assert_eq!(t.as_str(), name);
    }
}

#[test]
fn test_all_types_once_each_with_distinct_names() {
    let all = ArtifactType::all();
    assert_eq!(all.len(), 6);
    for (i, a) in all.iter().enumerate() {
        for (j, b) in all.iter().enumerate() {
            assert_eq!(i == j, a == b);
            assert_eq!(i == j, a.as_str() == b.as_str());
        }
    }
    assert_eq!(all[0], ArtifactType::ChatResponse);
    assert_eq!(all[5], ArtifactType::Custom);
}

#[test]
fn test_default_limit() {
    assert_eq!(default_limit(), 10);
}

#[test]
fn test_artifact_from_parts_keeps_id_and_time() {
    let id = uuid::Uuid::from_u128(0x1234);
    let t = pw_core::interop::UtcTime { secs: 1_431_648_000, nanos: 5 };
    let a = Artifact::from_parts(id, t, "user", ArtifactType::Analysis, "body");
    assert_eq!(a.id, id);
    assert_eq!(a.created_at, t);
    assert_eq!(a.user_id, "user");
    assert_eq!(a.artifact_type, ArtifactType::Analysis);
    assert_eq!(a.content, "body");
    assert_eq!(a.title, None);
    assert_eq!(a.metadata, Value::Object(serde_json::Map::new()));
    assert_eq!((a.chunk_index, a.total_chunks, a.token_count), (0, 1, 0));
    assert_eq!(a.parent_id, None);
}
