//! Artifact storage types: stored LLM artifacts (code, documents,
//! summaries, ...) for semantic search.

use vstd::prelude::*;

use serde_json::Value;
use uuid::Uuid;

use crate::interop::{current_time, empty_json_object, random_uuid_v4_bits, uuid_from_bits, UtcTime};
use crate::text::owned;

verus! {

// ============================================================================
// Artifact types
// ============================================================================

/// Type of artifact content.
#[derive(Debug, Clone, Copy, PartialEq, Eq, Hash, Structural)]
pub enum ArtifactType {
    /// LLM chat response
    ChatResponse,
    /// Document (markdown, text, etc.)
    Document,
    /// Code snippet
    CodeSnippet,
    /// Summary of other content
    Summary,
    /// Analysis or insight
    Analysis,
    /// Custom/other type
    Custom,
}

/// Every artifact type, in declaration order.
pub open spec fn all_types() -> Seq<ArtifactType> {
    seq![
        ArtifactType::ChatResponse,
        ArtifactType::Document,
        ArtifactType::CodeSnippet,
        ArtifactType::Summary,
        ArtifactType::Analysis,
        ArtifactType::Custom,
    ]
}

/// The snake-case name of an artifact type, as it is written on the wire.
pub open spec fn artifact_type_name(t: ArtifactType) -> Seq<char> {
    match t {
        ArtifactType::ChatResponse => "chat_response"@,
        ArtifactType::Document => "document"@,
        ArtifactType::CodeSnippet => "code_snippet"@,
        ArtifactType::Summary => "summary"@,
        ArtifactType::Analysis => "analysis"@,
        ArtifactType::Custom => "custom"@,
    }
}

impl ArtifactType {
    /// Get all artifact types.
    pub fn all() -> (r: &'static [ArtifactType])
        ensures
            r@ == all_types(),
    {
        &[
            ArtifactType::ChatResponse,
            ArtifactType::Document,
            ArtifactType::CodeSnippet,
            ArtifactType::Summary,
            ArtifactType::Analysis,
            ArtifactType::Custom,
        ]
    }

    /// Get type as string.
    pub fn as_str(&self) -> (r: &'static str)
        ensures
            r@ == artifact_type_name(*self),
    {
        match self {
            ArtifactType::ChatResponse => "chat_response",
            ArtifactType::Document => "document",
            ArtifactType::CodeSnippet => "code_snippet",
            ArtifactType::Summary => "summary",
            ArtifactType::Analysis => "analysis",
            ArtifactType::Custom => "custom",
        }
    }
}

/// `all` lists every artifact type, each exactly once.
pub proof fn lemma_all_types_complete(t: ArtifactType)
    ensures
        all_types().contains(t),
        all_types().no_duplicates(),
{
    let s = all_types();
    match t {
        ArtifactType::ChatResponse => assert(s[0] == t),
        ArtifactType::Document => assert(s[1] == t),
        ArtifactType::CodeSnippet => assert(s[2] == t),
        ArtifactType::Summary => assert(s[3] == t),
        ArtifactType::Analysis => assert(s[4] == t),
        ArtifactType::Custom => assert(s[5] == t),
    }
}

/// Distinct artifact types have distinct names, so a name identifies its type.
pub proof fn lemma_artifact_type_name_injective(a: ArtifactType, b: ArtifactType)
    ensures
        artifact_type_name(a) == artifact_type_name(b) ==> a == b,
{
    reveal_strlit("chat_response");
    reveal_strlit("document");
    reveal_strlit("code_snippet");
    reveal_strlit("summary");
    reveal_strlit("analysis");
    reveal_strlit("custom");
    if artifact_type_name(a) == artifact_type_name(b) {
        assert(artifact_type_name(a).len() == artifact_type_name(b).len());
        assert(artifact_type_name(a)[0] == artifact_type_name(b)[0]);
    }
}

// ============================================================================
// Artifacts
// ============================================================================

/// Stored artifact with embedding for semantic search.
#[derive(Debug, Clone)]
pub struct Artifact {
    pub id: Uuid,
    pub user_id: String,
    pub artifact_type: ArtifactType,
    pub title: Option<String>,
    pub content: String,
    pub metadata: Value,
    pub chunk_index: i32,
    pub total_chunks: i32,
    pub parent_id: Option<Uuid>,
    pub token_count: i32,
    pub created_at: UtcTime,
}

impl Artifact {
    /// The artifact is a fresh single-chunk artifact of `user_id` with
    /// `content` of type `artifact_type`: no title, no parent, no tokens
    /// counted yet.
    pub open spec fn is_fresh(
        self,
        user_id: Seq<char>,
        artifact_type: ArtifactType,
        content: Seq<char>,
    ) -> bool {
        &&& self.user_id@ == user_id
        &&& self.artifact_type == artifact_type
        &&& self.title is None
        &&& self.content@ == content
        &&& self.chunk_index == 0
        &&& self.total_chunks == 1
        &&& self.parent_id is None
        &&& self.token_count == 0
    }

    /// Create a new artifact, with a fresh random id, empty metadata and the
    /// current time.
    ///
    /// The id is random and the time is the clock's reading, so neither is
    /// pinned here; `from_parts` states how they are stored.
    pub fn new(user_id: &str, artifact_type: ArtifactType, content: &str) -> (r: Artifact)
        ensures
            r.is_fresh(user_id@, artifact_type, content@),
            r.created_at.nanos < 1_000_000_000,
    {
        let id = uuid_from_bits(random_uuid_v4_bits());
        let created_at = current_time();
        Self::from_parts(id, created_at, user_id, artifact_type, content)
    }

    /// A fresh artifact with id `id`, created at `created_at`, and empty
    /// metadata.
    ///
    /// That the metadata is an empty JSON object is left unsaid: a
    /// `serde_json::Value` is opaque to the specifications here.
    pub fn from_parts(
        id: Uuid,
        created_at: UtcTime,
        user_id: &str,
        artifact_type: ArtifactType,
        content: &str,
    ) -> (r: Artifact)
        ensures
            r.is_fresh(user_id@, artifact_type, content@),
            r.id == id,
            r.created_at == created_at,
    {
        Artifact {
            id,
            user_id: owned(user_id),
            artifact_type,
            title: None,
            content: owned(content),
            metadata: empty_json_object(),
            chunk_index: 0,
            total_chunks: 1,
            parent_id: None,
            token_count: 0,
            created_at,
        }
    }

    /// Set title.
    pub fn with_title(self, title: &str) -> (r: Artifact)
        ensures
            r.title.deep_view() == Some(title@),
            r == (Artifact { title: r.title, ..self }),
    {
        let mut a = self;
        a.title = Some(owned(title));
        a
    }

    /// Set metadata.
    pub fn with_metadata(self, metadata: Value) -> (r: Artifact)
        ensures
            r == (Artifact { metadata, ..self }),
    {
        let mut a = self;
        a.metadata = metadata;
        a
    }
}

// ============================================================================
// Search defaults
// ============================================================================

/// The default maximum number of search results.
pub fn default_limit() -> (r: usize)
    ensures
        r == 10,
{
    10
}

// ============================================================================
// API request/response types
// ============================================================================

/// Request to store an artifact.
#[derive(Debug, Clone)]
pub struct StoreArtifactRequest {
    /// Type of artifact
    pub artifact_type: ArtifactType,
    /// Content to store
    pub content: String,
    /// Optional title
    pub title: Option<String>,
    /// Optional metadata
    pub metadata: Value,
}

/// Response after storing an artifact.
#[derive(Debug, Clone)]
pub struct StoreArtifactResponse {
    /// IDs of created artifacts (multiple if chunked)
    pub ids: Vec<Uuid>,
    /// Number of chunks created
    pub chunks: usize,
    /// Total tokens in content
    pub token_count: i32,
}

} // verus!
