//! Shared types for the PromptWallet ecosystem:
//! OpenAI-compatible chat types, artifact storage types and
//! extension registry types, with their behaviour stated and proved.

pub mod artifacts;
pub mod chat;
pub mod extensions;
pub mod interop;
pub mod text;

pub use artifacts::{Artifact, ArtifactType};
pub use chat::{ChatCompletionResponse, Message, MessageContent, Role};
pub use extensions::{Category, ClientApp, ExtensionInfo, ExtensionRegistry, ExtensionStatus};
