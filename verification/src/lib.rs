//! Provider-neutral structured model output.
//!
//! A caller supplies the messages and one schema-bearing tool definition; the provider is
//! asked to answer through that tool, and the response is admitted here: the expected tool
//! call is selected, its raw JSON arguments are handed to the caller's parser, and the
//! result is bound to a receipt of SHA-256 digests of the call's inputs. The Zirkel
//! output-channel schemas live in `synthetic_tool`.

pub mod conversation;
pub mod evidence;
pub mod json;
pub mod structured;
pub mod synthetic_tool;
pub mod tool;

pub use conversation::{prompt_messages, LlmResponse, Message, Role, ToolCallRequest, Usage};
pub use evidence::{format_sha256_digest, hex, sha256_bytes};
pub use json::JsonValue;
pub use structured::{
    admit_structured_response, call_start, sha256_json, StructuredCallReceipt,
    StructuredCallStart, StructuredOutput, StructuredOutputError,
};
pub use synthetic_tool::{
    emit_perspectives_tool, name_theme_tool, score_candidate_tool, EmitPerspectivesArgs,
    NameThemeArgs, ScoreCandidateArgs,
};
pub use tool::ToolDef;
