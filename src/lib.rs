//! Structured extraction from chat-model completions: finding JSON objects in
//! whole messages, in tool-call arguments and in streamed fragments, settling
//! decoded payloads into records, and deciding when to ask the model again.

pub mod enums;
pub mod error;
pub mod extract;
pub mod mode;
pub mod scanner;
pub mod request;
pub mod retry;
pub mod streaming;
mod text;
pub mod validate;
