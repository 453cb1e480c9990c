//! A small typed client for a text-generation HTTP service: model identifiers,
//! request builders with their JSON payloads, response records, and the
//! client's endpoint and credential configuration.

pub mod base;
pub mod chat;
pub mod client;
pub mod completion;
pub mod json;
pub mod model;
pub mod text;

pub use base::{Base, BaseExt, Response, Thousandths, Usage};
pub use chat::{Chat, ChatChoice, ChatResponse, Message, Role};
pub use client::{ApiKey, Client, ClientError};
pub use completion::{Completion, CompletionChoice, CompletionResponse};
pub use model::{ChatModel, CompletionModel, OpenAIChatModel, OpenAICompletionModel};
