//! A client that gates text inference and embedding generation behind an
//! allow-list of models and forwards permitted calls to a remote HTTP service.
//!
//! A call goes through the engine in two steps around the network: a
//! `prepare_*` method checks the model and builds the request, and
//! [`finish_reply`] turns what came back into the caller's result.
pub mod engine;
pub mod error;
pub mod reply;
pub mod wire;

pub use engine::{OutboundRequest, RemoteHttpLlmEngine};
pub use error::LlmError;
pub use reply::{
    accepts_status, finish_reply, EmbeddingsResult, EmbeddingsUsage, InferencingResult, InferencingUsage, Reply,
};
pub use wire::InferencingParams;
