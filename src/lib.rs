//! Assembly of request telemetry: the request record, the merge of context
//! defaults with per-record maps, and the wire envelope built from both.

pub mod text;
pub mod duration;
pub mod maps;
pub mod deps;
pub mod time;
pub mod uri;
pub mod request;
pub mod context;
pub mod envelope;
