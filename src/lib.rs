//! Document ingestion engine: text extraction, metadata parsing, content
//! addressing, ledger anchoring decisions and catalog queries, each stated
//! and proved against a mathematical model.

pub mod model;
pub mod hash;
pub mod error;
pub mod extract;
pub mod json;
pub mod content;
pub mod metadata;
pub mod retry;
pub mod anchor;
pub mod catalog;
pub mod pipeline;
