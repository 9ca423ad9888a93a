//! A pipeline block that resolves the schemas of a set of configured
//! databases: it validates the block's configuration into a list of
//! `(workspace, data source, database)` identifier triples, drives one
//! schema resolution per triple, and aggregates the results in request
//! order into a single structured value.

mod block;
mod config;
mod error;
mod json;
mod resolve;

pub use block::BlockResult;
pub use block::BlockType;
pub use block::DatabaseSchema;
pub use config::DatabaseRequest;
pub use config::validate_config;
pub use error::BlockError;
pub use json::JsonValue;
pub use resolve::Project;
pub use resolve::ResolveEvent;
pub use resolve::ResolveState;
pub use resolve::resolve_step;
