//! The block's error taxonomy. Every failure of one invocation is one
//! of these variants, each carrying its full user-facing message; the
//! exact text of each message is pinned by a spec function.

use vstd::prelude::*;

verus! {

/// A terminal failure of one block invocation. No variant is ever
/// retried; the message is surfaced verbatim to the caller.
#[derive(Debug)]
pub enum BlockError {
    /// Configuration absent or malformed; the message restates the full
    /// expected shape together with the block's name.
    Config { message: String },
    /// Project resolution failed; the collaborator's message is
    /// propagated unchanged.
    ProjectResolution { message: String },
    /// The requested database does not exist in the given data source.
    NotFound { message: String },
    /// Schema computation failed for an existing database; the message
    /// includes the underlying cause.
    Schema { message: String },
    /// Transport or storage failure while loading the database,
    /// propagated unchanged.
    Store { message: String },
}

/// The one unified message for every malformed configuration: it names
/// the block and restates the whole expected shape, whichever field was
/// at fault.
pub open spec fn config_error_message(name: Seq<char>) -> Seq<char> {
    "Invalid or missing `databases` in configuration for `database_schema` block `"@ + name
        + "` expecting `{ \"databases\": [ { \"workspace_id\": ..., \"data_source_id\": ..., \"database_id\": ... }, ... ] }`"@
}

/// The message reported when a database is absent from its data source.
pub open spec fn not_found_message(database_id: Seq<char>, data_source_id: Seq<char>) -> Seq<char> {
    "Database `"@ + database_id + "` not found in data source `"@ + data_source_id + "`"@
}

/// The message reported when schema computation fails, wrapping the
/// underlying cause.
pub open spec fn schema_error_message(
    database_id: Seq<char>,
    data_source_id: Seq<char>,
    cause: Seq<char>,
) -> Seq<char> {
    "Error getting schema for database `"@ + database_id + "` in data source `"@
        + data_source_id + "`: "@ + cause
}

/// Builds the configuration-shape error for the named block.
pub fn config_error(name: &str) -> (e: BlockError)
    ensures
        e matches BlockError::Config { message } && message@ == config_error_message(name@),
{
    let message = String::from_str(
        "Invalid or missing `databases` in configuration for `database_schema` block `",
    ).concat(name).concat(
        "` expecting `{ \"databases\": [ { \"workspace_id\": ..., \"data_source_id\": ..., \"database_id\": ... }, ... ] }`",
    );
    BlockError::Config { message }
}

/// Builds the not-found error naming both identifiers.
pub fn not_found_error(database_id: &str, data_source_id: &str) -> (e: BlockError)
    ensures
        e matches BlockError::NotFound { message } && message@ == not_found_message(
            database_id@,
            data_source_id@,
        ),
{
    let message = String::from_str("Database `").concat(database_id).concat(
        "` not found in data source `",
    ).concat(data_source_id).concat("`");
    BlockError::NotFound { message }
}

/// Builds the schema-computation error naming both identifiers and the
/// underlying cause.
pub fn schema_error(database_id: &str, data_source_id: &str, cause: &str) -> (e: BlockError)
    ensures
        e matches BlockError::Schema { message } && message@ == schema_error_message(
            database_id@,
            data_source_id@,
            cause@,
        ),
{
    let message = String::from_str("Error getting schema for database `").concat(
        database_id,
    ).concat("` in data source `").concat(data_source_id).concat("`: ").concat(cause);
    BlockError::Schema { message }
}

impl BlockError {
    /// The user-facing message this error carries.
    pub open spec fn spec_message(&self) -> Seq<char> {
        match self {
            BlockError::Config { message } => message@,
            BlockError::ProjectResolution { message } => message@,
            BlockError::NotFound { message } => message@,
            BlockError::Schema { message } => message@,
            BlockError::Store { message } => message@,
        }
    }

    /// Hands out the message carried by this error.
    pub fn message(&self) -> (r: &String)
        ensures
            r@ == self.spec_message(),
    {
        match self {
            BlockError::Config { message } => message,
            BlockError::ProjectResolution { message } => message,
            BlockError::NotFound { message } => message,
            BlockError::Schema { message } => message,
            BlockError::Store { message } => message,
        }
    }
}

} // verus!
