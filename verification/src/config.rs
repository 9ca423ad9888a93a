//! Configuration validation: turning a block's raw, loosely shaped
//! configuration value into an ordered list of validated
//! `DatabaseRequest` triples, or the one unified shape error.

use vstd::prelude::*;
use crate::error::{config_error, config_error_message, BlockError};
use crate::json::{spec_get, JsonValue};

verus! {

/// One validated request: the identifiers naming a database within a
/// data source within a workspace. Built per invocation from the raw
/// configuration; the identifiers are opaque strings.
#[derive(Debug)]
pub struct DatabaseRequest {
    pub workspace_id: String,
    pub data_source_id: String,
    pub database_id: String,
}

/// The string held by field `key` of `entry`, if `entry` is an object
/// whose field `key` is a string.
pub open spec fn field_string(entry: JsonValue, key: Seq<char>) -> Option<Seq<char>> {
    match spec_get(entry, key) {
        Some(JsonValue::Str(s)) => Some(s@),
        _ => None,
    }
}

/// An entry is valid when all three identifier fields are present and
/// are strings.
pub open spec fn valid_entry(entry: JsonValue) -> bool {
    &&& field_string(entry, "workspace_id"@) is Some
    &&& field_string(entry, "data_source_id"@) is Some
    &&& field_string(entry, "database_id"@) is Some
}

/// The request carries exactly the three identifier strings of `entry`.
pub open spec fn request_matches_entry(req: DatabaseRequest, entry: JsonValue) -> bool {
    &&& field_string(entry, "workspace_id"@) == Some(req.workspace_id@)
    &&& field_string(entry, "data_source_id"@) == Some(req.data_source_id@)
    &&& field_string(entry, "database_id"@) == Some(req.database_id@)
}

/// Whether the configuration is present and its `databases` field is a
/// sequence.
pub open spec fn has_databases(config: Option<JsonValue>) -> bool {
    match config {
        Some(v) => spec_get(v, "databases"@) matches Some(JsonValue::Array(_)),
        None => false,
    }
}

/// The entries of the `databases` sequence; empty unless
/// `has_databases` holds.
pub open spec fn spec_databases(config: Option<JsonValue>) -> Seq<JsonValue> {
    match config {
        Some(v) => match spec_get(v, "databases"@) {
            Some(JsonValue::Array(a)) => a@,
            _ => Seq::empty(),
        },
        None => Seq::empty(),
    }
}

/// A configuration is well formed when `databases` is a sequence and
/// every entry carries the three identifier strings.
pub open spec fn well_formed_config(config: Option<JsonValue>) -> bool {
    &&& has_databases(config)
    &&& forall|i: int|
        0 <= i < spec_databases(config).len() ==> valid_entry(#[trigger] spec_databases(config)[i])
}

/// The configuration value a borrowed optional stands for.
pub open spec fn spec_config(config: Option<&JsonValue>) -> Option<JsonValue> {
    match config {
        Some(v) => Some(*v),
        None => None,
    }
}

/// Validates the configuration scoped to block `name`: on a well-formed
/// configuration, returns one request per `databases` entry, in order;
/// otherwise fails with the unified shape error, whichever part was
/// missing or malformed.
pub fn validate_config(name: &str, config: Option<&JsonValue>) -> (r: Result<
    Vec<DatabaseRequest>,
    BlockError,
>)
    ensures
        well_formed_config(spec_config(config)) ==> (r matches Ok(reqs) && {
            &&& reqs@.len() == spec_databases(spec_config(config)).len()
            &&& forall|i: int|
                0 <= i < reqs@.len() ==> request_matches_entry(
                    #[trigger] reqs@[i],
                    spec_databases(spec_config(config))[i],
                )
        }),
        !well_formed_config(spec_config(config)) ==> (r matches Err(e) && (e matches
            BlockError::Config { message } && message@ == config_error_message(name@))),
{
    let v = match config {
        Some(v) => v,
        None => {
            return Err(config_error(name));
        },
    };
    let databases_key = String::from_str("databases");
    let arr = match v.get(&databases_key) {
        Some(JsonValue::Array(a)) => a,
        _ => {
            return Err(config_error(name));
        },
    };
    let workspace_key = String::from_str("workspace_id");
    let data_source_key = String::from_str("data_source_id");
    let database_key = String::from_str("database_id");
    let n: usize = arr.len();
    let mut reqs: Vec<DatabaseRequest> = Vec::new();
    let mut i: usize = 0;
    while i < n
        invariant
            n == arr@.len(),
            i <= n,
            arr@ == spec_databases(spec_config(config)),
            has_databases(spec_config(config)),
            workspace_key@ == "workspace_id"@,
            data_source_key@ == "data_source_id"@,
            database_key@ == "database_id"@,
            reqs@.len() == i,
            forall|j: int|
                0 <= j < i ==> valid_entry(#[trigger] arr@[j]) && request_matches_entry(
                    reqs@[j],
                    arr@[j],
                ),
        decreases n - i,
    {
        let entry = &arr[i];
        let workspace_id = match entry.get(&workspace_key) {
            Some(JsonValue::Str(s)) => s.clone(),
            _ => {
                return Err(config_error(name));
            },
        };
        let data_source_id = match entry.get(&data_source_key) {
            Some(JsonValue::Str(s)) => s.clone(),
            _ => {
                return Err(config_error(name));
            },
        };
        let database_id = match entry.get(&database_key) {
            Some(JsonValue::Str(s)) => s.clone(),
            _ => {
                return Err(config_error(name));
            },
        };
        reqs.push(DatabaseRequest { workspace_id, data_source_id, database_id });
        i = i + 1;
    }
    Ok(reqs)
}

} // verus!
