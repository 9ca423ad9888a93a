use schema_block::{
    resolve_step, validate_config, BlockError, BlockType, DatabaseRequest, DatabaseSchema,
    JsonValue, Project, ResolveEvent, ResolveState,
};

fn entry(workspace_id: &str, data_source_id: &str, database_id: &str) -> JsonValue {
    JsonValue::Object(vec![
        (
            String::from("workspace_id"),
            JsonValue::Str(String::from(workspace_id)),
        ),
        (
            String::from("data_source_id"),
            JsonValue::Str(String::from(data_source_id)),
        ),
        (
            String::from("database_id"),
            JsonValue::Str(String::from(database_id)),
        ),
    ])
}

fn config_with(entries: Vec<JsonValue>) -> JsonValue {
    JsonValue::Object(vec![(String::from("databases"), JsonValue::Array(entries))])
}

fn expected_config_message(name: &str) -> String {
    format!(
        "Invalid or missing `databases` in configuration for `database_schema` block `{}` \
         expecting `{{ \"databases\": [ {{ \"workspace_id\": ..., \"data_source_id\": ..., \
         \"database_id\": ... }}, ... ] }}`",
        name
    )
}

fn request(workspace_id: &str, data_source_id: &str, database_id: &str) -> DatabaseRequest {
    DatabaseRequest {
        workspace_id: String::from(workspace_id),
        data_source_id: String::from(data_source_id),
        database_id: String::from(database_id),
    }
}

/// Runs one resolution to completion against canned remote answers.
fn resolve_with(
    req: &DatabaseRequest,
    project: Result<Project, String>,
    loaded: Result<bool, String>,
    schema: Result<JsonValue, String>,
) -> Result<JsonValue, BlockError> {
    let state = ResolveState::ResolvingProject;
    let state = resolve_step(req, state, ResolveEvent::ProjectResolved(project));
    let state = match state {
        ResolveState::LoadingDatabase { .. } => {
            resolve_step(req, state, ResolveEvent::DatabaseLoaded(loaded))
        }
        other => other,
    };
    let state = match state {
        ResolveState::FetchingSchema { .. } => {
            resolve_step(req, state, ResolveEvent::SchemaFetched(schema))
        }
        other => other,
    };
    match state {
        ResolveState::Done { schema } => Ok(schema),
        ResolveState::Failed { error } => Err(error),
        _ => panic!("resolution did not finish"),
    }
}

#[test]
fn empty_databases_config_succeeds_with_empty_value() {
    let config = config_with(vec![]);
    let reqs = validate_config("blk", Some(&config)).expect("empty list is well formed");
    assert_eq!(reqs.len(), 0);

    let block = DatabaseSchema::parse().expect("parse always succeeds");
    let result = block.collect_result(vec![]).expect("no outcome can fail");
    assert!(result.meta.is_none());
    match result.value {
        JsonValue::Array(schemas) => assert_eq!(schemas.len(), 0),
        _ => panic!("value must be an array"),
    }
}

#[test]
fn single_entry_resolves_to_one_schema() {
    let config = config_with(vec![entry("w1", "d1", "db1")]);
    let reqs = validate_config("blk", Some(&config)).expect("well formed");
    assert_eq!(reqs.len(), 1);
    assert_eq!(reqs[0].workspace_id, "w1");
    assert_eq!(reqs[0].data_source_id, "d1");
    assert_eq!(reqs[0].database_id, "db1");

    let schema = JsonValue::Str(String::from("schema of db1"));
    let outcome = resolve_with(
        &reqs[0],
        Ok(Project { project_id: 7 }),
        Ok(true),
        Ok(schema),
    );
    let block = DatabaseSchema::parse().unwrap();
    let result = block.collect_result(vec![outcome]).expect("all succeeded");
    match result.value {
        JsonValue::Array(schemas) => {
            assert_eq!(schemas.len(), 1);
            match &schemas[0] {
                JsonValue::Str(s) => assert_eq!(s, "schema of db1"),
                _ => panic!("schema passed through unchanged"),
            }
        }
        _ => panic!("value must be an array"),
    }
}

#[test]
fn missing_databases_key_fails_with_shape_error() {
    let config = JsonValue::Object(vec![(String::from("other"), JsonValue::Null)]);
    let err = validate_config("my_block", Some(&config)).expect_err("missing key");
    match &err {
        BlockError::Config { message } => {
            assert_eq!(message, &expected_config_message("my_block"));
            assert!(message.contains("my_block"));
            assert!(message.contains("\"databases\""));
            assert!(message.contains("\"workspace_id\""));
        }
        _ => panic!("must be a configuration error"),
    }
}

#[test]
fn absent_config_fails_with_shape_error() {
    let err = validate_config("blk", None).expect_err("no configuration");
    match err {
        BlockError::Config { message } => assert_eq!(message, expected_config_message("blk")),
        _ => panic!("must be a configuration error"),
    }
}

#[test]
fn databases_not_an_array_fails_with_shape_error() {
    let config = JsonValue::Object(vec![(
        String::from("databases"),
        JsonValue::Str(String::from("nope")),
    )]);
    let err = validate_config("blk", Some(&config)).expect_err("not a sequence");
    match err {
        BlockError::Config { message } => assert_eq!(message, expected_config_message("blk")),
        _ => panic!("must be a configuration error"),
    }
}

#[test]
fn entry_missing_field_fails_with_same_shape_error() {
    let bad = JsonValue::Object(vec![
        (
            String::from("workspace_id"),
            JsonValue::Str(String::from("w1")),
        ),
        (
            String::from("database_id"),
            JsonValue::Str(String::from("db1")),
        ),
    ]);
    let config = config_with(vec![entry("w0", "d0", "db0"), bad]);
    let err = validate_config("blk", Some(&config)).expect_err("field missing");
    match err {
        BlockError::Config { message } => assert_eq!(message, expected_config_message("blk")),
        _ => panic!("must be a configuration error"),
    }
}

#[test]
fn entry_field_not_a_string_fails_with_same_shape_error() {
    let bad = JsonValue::Object(vec![
        (String::from("workspace_id"), JsonValue::Int(3)),
        (
            String::from("data_source_id"),
            JsonValue::Str(String::from("d1")),
        ),
        (
            String::from("database_id"),
            JsonValue::Str(String::from("db1")),
        ),
    ]);
    let config = config_with(vec![bad]);
    let err = validate_config("blk", Some(&config)).expect_err("field not a string");
    match err {
        BlockError::Config { message } => assert_eq!(message, expected_config_message("blk")),
        _ => panic!("must be a configuration error"),
    }
}

#[test]
fn validation_preserves_length_and_order() {
    let config = config_with(vec![
        entry("w1", "d1", "db1"),
        entry("w2", "d2", "db2"),
        entry("w3", "d3", "db3"),
    ]);
    let reqs = validate_config("blk", Some(&config)).expect("well formed");
    assert_eq!(reqs.len(), 3);
    assert_eq!(reqs[0].database_id, "db1");
    assert_eq!(reqs[1].database_id, "db2");
    assert_eq!(reqs[2].database_id, "db3");
}

#[test]
fn missing_database_fails_with_not_found() {
    let req = request("w2", "d2", "db2");
    let outcome = resolve_with(
        &req,
        Ok(Project { project_id: 1 }),
        Ok(false),
        Ok(JsonValue::Null),
    );
    let err = outcome.expect_err("database absent");
    match &err {
        BlockError::NotFound { message } => {
            assert_eq!(message, "Database `db2` not found in data source `d2`");
        }
        _ => panic!("must be a not-found error"),
    }

    // A whole invocation with one sound and one missing database fails
    // atomically: no partial list comes back.
    let good = Ok(JsonValue::Str(String::from("schema one")));
    let block = DatabaseSchema::parse().unwrap();
    let result = block.collect_result(vec![good, Err(err)]);
    match result {
        Err(BlockError::NotFound { message }) => {
            assert_eq!(message, "Database `db2` not found in data source `d2`");
        }
        _ => panic!("first error must surface and no schema list may be returned"),
    }
}

#[test]
fn project_resolution_failure_propagates_unchanged() {
    let req = request("w1", "d1", "db1");
    let outcome = resolve_with(
        &req,
        Err(String::from("workspace has no such data source")),
        Ok(true),
        Ok(JsonValue::Null),
    );
    match outcome.expect_err("resolution failed") {
        BlockError::ProjectResolution { message } => {
            assert_eq!(message, "workspace has no such data source");
        }
        _ => panic!("must be a project-resolution error"),
    }
}

#[test]
fn store_failure_propagates_unchanged() {
    let req = request("w1", "d1", "db1");
    let outcome = resolve_with(
        &req,
        Ok(Project { project_id: 4 }),
        Err(String::from("connection reset")),
        Ok(JsonValue::Null),
    );
    match outcome.expect_err("load failed") {
        BlockError::Store { message } => assert_eq!(message, "connection reset"),
        _ => panic!("must be a store error"),
    }
}

#[test]
fn schema_failure_wraps_cause_with_identifiers() {
    let req = request("w1", "d1", "db1");
    let outcome = resolve_with(
        &req,
        Ok(Project { project_id: 4 }),
        Ok(true),
        Err(String::from("sampling timed out")),
    );
    match outcome.expect_err("schema computation failed") {
        BlockError::Schema { message } => {
            assert_eq!(
                message,
                "Error getting schema for database `db1` in data source `d1`: sampling timed out"
            );
        }
        _ => panic!("must be a schema error"),
    }
}

#[test]
fn output_order_follows_request_order_not_completion_order() {
    // Both entries are valid; pretend the second remote call finished
    // first: outcomes are still keyed by request index, so the first
    // entry's schema stays at index 0.
    let first = request("w1", "d1", "db1");
    let second = request("w2", "d2", "db2");
    let second_outcome = resolve_with(
        &second,
        Ok(Project { project_id: 2 }),
        Ok(true),
        Ok(JsonValue::Str(String::from("schema two"))),
    );
    let first_outcome = resolve_with(
        &first,
        Ok(Project { project_id: 1 }),
        Ok(true),
        Ok(JsonValue::Str(String::from("schema one"))),
    );
    let block = DatabaseSchema::parse().unwrap();
    let result = block
        .collect_result(vec![first_outcome, second_outcome])
        .expect("both succeeded");
    match result.value {
        JsonValue::Array(schemas) => {
            assert_eq!(schemas.len(), 2);
            match (&schemas[0], &schemas[1]) {
                (JsonValue::Str(a), JsonValue::Str(b)) => {
                    assert_eq!(a, "schema one");
                    assert_eq!(b, "schema two");
                }
                _ => panic!("schemas pass through unchanged"),
            }
        }
        _ => panic!("value must be an array"),
    }
}

#[test]
fn repeated_resolution_of_same_request_is_schema_equal() {
    let req = request("w1", "d1", "db1");
    let run = || {
        resolve_with(
            &req,
            Ok(Project { project_id: 9 }),
            Ok(true),
            Ok(JsonValue::Str(String::from("stable schema"))),
        )
    };
    match (run(), run()) {
        (Ok(JsonValue::Str(a)), Ok(JsonValue::Str(b))) => assert_eq!(a, b),
        _ => panic!("both runs must succeed with string schemas"),
    }
}

#[test]
fn identity_hash_is_stable_and_matches_the_digest_of_the_kind_tag() {
    let block = DatabaseSchema::parse().unwrap();
    assert_eq!(block.block_type(), BlockType::DatabaseSchema);
    let h1 = block.inner_hash();
    let h2 = block.inner_hash();
    assert_eq!(h1, h2);
    assert_eq!(h1.len(), 64);
    let expected = blake3::hash("database_schema".as_bytes())
        .to_hex()
        .to_string();
    assert_eq!(h1, expected);
}

#[test]
fn object_lookup_returns_first_matching_field() {
    let v = JsonValue::Object(vec![
        (String::from("k"), JsonValue::Int(1)),
        (String::from("k"), JsonValue::Int(2)),
    ]);
    match v.get(&String::from("k")) {
        Some(JsonValue::Int(n)) => assert_eq!(*n, 1),
        _ => panic!("lookup must find the first field"),
    }
    assert!(v.get(&String::from("missing")).is_none());
    assert!(JsonValue::Null.get(&String::from("k")).is_none());
}
