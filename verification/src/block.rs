//! The database-schema block itself: its kind tag, its stable identity
//! hash, and the aggregation of the per-request resolutions into one
//! result, in request order and with first-error semantics.

use vstd::prelude::*;
use crate::error::BlockError;
use crate::json::JsonValue;

verus! {

/// The closed set of block kinds this crate knows.
#[derive(Clone, Copy, PartialEq, Eq, Structural, Debug)]
pub enum BlockType {
    DatabaseSchema,
}

/// What one invocation hands back to the engine: the aggregated value,
/// with no metadata.
#[derive(Debug)]
pub struct BlockResult {
    pub value: JsonValue,
    pub meta: Option<JsonValue>,
}

/// The hex digest that the underlying hash function assigns to the
/// characters of a tag.
pub uninterp spec fn blake3_hex_of(tag: Seq<char>) -> Seq<char>;

/// Relies on blake3::Hasher::{new, update, finalize} and
/// blake3::Hash::to_hex: a 64-character hex digest of the bytes of
/// `tag`, depending on those bytes alone.
#[verifier::external_body]
fn blake3_hex(tag: &str) -> (r: String)
    ensures
        r@ == blake3_hex_of(tag@),
        r@.len() == 64,
{
    let mut hasher = blake3::Hasher::new();
    hasher.update(tag.as_bytes());
    hasher.finalize().to_hex().as_str().to_owned()
}

/// Every outcome at every position succeeded.
pub open spec fn all_ok(outcomes: Seq<Result<JsonValue, BlockError>>) -> bool {
    forall|i: int| 0 <= i < outcomes.len() ==> #[trigger] outcomes[i] is Ok
}

/// `k` is the position of the first failed outcome.
pub open spec fn first_error_at(outcomes: Seq<Result<JsonValue, BlockError>>, k: int) -> bool {
    &&& 0 <= k < outcomes.len()
    &&& outcomes[k] is Err
    &&& forall|j: int| 0 <= j < k ==> #[trigger] outcomes[j] is Ok
}

/// Gathers the per-request outcomes, given in request order: if every
/// one succeeded, the schemas in that same order; otherwise the first
/// error, and no schema sequence at all.
pub fn collect_schemas(outcomes: Vec<Result<JsonValue, BlockError>>) -> (r: Result<
    Vec<JsonValue>,
    BlockError,
>)
    ensures
        all_ok(outcomes@) ==> (r matches Ok(schemas) && {
            &&& schemas@.len() == outcomes@.len()
            &&& forall|i: int|
                0 <= i < outcomes@.len() ==> #[trigger] schemas@[i] == outcomes@[i]->Ok_0
        }),
        !all_ok(outcomes@) ==> (r matches Err(e) && exists|k: int|
            first_error_at(outcomes@, k) && e == outcomes@[k]->Err_0),
{
    let ghost original = outcomes@;
    let mut remaining = outcomes;
    let mut schemas: Vec<JsonValue> = Vec::new();
    while remaining.len() > 0
        invariant
            original == outcomes@,
            schemas@.len() + remaining@.len() == original.len(),
            remaining@ == original.skip(schemas@.len() as int),
            forall|j: int|
                0 <= j < schemas@.len() ==> #[trigger] original[j] is Ok && schemas@[j]
                    == original[j]->Ok_0,
        decreases remaining.len(),
    {
        let ghost k = schemas@.len() as int;
        proof {
            assert(original.skip(k)[0] == original[k]);
        }
        let outcome = remaining.remove(0);
        proof {
            assert(remaining@ =~= original.skip(k + 1));
            assert(outcome == original[k]);
        }
        match outcome {
            Ok(schema) => schemas.push(schema),
            Err(error) => {
                proof {
                    assert(original[k] == Err::<JsonValue, BlockError>(error));
                    assert(first_error_at(original, k));
                    assert(!all_ok(original));
                    assert(error == original[k]->Err_0);
                }
                return Err(error);
            },
        }
    }
    proof {
        assert(schemas@.len() == original.len());
        assert(all_ok(original));
    }
    Ok(schemas)
}

/// The handler for the database-schema block kind. It carries no
/// per-invocation state of its own.
#[derive(Clone, Copy)]
pub struct DatabaseSchema {}

impl DatabaseSchema {
    /// Builds the block from its parsed configuration-language form;
    /// this block kind carries nothing of it, so parsing always
    /// succeeds.
    pub fn parse() -> (r: Result<DatabaseSchema, BlockError>)
        ensures
            r is Ok,
    {
        Ok(DatabaseSchema {  })
    }

    /// Which kind of block this is.
    pub fn block_type(&self) -> (t: BlockType)
        ensures
            t == BlockType::DatabaseSchema,
    {
        BlockType::DatabaseSchema
    }

    /// The stable identity of this block kind: the hex digest of the
    /// fixed kind tag. No configuration is mixed in, so the result is
    /// one fixed value across invocations.
    pub fn inner_hash(&self) -> (r: String)
        ensures
            r@ == blake3_hex_of("database_schema"@),
            r@.len() == 64,
    {
        blake3_hex("database_schema")
    }

    /// Wraps the gathered schemas as the block's result: on success
    /// the value is the schema sequence in request order and `meta` is
    /// absent; on any failure, the first error and nothing else.
    pub fn collect_result(&self, outcomes: Vec<Result<JsonValue, BlockError>>) -> (r: Result<
        BlockResult,
        BlockError,
    >)
        ensures
            all_ok(outcomes@) ==> (r matches Ok(b) && {
                &&& b.meta is None
                &&& b.value matches JsonValue::Array(schemas) && schemas@.len() == outcomes@.len()
                    && forall|i: int|
                    0 <= i < outcomes@.len() ==> #[trigger] schemas@[i] == outcomes@[i]->Ok_0
            }),
            !all_ok(outcomes@) ==> (r matches Err(e) && exists|k: int|
                first_error_at(outcomes@, k) && e == outcomes@[k]->Err_0),
    {
        match collect_schemas(outcomes) {
            Ok(schemas) => Ok(BlockResult { value: JsonValue::Array(schemas), meta: None }),
            Err(error) => Err(error),
        }
    }
}

/// The identity hash is constant: any two results of `inner_hash`,
/// from any two invocations and whatever configuration either carried,
/// read the same.
pub proof fn lemma_identity_hash_constant(h1: Seq<char>, h2: Seq<char>)
    requires
        h1 == blake3_hex_of("database_schema"@),
        h2 == blake3_hex_of("database_schema"@),
    ensures
        h1 == h2,
{
}

} // verus!
