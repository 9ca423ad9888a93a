//! Schema resolution for one request, written as a state machine: the
//! remote calls (project resolution, database load, schema computation)
//! are suspension points performed by the caller, and `resolve_step`
//! makes every decision between them. Each transition is pinned by the
//! relation `resolve_step_spec`.

use vstd::prelude::*;
use crate::config::DatabaseRequest;
use crate::error::{
    not_found_error, not_found_message, schema_error, schema_error_message, BlockError,
};
use crate::json::JsonValue;

verus! {

/// The resolved physical-storage handle backing a data source, held
/// here as its plain identifier.
#[derive(Clone, Copy, PartialEq, Eq, Structural, Debug)]
pub struct Project {
    pub project_id: u64,
}

/// Where one resolution stands between remote calls.
#[derive(Debug)]
pub enum ResolveState {
    /// Waiting for the owning project of (workspace, data source).
    ResolvingProject,
    /// Waiting for the database object to be loaded from the store.
    LoadingDatabase { project: Project },
    /// Waiting for the loaded database to compute its schema.
    FetchingSchema { project: Project },
    /// Resolution succeeded with this schema.
    Done { schema: JsonValue },
    /// Resolution failed; no further step changes this.
    Failed { error: BlockError },
}

/// What one remote call answered. An `Err` carries the collaborator's
/// own message; `DatabaseLoaded(Ok(false))` means the store answered
/// that no such database exists.
#[derive(Debug)]
pub enum ResolveEvent {
    ProjectResolved(Result<Project, String>),
    DatabaseLoaded(Result<bool, String>),
    SchemaFetched(Result<JsonValue, String>),
}

/// The transition relation of one resolution: from `state`, on
/// `event`, the next state is `next`. An event that does not answer
/// the pending call, or arrives in a terminal state, changes nothing.
pub open spec fn resolve_step_spec(
    req: DatabaseRequest,
    state: ResolveState,
    event: ResolveEvent,
    next: ResolveState,
) -> bool {
    match (state, event) {
        (ResolveState::ResolvingProject, ResolveEvent::ProjectResolved(outcome)) => match outcome {
            Ok(project) => next == (ResolveState::LoadingDatabase { project }),
            Err(message) => next == (ResolveState::Failed {
                error: BlockError::ProjectResolution { message },
            }),
        },
        (ResolveState::LoadingDatabase { project }, ResolveEvent::DatabaseLoaded(outcome)) => match outcome {
            Ok(found) => if found {
                next == (ResolveState::FetchingSchema { project })
            } else {
                next matches ResolveState::Failed { error } && (error matches BlockError::NotFound {
                    message,
                } && message@ == not_found_message(req.database_id@, req.data_source_id@))
            },
            Err(message) => next == (ResolveState::Failed {
                error: BlockError::Store { message },
            }),
        },
        (ResolveState::FetchingSchema { .. }, ResolveEvent::SchemaFetched(outcome)) => match outcome {
            Ok(schema) => next == (ResolveState::Done { schema }),
            Err(cause) => next matches ResolveState::Failed { error } && (error matches
                BlockError::Schema { message } && message@ == schema_error_message(
                req.database_id@,
                req.data_source_id@,
                cause@,
            )),
        },
        _ => next == state,
    }
}

/// Advances one resolution by one remote answer. Project-resolution
/// and store-transport failures are propagated unchanged; a missing
/// database and a failed schema computation get the errors naming both
/// identifiers.
pub fn resolve_step(req: &DatabaseRequest, state: ResolveState, event: ResolveEvent) -> (next:
    ResolveState)
    ensures
        resolve_step_spec(*req, state, event, next),
{
    match (state, event) {
        (ResolveState::ResolvingProject, ResolveEvent::ProjectResolved(outcome)) => match outcome {
            Ok(project) => ResolveState::LoadingDatabase { project },
            Err(message) => ResolveState::Failed {
                error: BlockError::ProjectResolution { message },
            },
        },
        (ResolveState::LoadingDatabase { project }, ResolveEvent::DatabaseLoaded(outcome)) => match outcome {
            Ok(true) => ResolveState::FetchingSchema { project },
            Ok(false) => ResolveState::Failed {
                error: not_found_error(req.database_id.as_str(), req.data_source_id.as_str()),
            },
            Err(message) => ResolveState::Failed { error: BlockError::Store { message } },
        },
        (ResolveState::FetchingSchema { project: _ }, ResolveEvent::SchemaFetched(outcome)) => match outcome {
            Ok(schema) => ResolveState::Done { schema },
            Err(cause) => ResolveState::Failed {
                error: schema_error(
                    req.database_id.as_str(),
                    req.data_source_id.as_str(),
                    cause.as_str(),
                ),
            },
        },
        (other, _) => other,
    }
}

/// Two resolution states agree: equal, except that failures need only
/// agree on the error's variant and message text.
pub open spec fn state_equiv(a: ResolveState, b: ResolveState) -> bool {
    match (a, b) {
        (ResolveState::Failed { error: e1 }, ResolveState::Failed { error: e2 }) => {
            &&& e1.spec_message() == e2.spec_message()
            &&& (e1 is Config <==> e2 is Config)
            &&& (e1 is ProjectResolution <==> e2 is ProjectResolution)
            &&& (e1 is NotFound <==> e2 is NotFound)
            &&& (e1 is Schema <==> e2 is Schema)
            &&& (e1 is Store <==> e2 is Store)
        },
        _ => a == b,
    }
}

/// One step keeps agreement: from agreeing states, the same remote
/// answer leads to agreeing states.
pub proof fn lemma_step_preserves_equiv(
    req: DatabaseRequest,
    s1: ResolveState,
    s2: ResolveState,
    event: ResolveEvent,
    n1: ResolveState,
    n2: ResolveState,
)
    requires
        state_equiv(s1, s2),
        resolve_step_spec(req, s1, event, n1),
        resolve_step_spec(req, s2, event, n2),
    ensures
        state_equiv(n1, n2),
{
}

/// A complete resolution: `states` starts at `ResolvingProject` and
/// each remote answer in `events` drives one transition.
pub open spec fn run_resolution(
    req: DatabaseRequest,
    states: Seq<ResolveState>,
    events: Seq<ResolveEvent>,
) -> bool {
    &&& states.len() == events.len() + 1
    &&& states[0] is ResolvingProject
    &&& forall|i: int|
        0 <= i < events.len() ==> resolve_step_spec(
            req,
            states[i],
            #[trigger] events[i],
            states[i + 1],
        )
}

/// Resolving the same request twice against unchanged data is
/// idempotent: two runs fed the same remote answers pass through
/// agreeing states throughout; in particular, if both end in `Done`,
/// they end with equal schemas.
pub proof fn lemma_resolution_idempotent(
    req: DatabaseRequest,
    states1: Seq<ResolveState>,
    states2: Seq<ResolveState>,
    events: Seq<ResolveEvent>,
)
    requires
        run_resolution(req, states1, events),
        run_resolution(req, states2, events),
    ensures
        forall|i: int| 0 <= i < states1.len() ==> state_equiv(#[trigger] states1[i], states2[i]),
        states1[events.len() as int] is Done ==> states1[events.len() as int] == states2[
            events.len() as int
        ],
    decreases events.len(),
{
    if events.len() == 0 {
        assert(state_equiv(states1[0], states2[0]));
    } else {
        let shorter = events.len() - 1;
        let prefix1 = states1.take(shorter + 1);
        let prefix2 = states2.take(shorter + 1);
        let fewer = events.take(shorter);
        assert(run_resolution(req, prefix1, fewer)) by {
            assert forall|i: int| 0 <= i < fewer.len() implies resolve_step_spec(
                req,
                prefix1[i],
                #[trigger] fewer[i],
                prefix1[i + 1],
            ) by {
                assert(resolve_step_spec(req, states1[i], events[i], states1[i + 1]));
            }
        }
        assert(run_resolution(req, prefix2, fewer)) by {
            assert forall|i: int| 0 <= i < fewer.len() implies resolve_step_spec(
                req,
                prefix2[i],
                #[trigger] fewer[i],
                prefix2[i + 1],
            ) by {
                assert(resolve_step_spec(req, states2[i], events[i], states2[i + 1]));
            }
        }
        lemma_resolution_idempotent(req, prefix1, prefix2, fewer);
        assert(resolve_step_spec(req, states1[shorter], events[shorter], states1[shorter + 1]));
        assert(resolve_step_spec(req, states2[shorter], events[shorter], states2[shorter + 1]));
        lemma_step_preserves_equiv(
            req,
            states1[shorter],
            states2[shorter],
            events[shorter],
            states1[shorter + 1],
            states2[shorter + 1],
        );
        assert forall|i: int| 0 <= i < states1.len() implies state_equiv(
            #[trigger] states1[i],
            states2[i],
        ) by {
            if i < states1.len() - 1 {
                assert(state_equiv(prefix1[i], prefix2[i]));
            }
        }
    }
}

} // verus!
