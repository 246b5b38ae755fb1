//! The manager as a state machine over plain mathematical values.
//!
//! The state is the set of active sandboxes, one at most for each requester.
//! An operation begins with [`create`], [`destroy`] or [`sweep`] and goes on
//! with [`resume`], until its step is `Done`. [`run`] is a whole operation:
//! a step driven by one reply after the other.

use crate::credential::{key_request, resolved};
use crate::engine::EngineCallView;
use crate::key::SuppliedKeyView;
use crate::protocol::{ErrorView, OutcomeView, PendingView, ReplyView, RequestView, StepView};
use crate::sandbox::{sandbox_config, SandboxView, SANDBOX_IMAGE};
use vstd::prelude::*;

verus! {

/// The active sandboxes, by requester.
pub type Sandboxes = Map<u64, SandboxView>;

/// The step that has failed with `error`.
pub open spec fn failed(error: ErrorView) -> StepView {
    StepView::Done(OutcomeView::Failed(error))
}

/// The step that makes `call` to the engine and then waits with `pending`.
pub open spec fn call_engine(call: EngineCallView, pending: PendingView) -> StepView {
    StepView::Perform { request: RequestView::Engine(call), pending }
}

/// Begins a create for `requester`.
///
/// Where the requester has a sandbox, nothing is to be done, and the step
/// says at which port it is. Otherwise the credential is resolved first.
pub open spec fn create(
    sandboxes: Sandboxes,
    requester: u64,
    supplied: Option<SuppliedKeyView>,
) -> StepView {
    if sandboxes.contains_key(requester) {
        StepView::Done(OutcomeView::AlreadyActive { port: sandboxes[requester].port })
    } else {
        StepView::Perform {
            request: key_request(supplied),
            pending: PendingView::Key { requester, supplied },
        }
    }
}

/// Begins a destroy for `requester`.
///
/// The requester's entry leaves the mapping at once; its container is then
/// removed by force. Where there is no entry, nothing is to be done.
pub open spec fn destroy(sandboxes: Sandboxes, requester: u64) -> (Sandboxes, StepView) {
    if sandboxes.contains_key(requester) {
        (
            sandboxes.remove(requester),
            call_engine(
                EngineCallView::Remove { id: sandboxes[requester].id, force: true },
                PendingView::Destroy,
            ),
        )
    } else {
        (sandboxes, StepView::Done(OutcomeView::Destroyed { existed: false }))
    }
}

/// Begins a sweep: the engine is asked for every container of the sandbox
/// image, in whatever state, whether the mapping knows it or not.
pub open spec fn sweep() -> StepView {
    call_engine(
        EngineCallView::List { ancestor: SANDBOX_IMAGE@, all: true },
        PendingView::Listing,
    )
}

/// The step of a sweep that has `ids` left to remove.
pub open spec fn sweep_on(ids: Seq<Seq<char>>) -> StepView {
    if ids.len() == 0 {
        StepView::Done(OutcomeView::Swept)
    } else {
        call_engine(
            EngineCallView::Remove { id: ids[0], force: true },
            PendingView::Sweep { remaining: ids.drop_first() },
        )
    }
}

/// The step that follows when an engine call is answered by `reply` and that
/// is not the success it waited for.
pub open spec fn engine_failure(reply: ReplyView) -> StepView {
    match reply {
        ReplyView::Failed { reason } => failed(ErrorView::Engine { reason }),
        _ => failed(ErrorView::UnexpectedReply),
    }
}

/// Resumes the operation that waits with `pending`, on `reply`.
///
/// A create goes from key to port to container to start, and enters the
/// mapping only when its container has started. A failure on the way ends the
/// operation where it stands: nothing is undone.
pub open spec fn resume(sandboxes: Sandboxes, pending: PendingView, reply: ReplyView) -> (
    Sandboxes,
    StepView,
) {
    match pending {
        PendingView::Key { requester, supplied } => (
            sandboxes,
            match resolved(supplied, reply) {
                Ok(credential) => StepView::Perform {
                    request: RequestView::AllocatePort,
                    pending: PendingView::Port { requester, credential },
                },
                Err(error) => failed(error),
            },
        ),
        PendingView::Port { requester, credential } => (
            sandboxes,
            match reply {
                ReplyView::PortAllocated { port } => call_engine(
                    EngineCallView::Create { config: sandbox_config(port, credential.line) },
                    PendingView::Create { requester, port, keypair: credential.keypair },
                ),
                ReplyView::Failed { reason } => failed(ErrorView::Allocation { reason }),
                _ => failed(ErrorView::UnexpectedReply),
            },
        ),
        PendingView::Create { requester, port, keypair } => (
            sandboxes,
            match reply {
                ReplyView::Created { id } => call_engine(
                    EngineCallView::Start { id },
                    PendingView::Start { requester, sandbox: SandboxView { id, port }, keypair },
                ),
                _ => engine_failure(reply),
            },
        ),
        PendingView::Start { requester, sandbox, keypair } => match reply {
            ReplyView::Started => (
                sandboxes.insert(requester, sandbox),
                StepView::Done(OutcomeView::Created { port: sandbox.port, keypair }),
            ),
            _ => (sandboxes, engine_failure(reply)),
        },
        PendingView::Destroy => (
            sandboxes,
            match reply {
                ReplyView::Removed => StepView::Done(OutcomeView::Destroyed { existed: true }),
                _ => engine_failure(reply),
            },
        ),
        PendingView::Listing => (
            sandboxes,
            match reply {
                ReplyView::Listed { ids } => sweep_on(ids),
                _ => engine_failure(reply),
            },
        ),
        PendingView::Sweep { remaining } => (
            sandboxes,
            match reply {
                ReplyView::Removed => sweep_on(remaining),
                _ => engine_failure(reply),
            },
        ),
    }
}

/// Where a run has come to.
pub struct Run {
    /// The active sandboxes.
    pub sandboxes: Sandboxes,
    /// The requests that were made and answered, in order.
    pub requests: Seq<RequestView>,
    /// The step that the run stands at: the outcome, or the request that no
    /// reply was left for.
    pub end: StepView,
}

/// Drives `step` with `replies`, one for each request in turn, until the
/// operation ends or the replies do.
pub open spec fn run(sandboxes: Sandboxes, step: StepView, replies: Seq<ReplyView>) -> Run
    decreases replies.len(),
{
    match step {
        StepView::Perform { request, pending } if replies.len() > 0 => {
            let next = resume(sandboxes, pending, replies[0]);
            let rest = run(next.0, next.1, replies.drop_first());
            Run {
                sandboxes: rest.sandboxes,
                requests: seq![request] + rest.requests,
                end: rest.end,
            }
        },
        _ => Run { sandboxes, requests: Seq::empty(), end: step },
    }
}

} // verus!
