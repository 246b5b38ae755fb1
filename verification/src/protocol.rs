//! What passes between the manager and whoever drives it.
//!
//! An operation yields a [`Step`]: either the work to perform next, together
//! with what the operation is then waiting for, or its outcome. The work is a
//! [`Request`]; what came of it is a [`Reply`].

use crate::engine::{texts, EngineCall, EngineCallView};
use crate::credential::{Credential, CredentialView};
use crate::key::{
    generated_view, supplied_view, GeneratedKey, GeneratedKeyView, PublicKey, PublicKeyView,
    SuppliedKey, SuppliedKeyView,
};
use crate::sandbox::{Sandbox, SandboxView};
use vstd::prelude::*;

verus! {

/// Work that the manager cannot do itself.
#[derive(Debug, PartialEq, Eq)]
pub enum Request {
    /// Generate a keypair of the fixed algorithm.
    GenerateKey,
    /// Decode a supplied public key from base64.
    DecodeKey { body: String },
    /// Find a port that is unused on the host.
    AllocatePort,
    /// Make a call to the container engine.
    Engine(EngineCall),
}

pub enum RequestView {
    GenerateKey,
    DecodeKey { body: Seq<char> },
    AllocatePort,
    Engine(EngineCallView),
}

impl View for Request {
    type V = RequestView;

    open spec fn view(&self) -> RequestView {
        match self {
            Request::GenerateKey => RequestView::GenerateKey,
            Request::DecodeKey { body } => RequestView::DecodeKey { body: body@ },
            Request::AllocatePort => RequestView::AllocatePort,
            Request::Engine(call) => RequestView::Engine(call@),
        }
    }
}

/// What came of a request.
pub enum Reply {
    /// A keypair was generated.
    KeyGenerated { keypair: GeneratedKey },
    /// The supplied key decoded, to this key.
    KeyDecoded { key: PublicKey },
    /// The supplied key did not decode.
    KeyRejected,
    /// The host had this port unused.
    PortAllocated { port: u16 },
    /// The engine created a container and gave it this identity.
    Created { id: String },
    /// The engine started the container.
    Started,
    /// The engine removed the container.
    Removed,
    /// The engine listed these containers.
    Listed { ids: Vec<String> },
    /// The work failed, for this reason.
    Failed { reason: String },
}

pub enum ReplyView {
    KeyGenerated { keypair: GeneratedKeyView },
    KeyDecoded { key: PublicKeyView },
    KeyRejected,
    PortAllocated { port: u16 },
    Created { id: Seq<char> },
    Started,
    Removed,
    Listed { ids: Seq<Seq<char>> },
    Failed { reason: Seq<char> },
}

impl View for Reply {
    type V = ReplyView;

    open spec fn view(&self) -> ReplyView {
        match self {
            Reply::KeyGenerated { keypair } => ReplyView::KeyGenerated { keypair: keypair@ },
            Reply::KeyDecoded { key } => ReplyView::KeyDecoded { key: key@ },
            Reply::KeyRejected => ReplyView::KeyRejected,
            Reply::PortAllocated { port } => ReplyView::PortAllocated { port: *port },
            Reply::Created { id } => ReplyView::Created { id: id@ },
            Reply::Started => ReplyView::Started,
            Reply::Removed => ReplyView::Removed,
            Reply::Listed { ids } => ReplyView::Listed { ids: texts(ids@) },
            Reply::Failed { reason } => ReplyView::Failed { reason: reason@ },
        }
    }
}

/// The views of a list of requests.
pub open spec fn requests_view(requests: Seq<Request>) -> Seq<RequestView> {
    requests.map_values(|request: Request| request@)
}

/// The views of a list of replies.
pub open spec fn replies_view(replies: Seq<Reply>) -> Seq<ReplyView> {
    replies.map_values(|reply: Reply| reply@)
}

/// Why an operation failed.
#[derive(Debug, PartialEq, Eq)]
pub enum Error {
    /// No unused port could be had.
    Allocation { reason: String },
    /// The supplied public key is malformed.
    InvalidKey,
    /// A call to the container engine failed.
    Engine { reason: String },
    /// The reply does not answer the request that was pending.
    UnexpectedReply,
}

pub enum ErrorView {
    Allocation { reason: Seq<char> },
    InvalidKey,
    Engine { reason: Seq<char> },
    UnexpectedReply,
}

impl View for Error {
    type V = ErrorView;

    open spec fn view(&self) -> ErrorView {
        match self {
            Error::Allocation { reason } => ErrorView::Allocation { reason: reason@ },
            Error::InvalidKey => ErrorView::InvalidKey,
            Error::Engine { reason } => ErrorView::Engine { reason: reason@ },
            Error::UnexpectedReply => ErrorView::UnexpectedReply,
        }
    }
}

/// What an operation in flight is waiting for, and what it has so far.
pub enum Pending {
    /// A create waits for its key to be generated or decoded.
    Key { requester: u64, supplied: Option<SuppliedKey> },
    /// A create waits for a port.
    Port { requester: u64, credential: Credential },
    /// A create waits for its container to be created.
    Create { requester: u64, port: u16, keypair: Option<GeneratedKey> },
    /// A create waits for its container to be started.
    Start { requester: u64, sandbox: Sandbox, keypair: Option<GeneratedKey> },
    /// A destroy waits for its container to be removed.
    Destroy,
    /// A sweep waits for the list of containers.
    Listing,
    /// A sweep waits for a container to be removed; `remaining` come after it.
    Sweep { remaining: Vec<String> },
}

pub enum PendingView {
    Key { requester: u64, supplied: Option<SuppliedKeyView> },
    Port { requester: u64, credential: CredentialView },
    Create { requester: u64, port: u16, keypair: Option<GeneratedKeyView> },
    Start { requester: u64, sandbox: SandboxView, keypair: Option<GeneratedKeyView> },
    Destroy,
    Listing,
    Sweep { remaining: Seq<Seq<char>> },
}

impl View for Pending {
    type V = PendingView;

    open spec fn view(&self) -> PendingView {
        match self {
            Pending::Key { requester, supplied } => PendingView::Key {
                requester: *requester,
                supplied: supplied_view(*supplied),
            },
            Pending::Port { requester, credential } => PendingView::Port {
                requester: *requester,
                credential: credential@,
            },
            Pending::Create { requester, port, keypair } => PendingView::Create {
                requester: *requester,
                port: *port,
                keypair: generated_view(*keypair),
            },
            Pending::Start { requester, sandbox, keypair } => PendingView::Start {
                requester: *requester,
                sandbox: sandbox@,
                keypair: generated_view(*keypair),
            },
            Pending::Destroy => PendingView::Destroy,
            Pending::Listing => PendingView::Listing,
            Pending::Sweep { remaining } => PendingView::Sweep { remaining: texts(remaining@) },
        }
    }
}

/// How an operation ended.
pub enum Outcome {
    /// A sandbox was created and started, reachable at `port`. Where its
    /// keypair was generated, this is the one time it is handed out.
    Created { port: u16, keypair: Option<GeneratedKey> },
    /// The requester has a sandbox already, at `port`; nothing was done.
    AlreadyActive { port: u16 },
    /// The requester's sandbox was destroyed, or there was none.
    Destroyed { existed: bool },
    /// Every listed container was removed.
    Swept,
    /// The operation failed; what it had done so far stands.
    Failed(Error),
}

pub enum OutcomeView {
    Created { port: u16, keypair: Option<GeneratedKeyView> },
    AlreadyActive { port: u16 },
    Destroyed { existed: bool },
    Swept,
    Failed(ErrorView),
}

impl View for Outcome {
    type V = OutcomeView;

    open spec fn view(&self) -> OutcomeView {
        match self {
            Outcome::Created { port, keypair } => OutcomeView::Created {
                port: *port,
                keypair: generated_view(*keypair),
            },
            Outcome::AlreadyActive { port } => OutcomeView::AlreadyActive { port: *port },
            Outcome::Destroyed { existed } => OutcomeView::Destroyed { existed: *existed },
            Outcome::Swept => OutcomeView::Swept,
            Outcome::Failed(error) => OutcomeView::Failed(error@),
        }
    }
}

/// One step of an operation.
pub enum Step {
    /// Perform `request`, then resume the operation with `pending` and the
    /// reply.
    Perform { request: Request, pending: Pending },
    /// The operation has ended.
    Done(Outcome),
}

pub enum StepView {
    Perform { request: RequestView, pending: PendingView },
    Done(OutcomeView),
}

impl View for Step {
    type V = StepView;

    open spec fn view(&self) -> StepView {
        match self {
            Step::Perform { request, pending } => StepView::Perform {
                request: request@,
                pending: pending@,
            },
            Step::Done(outcome) => StepView::Done(outcome@),
        }
    }
}

} // verus!
