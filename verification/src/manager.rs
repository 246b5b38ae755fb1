//! The sandbox manager: which requester has which sandbox.

use crate::credential::Credential;
use crate::engine::{texts, EngineCall};
use crate::key::{supplied_view, SuppliedKey};
use crate::model::{
    create, destroy, engine_failure, resume, run, sweep, sweep_on, Run, Sandboxes,
};
use crate::protocol::{
    replies_view, requests_view, Error, Outcome, Pending, Reply, Request, RequestView, Step,
};
use crate::sandbox::{Sandbox, SANDBOX_IMAGE};
use std::collections::HashMap;
use vstd::prelude::*;
use vstd::string::StringExecFns;

verus! {

broadcast use vstd::std_specs::hash::group_hash_axioms;

/// The sandboxes that are active, one at most for each requester.
///
/// The manager holds no handle to the engine and no key. Whoever drives it
/// keeps it to themselves for the length of an operation.
pub struct SandboxManager {
    map: HashMap<u64, Sandbox>,
}

impl View for SandboxManager {
    type V = Sandboxes;

    closed spec fn view(&self) -> Sandboxes {
        self.map@.map_values(|sandbox: Sandbox| sandbox@)
    }
}

/// The step that has failed because an engine call was not answered by the
/// success it waited for.
fn engine_failed(reply: Reply) -> (step: Step)
    ensures
        step@ == engine_failure(reply@),
{
    match reply {
        Reply::Failed { reason } => Step::Done(Outcome::Failed(Error::Engine { reason })),
        _ => Step::Done(Outcome::Failed(Error::UnexpectedReply)),
    }
}

/// The step of a sweep that has `ids` left to remove.
fn sweep_step(ids: Vec<String>) -> (step: Step)
    ensures
        step@ == sweep_on(texts(ids@)),
{
    let mut remaining = ids;
    if remaining.len() == 0 {
        Step::Done(Outcome::Swept)
    } else {
        let id = remaining.remove(0);
        assert(texts(remaining@) =~= texts(ids@).drop_first());
        Step::Perform {
            request: Request::Engine(EngineCall::Remove { id, force: true }),
            pending: Pending::Sweep { remaining },
        }
    }
}

impl SandboxManager {
    /// A manager with no sandbox.
    pub fn new() -> (manager: SandboxManager)
        ensures
            manager@ == Sandboxes::empty(),
    {
        let manager = SandboxManager { map: HashMap::new() };
        assert(manager@ =~= Sandboxes::empty());
        manager
    }

    /// The port of `id`'s sandbox, if they have one.
    pub fn find_sandbox(&self, id: u64) -> (port: Option<u16>)
        ensures
            port == if self@.contains_key(id) {
                Some(self@[id].port)
            } else {
                None
            },
    {
        match self.map.get(&id) {
            Some(sandbox) => Some(sandbox.port()),
            None => None,
        }
    }

    /// Begins creating a sandbox for `id`, who trusts `supplied` or, without
    /// it, a keypair generated for them. The mapping is read and not changed;
    /// it is borrowed for writing so that whoever begins a create already
    /// holds the manager as they must until the create has ended.
    pub fn create_sandbox(&mut self, id: u64, supplied: Option<SuppliedKey>) -> (step: Step)
        ensures
            final(self)@ == old(self)@,
            step@ == create(old(self)@, id, supplied_view(supplied)),
    {
        match self.map.get(&id) {
            Some(sandbox) => Step::Done(Outcome::AlreadyActive { port: sandbox.port() }),
            None => {
                let request = Credential::request(&supplied);
                Step::Perform { request, pending: Pending::Key { requester: id, supplied } }
            },
        }
    }

    /// Begins destroying `id`'s sandbox.
    pub fn destroy_sandbox(&mut self, id: u64) -> (step: Step)
        ensures
            (final(self)@, step@) == destroy(old(self)@, id),
    {
        match self.map.remove(&id) {
            Some(sandbox) => {
                assert(self@ =~= old(self)@.remove(id));
                Step::Perform {
                    request: Request::Engine(sandbox.teardown()),
                    pending: Pending::Destroy,
                }
            },
            None => {
                assert(self@ =~= old(self)@);
                Step::Done(Outcome::Destroyed { existed: false })
            },
        }
    }

    /// Begins removing every container of the sandbox image, those of an
    /// earlier run included. The mapping is neither read nor changed.
    pub fn teardown(&self) -> (step: Step)
        ensures
            step@ == sweep(),
    {
        Step::Perform {
            request: Request::Engine(
                EngineCall::List { ancestor: String::from_str(SANDBOX_IMAGE), all: true },
            ),
            pending: Pending::Listing,
        }
    }

    /// Resumes the operation that waits with `pending`, on `reply`.
    pub fn resume(&mut self, pending: Pending, reply: Reply) -> (step: Step)
        ensures
            (final(self)@, step@) == resume(old(self)@, pending@, reply@),
    {
        match pending {
            Pending::Key { requester, supplied } => match Credential::resolve(supplied, reply) {
                Ok(credential) => Step::Perform {
                    request: Request::AllocatePort,
                    pending: Pending::Port { requester, credential },
                },
                Err(error) => Step::Done(Outcome::Failed(error)),
            },
            Pending::Port { requester, credential } => match reply {
                Reply::PortAllocated { port } => {
                    let config = Sandbox::config(port, credential.line.as_str());
                    Step::Perform {
                        request: Request::Engine(EngineCall::Create { config }),
                        pending: Pending::Create { requester, port, keypair: credential.keypair },
                    }
                },
                Reply::Failed { reason } => Step::Done(
                    Outcome::Failed(Error::Allocation { reason }),
                ),
                _ => Step::Done(Outcome::Failed(Error::UnexpectedReply)),
            },
            Pending::Create { requester, port, keypair } => match reply {
                Reply::Created { id } => {
                    let sandbox = Sandbox::new(id, port);
                    Step::Perform {
                        request: Request::Engine(sandbox.start()),
                        pending: Pending::Start { requester, sandbox, keypair },
                    }
                },
                other => engine_failed(other),
            },
            Pending::Start { requester, sandbox, keypair } => match reply {
                Reply::Started => {
                    let port = sandbox.port();
                    self.map.insert(requester, sandbox);
                    assert(self@ =~= old(self)@.insert(requester, sandbox@));
                    Step::Done(Outcome::Created { port, keypair })
                },
                other => engine_failed(other),
            },
            Pending::Destroy => match reply {
                Reply::Removed => Step::Done(Outcome::Destroyed { existed: true }),
                other => engine_failed(other),
            },
            Pending::Listing => match reply {
                Reply::Listed { ids } => sweep_step(ids),
                other => engine_failed(other),
            },
            Pending::Sweep { remaining } => match reply {
                Reply::Removed => sweep_step(remaining),
                other => engine_failed(other),
            },
        }
    }

    /// Drives the operation that `first` begins with replies that are already
    /// at hand, one for each request in turn, until the operation ends or the
    /// replies do. Returns the requests that were answered, in order, and the
    /// step at which the operation then stands.
    pub fn replay(&mut self, first: Step, replies: Vec<Reply>) -> (record: (Vec<Request>, Step))
        ensures
            run(old(self)@, first@, replies_view(replies@)) == (Run {
                sandboxes: final(self)@,
                requests: requests_view(record.0@),
                end: record.1@,
            }),
    {
        let ghost whole = run(self@, first@, replies_view(replies@));
        let mut requests: Vec<Request> = Vec::new();
        let mut replies = replies;
        let mut step = first;
        loop
            invariant
                ({
                    let rest = run(self@, step@, replies_view(replies@));
                    whole == (Run {
                        sandboxes: rest.sandboxes,
                        requests: requests_view(requests@) + rest.requests,
                        end: rest.end,
                    })
                }),
            ensures
                whole == (Run {
                    sandboxes: self@,
                    requests: requests_view(requests@),
                    end: step@,
                }),
            decreases replies.len(),
        {
            if replies.len() == 0 {
                assert(requests_view(requests@) + Seq::<RequestView>::empty() =~= requests_view(
                    requests@,
                ));
                break ;
            }
            match step {
                Step::Done(outcome) => {
                    step = Step::Done(outcome);
                    assert(requests_view(requests@) + Seq::<RequestView>::empty()
                        =~= requests_view(requests@));
                    break ;
                },
                Step::Perform { request, pending } => {
                    let ghost before = replies_view(replies@);
                    let ghost answered = requests_view(requests@);
                    let reply = replies.remove(0);
                    assert(replies_view(replies@) =~= before.drop_first());
                    requests.push(request);
                    assert(requests_view(requests@) =~= answered + seq![request@]);
                    step = self.resume(pending, reply);
                    let ghost rest = run(self@, step@, replies_view(replies@));
                    assert(answered + (seq![request@] + rest.requests) =~= (answered
                        + seq![request@]) + rest.requests);
                },
            }
        }
        (requests, step)
    }
}

} // verus!
