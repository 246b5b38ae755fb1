//! What holds of the manager whatever it is asked and whatever comes back.
//!
//! The laws speak of whole operations, as [`run`] drives them.

use crate::credential::{key_request, resolved};
use crate::engine::EngineCallView;
use crate::key::SuppliedKeyView;
use crate::model::{
    call_engine, create, destroy, resume, run, sweep, sweep_on, Run, Sandboxes,
};
use crate::protocol::{ErrorView, OutcomeView, PendingView, ReplyView, RequestView, StepView};
use crate::sandbox::{sandbox_config, SandboxView, SANDBOX_IMAGE};
use vstd::prelude::*;

verus! {

/// The request that removes the container `id` by force.
pub open spec fn removal(id: Seq<char>) -> RequestView {
    RequestView::Engine(EngineCallView::Remove { id, force: true })
}

/// No two active sandboxes have the same port.
pub open spec fn ports_distinct(sandboxes: Sandboxes) -> bool {
    forall|a: u64, b: u64|
        sandboxes.contains_key(a) && sandboxes.contains_key(b) && a != b
            ==> sandboxes[a].port != sandboxes[b].port
}

/// No active sandbox of another requester has `port`.
pub open spec fn port_free(sandboxes: Sandboxes, requester: u64, port: u16) -> bool {
    forall|other: u64|
        sandboxes.contains_key(other) && other != requester ==> sandboxes[other].port != port
}

/// A create that succeeds has made exactly four requests, in this order: for
/// the key, for a port, for the container to be created on that port with
/// that key, for the container to be started. Only then is the requester
/// entered, with that container and port, and nobody else's entry changes.
pub proof fn law_create_provisions_once(
    sandboxes: Sandboxes,
    requester: u64,
    supplied: Option<SuppliedKeyView>,
    replies: Seq<ReplyView>,
)
    requires
        run(sandboxes, create(sandboxes, requester, supplied), replies).end matches StepView::Done(
            OutcomeView::Created { .. },
        ),
    ensures
        ({
            let ran = run(sandboxes, create(sandboxes, requester, supplied), replies);
            &&& !sandboxes.contains_key(requester)
            &&& replies.len() >= 4
            &&& resolved(supplied, replies[0]) matches Ok(credential)
            &&& replies[1] matches ReplyView::PortAllocated { port }
            &&& replies[2] matches ReplyView::Created { id }
            &&& replies[3] == ReplyView::Started
            &&& ran.requests == seq![
                key_request(supplied),
                RequestView::AllocatePort,
                RequestView::Engine(
                    EngineCallView::Create { config: sandbox_config(port, credential.line) },
                ),
                RequestView::Engine(EngineCallView::Start { id }),
            ]
            &&& ran.sandboxes == sandboxes.insert(requester, SandboxView { id, port })
            &&& ran.end == StepView::Done(
                OutcomeView::Created { port, keypair: credential.keypair },
            )
        }),
{
    reveal_with_fuel(run, 6);
    let ran = run(sandboxes, create(sandboxes, requester, supplied), replies);
    let credential = resolved(supplied, replies[0])->Ok_0;
    let port = replies[1]->PortAllocated_port;
    let id = replies[2]->Created_id;
    assert(ran.requests =~= seq![
        key_request(supplied),
        RequestView::AllocatePort,
        RequestView::Engine(
            EngineCallView::Create { config: sandbox_config(port, credential.line) },
        ),
        RequestView::Engine(EngineCallView::Start { id }),
    ]);
}

/// A requester who has a sandbox gets no second one: a create for them makes
/// no request, changes nothing, and ends by naming the port they have.
pub proof fn law_create_is_idempotent(
    sandboxes: Sandboxes,
    requester: u64,
    supplied: Option<SuppliedKeyView>,
    replies: Seq<ReplyView>,
)
    requires
        sandboxes.contains_key(requester),
    ensures
        run(sandboxes, create(sandboxes, requester, supplied), replies) == (Run {
            sandboxes,
            requests: Seq::empty(),
            end: StepView::Done(OutcomeView::AlreadyActive { port: sandboxes[requester].port }),
        }),
{
}

/// After a create has succeeded, the next create for the same requester
/// returns the port of the first and makes no request.
pub proof fn law_second_create_returns_first_port(
    sandboxes: Sandboxes,
    requester: u64,
    first_key: Option<SuppliedKeyView>,
    first_replies: Seq<ReplyView>,
    second_key: Option<SuppliedKeyView>,
    second_replies: Seq<ReplyView>,
)
    requires
        run(
            sandboxes,
            create(sandboxes, requester, first_key),
            first_replies,
        ).end matches StepView::Done(OutcomeView::Created { .. }),
    ensures
        ({
            let first = run(sandboxes, create(sandboxes, requester, first_key), first_replies);
            let second = run(
                first.sandboxes,
                create(first.sandboxes, requester, second_key),
                second_replies,
            );
            &&& first.end matches StepView::Done(OutcomeView::Created { port, .. })
            &&& second.end == StepView::Done(OutcomeView::AlreadyActive { port })
            &&& second.requests == Seq::<RequestView>::empty()
            &&& second.sandboxes == first.sandboxes
        }),
{
    law_create_provisions_once(sandboxes, requester, first_key, first_replies);
    let first = run(sandboxes, create(sandboxes, requester, first_key), first_replies);
    law_create_is_idempotent(first.sandboxes, requester, second_key, second_replies);
}

/// A create that does not succeed enters nobody, wherever it stopped and
/// whatever it had the engine do before.
pub proof fn law_unfinished_create_enters_nothing(
    sandboxes: Sandboxes,
    requester: u64,
    supplied: Option<SuppliedKeyView>,
    replies: Seq<ReplyView>,
)
    ensures
        ({
            let ran = run(sandboxes, create(sandboxes, requester, supplied), replies);
            ran.end matches StepView::Done(OutcomeView::Created { .. }) || ran.sandboxes
                == sandboxes
        }),
{
    reveal_with_fuel(run, 6);
}

/// A supplied key that does not decode ends the create as invalid. The only
/// request made is the one to decode it: no port is sought, the engine is not
/// called, and nobody is entered.
pub proof fn law_malformed_key_creates_nothing(
    sandboxes: Sandboxes,
    requester: u64,
    key: SuppliedKeyView,
    replies: Seq<ReplyView>,
)
    requires
        !sandboxes.contains_key(requester),
        replies.len() > 0,
        replies[0] == ReplyView::KeyRejected,
    ensures
        run(sandboxes, create(sandboxes, requester, Some(key)), replies) == (Run {
            sandboxes,
            requests: seq![RequestView::DecodeKey { body: key.body }],
            end: StepView::Done(OutcomeView::Failed(ErrorView::InvalidKey)),
        }),
{
    reveal_with_fuel(run, 3);
    let ran = run(sandboxes, create(sandboxes, requester, Some(key)), replies);
    assert(ran.requests =~= seq![RequestView::DecodeKey { body: key.body }]);
}

/// Destroying the sandbox of a requester who has none makes no request,
/// changes nothing, and reports that there was none.
pub proof fn law_destroy_without_sandbox(
    sandboxes: Sandboxes,
    requester: u64,
    replies: Seq<ReplyView>,
)
    requires
        !sandboxes.contains_key(requester),
    ensures
        ({
            let begun = destroy(sandboxes, requester);
            run(begun.0, begun.1, replies) == (Run {
                sandboxes,
                requests: Seq::empty(),
                end: StepView::Done(OutcomeView::Destroyed { existed: false }),
            })
        }),
{
}

/// Destroying the sandbox of a requester who has one takes their entry out of
/// the mapping before anything else, and has one request to make: that the
/// engine remove that container by force. Whatever the engine answers, the
/// entry stays out. When the engine has removed the container, the destroy
/// reports that there was a sandbox.
pub proof fn law_destroy_removes_the_sandbox(
    sandboxes: Sandboxes,
    requester: u64,
    replies: Seq<ReplyView>,
)
    requires
        sandboxes.contains_key(requester),
    ensures
        ({
            let begun = destroy(sandboxes, requester);
            let ran = run(begun.0, begun.1, replies);
            &&& begun.0 == sandboxes.remove(requester)
            &&& begun.1 == call_engine(
                EngineCallView::Remove { id: sandboxes[requester].id, force: true },
                PendingView::Destroy,
            )
            &&& ran.sandboxes == sandboxes.remove(requester)
            &&& replies.len() > 0 ==> ran.requests == seq![removal(sandboxes[requester].id)]
            &&& replies.len() > 0 && replies[0] == ReplyView::Removed ==> ran.end
                == StepView::Done(OutcomeView::Destroyed { existed: true })
        }),
{
    reveal_with_fuel(run, 3);
    let begun = destroy(sandboxes, requester);
    let ran = run(begun.0, begun.1, replies);
    if replies.len() > 0 {
        assert(ran.requests =~= seq![removal(sandboxes[requester].id)]);
    }
}

/// A sweep that has `ids` left, each of whose removals succeeds, removes them
/// all by force, in order, and ends.
proof fn lemma_sweep_on_removes_all(
    sandboxes: Sandboxes,
    ids: Seq<Seq<char>>,
    replies: Seq<ReplyView>,
)
    requires
        replies.len() >= ids.len(),
        forall|i: int| 0 <= i < ids.len() ==> replies[i] == ReplyView::Removed,
    ensures
        run(sandboxes, sweep_on(ids), replies) == (Run {
            sandboxes,
            requests: ids.map_values(|id: Seq<char>| removal(id)),
            end: StepView::Done(OutcomeView::Swept),
        }),
    decreases ids.len(),
{
    let removals = ids.map_values(|id: Seq<char>| removal(id));
    let ran = run(sandboxes, sweep_on(ids), replies);
    if ids.len() == 0 {
        assert(ran.requests =~= removals);
    } else {
        let rest_ids = ids.drop_first();
        let rest_replies = replies.drop_first();
        assert forall|i: int| 0 <= i < rest_ids.len() implies rest_replies[i]
            == ReplyView::Removed by {
            assert(rest_replies[i] == replies[i + 1]);
        }
        lemma_sweep_on_removes_all(sandboxes, rest_ids, rest_replies);
        assert(ran.requests =~= removals);
    }
}

/// A sweep asks the engine for every container of the sandbox image, in
/// whatever state. When each removal succeeds, it removes by force every
/// container that the engine listed, in the order listed, whether or not the
/// mapping knows it. The mapping itself is left as it was.
pub proof fn law_sweep_removes_every_listed_container(
    sandboxes: Sandboxes,
    ids: Seq<Seq<char>>,
    replies: Seq<ReplyView>,
)
    requires
        replies.len() > ids.len(),
        replies[0] == (ReplyView::Listed { ids }),
        forall|i: int| 1 <= i <= ids.len() ==> replies[i] == ReplyView::Removed,
    ensures
        run(sandboxes, sweep(), replies) == (Run {
            sandboxes,
            requests: seq![
                RequestView::Engine(EngineCallView::List { ancestor: SANDBOX_IMAGE@, all: true }),
            ] + ids.map_values(|id: Seq<char>| removal(id)),
            end: StepView::Done(OutcomeView::Swept),
        }),
{
    let rest = replies.drop_first();
    assert forall|i: int| 0 <= i < ids.len() implies rest[i] == ReplyView::Removed by {
        assert(rest[i] == replies[i + 1]);
    }
    lemma_sweep_on_removes_all(sandboxes, ids, rest);
}

/// The steps of a sweep.
spec fn sweeping(step: StepView) -> bool {
    match step {
        StepView::Done(_) => true,
        StepView::Perform { pending, .. } => pending is Listing || pending is Sweep,
    }
}

proof fn lemma_sweeping_leaves_the_mapping(
    sandboxes: Sandboxes,
    step: StepView,
    replies: Seq<ReplyView>,
)
    requires
        sweeping(step),
    ensures
        run(sandboxes, step, replies).sandboxes == sandboxes,
    decreases replies.len(),
{
    if let StepView::Perform { pending, .. } = step {
        if replies.len() > 0 {
            let next = resume(sandboxes, pending, replies[0]);
            lemma_sweeping_leaves_the_mapping(next.0, next.1, replies.drop_first());
        }
    }
}

/// A sweep never changes the mapping, whatever the engine answers.
pub proof fn law_sweep_leaves_the_mapping(sandboxes: Sandboxes, replies: Seq<ReplyView>)
    ensures
        run(sandboxes, sweep(), replies).sandboxes == sandboxes,
{
    lemma_sweeping_leaves_the_mapping(sandboxes, sweep(), replies);
}

/// A create has ended when four requests have been answered, if not before.
pub proof fn law_create_ends(
    sandboxes: Sandboxes,
    requester: u64,
    supplied: Option<SuppliedKeyView>,
    replies: Seq<ReplyView>,
)
    requires
        replies.len() >= 4,
    ensures
        run(sandboxes, create(sandboxes, requester, supplied), replies).end is Done,
{
    reveal_with_fuel(run, 6);
}

/// A destroy has ended when one request has been answered, if not before.
pub proof fn law_destroy_ends(sandboxes: Sandboxes, requester: u64, replies: Seq<ReplyView>)
    requires
        replies.len() >= 1,
    ensures
        ({
            let begun = destroy(sandboxes, requester);
            run(begun.0, begun.1, replies).end is Done
        }),
{
    reveal_with_fuel(run, 3);
}

proof fn lemma_sweep_on_ends(sandboxes: Sandboxes, ids: Seq<Seq<char>>, replies: Seq<ReplyView>)
    requires
        replies.len() >= ids.len(),
    ensures
        run(sandboxes, sweep_on(ids), replies).end is Done,
    decreases ids.len(),
{
    if ids.len() > 0 {
        let next = resume(
            sandboxes,
            PendingView::Sweep { remaining: ids.drop_first() },
            replies[0],
        );
        if replies[0] == ReplyView::Removed {
            lemma_sweep_on_ends(sandboxes, ids.drop_first(), replies.drop_first());
        } else {
            assert(run(next.0, next.1, replies.drop_first()).end is Done);
        }
    }
}

/// A sweep has ended when the listing and one removal for each listed
/// container have been answered, if not before.
pub proof fn law_sweep_ends(sandboxes: Sandboxes, ids: Seq<Seq<char>>, replies: Seq<ReplyView>)
    requires
        replies.len() > ids.len(),
        replies[0] == (ReplyView::Listed { ids }),
    ensures
        run(sandboxes, sweep(), replies).end is Done,
{
    lemma_sweep_on_ends(sandboxes, ids, replies.drop_first());
}

/// Resuming an operation changes the mapping in one way only: a create whose
/// container has started enters its requester. Everybody else's entry stays
/// as it was.
pub proof fn law_resume_enters_one_requester(
    sandboxes: Sandboxes,
    pending: PendingView,
    reply: ReplyView,
)
    ensures
        ({
            let after = resume(sandboxes, pending, reply).0;
            match pending {
                PendingView::Start { requester, sandbox, .. } => after == sandboxes || after
                    == sandboxes.insert(requester, sandbox),
                _ => after == sandboxes,
            }
        }),
{
}

/// As long as every sandbox enters the mapping with a port that no other
/// active sandbox has, no two active sandboxes ever share a port.
pub proof fn law_fresh_ports_stay_distinct(
    sandboxes: Sandboxes,
    pending: PendingView,
    reply: ReplyView,
)
    requires
        ports_distinct(sandboxes),
        pending matches PendingView::Start { requester, sandbox, .. } ==> port_free(
            sandboxes,
            requester,
            sandbox.port,
        ),
    ensures
        ports_distinct(resume(sandboxes, pending, reply).0),
{
}

/// Destroying a sandbox leaves the ports of the others distinct.
pub proof fn law_destroy_keeps_ports_distinct(sandboxes: Sandboxes, requester: u64)
    requires
        ports_distinct(sandboxes),
    ensures
        ports_distinct(destroy(sandboxes, requester).0),
{
}

} // verus!
