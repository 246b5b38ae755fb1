use serene::command::{destroy_reply, destroy_target, spawn_reply, Target};
use serene::key::GeneratedKey;
use serene::manager::SandboxManager;
use serene::protocol::{Error, Outcome, Pending, Reply, Request, Step};
use serene::engine::EngineCall;

fn arg(text: &str) -> Option<String> {
    Some(text.to_string())
}

#[test]
fn owner_aims_at_everything_with_all() {
    assert_eq!(destroy_target(Some(1), 1, arg("all")), Target::Everything);
}

#[test]
fn owner_aims_at_a_named_requester() {
    assert_eq!(destroy_target(Some(1), 1, arg("42")), Target::Named { requester: 42 });
    assert_eq!(destroy_target(Some(1), 1, arg("1")), Target::Named { requester: 1 });
    assert_eq!(destroy_target(Some(1), 1, arg("+7")), Target::Named { requester: 7 });
}

#[test]
fn owner_without_a_usable_argument_aims_at_their_own() {
    assert_eq!(destroy_target(Some(1), 1, None), Target::Own { requester: 1 });
    assert_eq!(destroy_target(Some(1), 1, arg("ALL")), Target::Own { requester: 1 });
    assert_eq!(destroy_target(Some(1), 1, arg("-3")), Target::Own { requester: 1 });
    assert_eq!(destroy_target(Some(1), 1, arg("")), Target::Own { requester: 1 });
    assert_eq!(
        destroy_target(Some(1), 1, arg("18446744073709551616")),
        Target::Own { requester: 1 }
    );
}

#[test]
fn others_aim_at_their_own_whatever_they_say() {
    assert_eq!(destroy_target(Some(1), 2, arg("all")), Target::Own { requester: 2 });
    assert_eq!(destroy_target(Some(1), 2, arg("1")), Target::Own { requester: 2 });
    assert_eq!(destroy_target(None, 2, arg("all")), Target::Own { requester: 2 });
    assert_eq!(destroy_target(None, 2, None), Target::Own { requester: 2 });
}

#[test]
fn target_begins_its_operation() {
    let mut manager = SandboxManager::new();
    let pending = match manager.create_sandbox(5, None) {
        Step::Perform { pending, .. } => pending,
        Step::Done(_) => panic!("a key was to be generated"),
    };
    let keypair = GeneratedKey { public_key: "AAAA".to_string(), private_key: Vec::new() };
    let pending = match manager.resume(pending, Reply::KeyGenerated { keypair }) {
        Step::Perform { pending, .. } => pending,
        Step::Done(_) => panic!("a port was to be sought"),
    };
    let pending = match manager.resume(pending, Reply::PortAllocated { port: 6000 }) {
        Step::Perform { pending, .. } => pending,
        Step::Done(_) => panic!("a container was to be created"),
    };
    let pending = match manager.resume(pending, Reply::Created { id: "c5".to_string() }) {
        Step::Perform { pending, .. } => pending,
        Step::Done(_) => panic!("the container was to be started"),
    };
    assert!(matches!(
        manager.resume(pending, Reply::Started),
        Step::Done(Outcome::Created { port: 6000, keypair: Some(_) })
    ));

    match (Target::Everything).begin(&mut manager) {
        Step::Perform { request, pending } => {
            let ancestor = "serene-sandbox".to_string();
            assert_eq!(request, Request::Engine(EngineCall::List { ancestor, all: true }));
            assert!(matches!(pending, Pending::Listing));
        }
        Step::Done(_) => panic!("a listing was expected"),
    }
    assert_eq!(manager.find_sandbox(5), Some(6000));

    assert!(matches!(
        (Target::Named { requester: 6 }).begin(&mut manager),
        Step::Done(Outcome::Destroyed { existed: false })
    ));
    match (Target::Own { requester: 5 }).begin(&mut manager) {
        Step::Perform { request, .. } => assert_eq!(
            request,
            Request::Engine(EngineCall::Remove { id: "c5".to_string(), force: true })
        ),
        Step::Done(_) => panic!("a removal was expected"),
    }
    assert_eq!(manager.find_sandbox(5), None);
}

#[test]
fn requester_is_told_of_the_sandbox_they_have() {
    let message = spawn_reply(Outcome::AlreadyActive { port: 31337 }, "example.org").unwrap();
    assert_eq!(
        message.content,
        "A message has already been made available to you on port 31337"
    );
    assert!(message.attachment.is_none());
}

#[test]
fn requester_is_told_how_to_connect_with_the_generated_key() {
    let keypair = GeneratedKey { public_key: "AAAA".to_string(), private_key: b"secret".to_vec() };
    let outcome = Outcome::Created { port: 40022, keypair: Some(keypair) };
    let message = spawn_reply(outcome, "sandbox.example.org").unwrap();
    assert_eq!(
        message.content,
        "Started a sandbox for you; connect with: \
         ```ssh -i serene-id_ed25519 -p 40022 serene@sandbox.example.org```"
    );
    let attachment = message.attachment.unwrap();
    assert_eq!(attachment.filename, "serene-id_ed25519");
    assert_eq!(attachment.data, b"secret".to_vec());
}

#[test]
fn requester_is_told_how_to_connect_with_their_own_key() {
    let outcome = Outcome::Created { port: 40022, keypair: None };
    let message = spawn_reply(outcome, "sandbox.example.org").unwrap();
    assert_eq!(
        message.content,
        "Started a sandbox for you; connect with: ```ssh -p 40022 serene@sandbox.example.org```"
    );
    assert!(message.attachment.is_none());
}

#[test]
fn requester_is_told_of_an_invalid_key() {
    let message = spawn_reply(Outcome::Failed(Error::InvalidKey), "example.org").unwrap();
    assert_eq!(message.content, "Invalid key; try again?");
    assert!(message.attachment.is_none());
}

#[test]
fn other_failures_of_a_create_have_no_reply() {
    let engine = Error::Engine { reason: "down".to_string() };
    assert!(spawn_reply(Outcome::Failed(engine), "example.org").is_none());
    let allocation = Error::Allocation { reason: "none".to_string() };
    assert!(spawn_reply(Outcome::Failed(allocation), "example.org").is_none());
    assert!(spawn_reply(Outcome::Failed(Error::UnexpectedReply), "example.org").is_none());
    assert!(spawn_reply(Outcome::Swept, "example.org").is_none());
    assert!(spawn_reply(Outcome::Destroyed { existed: true }, "example.org").is_none());
}

#[test]
fn author_is_told_what_was_destroyed() {
    let own = Target::Own { requester: 3 };
    let named = Target::Named { requester: 42 };
    assert_eq!(
        destroy_reply(Target::Everything, &Outcome::Swept),
        Some("All sandboxes destroyed.".to_string())
    );
    assert_eq!(
        destroy_reply(named, &Outcome::Destroyed { existed: true }),
        Some("Sandbox for 42 destroyed.".to_string())
    );
    assert_eq!(
        destroy_reply(named, &Outcome::Destroyed { existed: false }),
        Some("No sandbox for 42.".to_string())
    );
    assert_eq!(
        destroy_reply(own, &Outcome::Destroyed { existed: true }),
        Some("Sandbox destroyed.".to_string())
    );
    assert_eq!(
        destroy_reply(own, &Outcome::Destroyed { existed: false }),
        Some("No sandbox to destroy; ignoring.".to_string())
    );
}

#[test]
fn failed_destroy_has_no_reply() {
    let failed = Outcome::Failed(Error::Engine { reason: "down".to_string() });
    assert_eq!(destroy_reply(Target::Everything, &failed), None);
    assert_eq!(destroy_reply(Target::Own { requester: 3 }, &failed), None);
    assert_eq!(destroy_reply(Target::Named { requester: 3 }, &failed), None);
    assert_eq!(destroy_reply(Target::Everything, &Outcome::Destroyed { existed: true }), None);
    assert_eq!(destroy_reply(Target::Own { requester: 3 }, &Outcome::Swept), None);
}
