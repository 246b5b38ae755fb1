//! What the two commands decide: whose sandbox a destroy is aimed at, and
//! what the requester is told when an operation has ended.

use crate::key::GeneratedKeyView;
use crate::manager::SandboxManager;
use crate::model::{destroy, sweep};
use crate::protocol::{Error, ErrorView, Outcome, OutcomeView, Step};
use crate::text::{decimal, decimal_text, parse_decimal, parsed};
use vstd::prelude::*;
use vstd::string::StringExecFns;

verus! {

/// The argument that aims a destroy at every sandbox.
pub const ALL: &'static str = "all";

/// The name under which a generated private key is handed out.
pub const KEY_FILE: &'static str = "serene-id_ed25519";

/// What a requester who has a sandbox is told, before its port.
pub const ALREADY_ACTIVE: &'static str =
    "A message has already been made available to you on port ";

/// How to connect with the enclosed key, up to the port.
pub const STARTED_WITH_KEY: &'static str =
    "Started a sandbox for you; connect with: ```ssh -i serene-id_ed25519 -p ";

/// How to connect with one's own key, up to the port.
pub const STARTED: &'static str = "Started a sandbox for you; connect with: ```ssh -p ";

/// The user to log in as, before the host.
pub const LOGIN: &'static str = " serene@";

/// What closes the command to connect with.
pub const FENCE: &'static str = "```";

/// What the requester of a key that does not decode is told.
pub const INVALID_KEY: &'static str = "Invalid key; try again?";

/// What the owner is told after a sweep.
pub const ALL_DESTROYED: &'static str = "All sandboxes destroyed.";

/// What the owner is told of a named requester's sandbox that was
/// destroyed: before and after the requester.
pub const NAMED_DESTROYED_BEFORE: &'static str = "Sandbox for ";

pub const NAMED_DESTROYED_AFTER: &'static str = " destroyed.";

/// What the owner is told of a named requester who had no sandbox: before
/// and after the requester.
pub const NAMED_ABSENT_BEFORE: &'static str = "No sandbox for ";

pub const NAMED_ABSENT_AFTER: &'static str = ".";

/// What an author is told whose own sandbox was destroyed.
pub const OWN_DESTROYED: &'static str = "Sandbox destroyed.";

/// What an author is told who had no sandbox.
pub const OWN_ABSENT: &'static str = "No sandbox to destroy; ignoring.";

/// What a destroy is aimed at.
#[derive(Debug, Clone, Copy, PartialEq, Eq)]
pub enum Target {
    /// Every container of the sandbox image.
    Everything,
    /// The sandbox of the requester that the owner named.
    Named { requester: u64 },
    /// The author's own sandbox.
    Own { requester: u64 },
}

/// The target of a destroy that `author` asks for with `argument`.
///
/// Only the owner aims at others: with `all` at every sandbox, with a number
/// at that requester's. Everybody else, and the owner with any other argument
/// or none, aims at their own.
pub open spec fn target_of(owner: Option<u64>, author: u64, argument: Option<Seq<char>>) -> Target {
    if owner == Some(author) && argument is Some && argument->0 == ALL@ {
        Target::Everything
    } else if owner == Some(author) && argument is Some && parsed(argument->0) is Some {
        Target::Named { requester: parsed(argument->0)->0 }
    } else {
        Target::Own { requester: author }
    }
}

/// The text of an argument that may be absent.
pub open spec fn argument_view(argument: Option<String>) -> Option<Seq<char>> {
    match argument {
        Some(text) => Some(text@),
        None => None,
    }
}

/// A message for the requester, with the file that goes with it, if any.
pub struct Message {
    pub content: String,
    pub attachment: Option<Attachment>,
}

/// A file handed to the requester.
pub struct Attachment {
    pub filename: String,
    pub data: Vec<u8>,
}

pub struct MessageView {
    pub content: Seq<char>,
    pub attachment: Option<AttachmentView>,
}

pub struct AttachmentView {
    pub filename: Seq<char>,
    pub data: Seq<u8>,
}

impl View for Attachment {
    type V = AttachmentView;

    open spec fn view(&self) -> AttachmentView {
        AttachmentView { filename: self.filename@, data: self.data@ }
    }
}

impl View for Message {
    type V = MessageView;

    open spec fn view(&self) -> MessageView {
        MessageView {
            content: self.content@,
            attachment: match self.attachment {
                Some(attachment) => Some(attachment@),
                None => None,
            },
        }
    }
}

/// The view of a message that may be absent.
pub open spec fn message_view(message: Option<Message>) -> Option<MessageView> {
    match message {
        Some(message) => Some(message@),
        None => None,
    }
}

/// The text of a text that may be absent.
pub open spec fn text_view(text: Option<String>) -> Option<Seq<char>> {
    match text {
        Some(text) => Some(text@),
        None => None,
    }
}

/// A message of words alone.
pub open spec fn plain(content: Seq<char>) -> MessageView {
    MessageView { content, attachment: None }
}

/// How to connect to the sandbox at `port` on `host`, with the private key
/// enclosed where one was generated.
pub open spec fn started(port: u16, keypair: Option<GeneratedKeyView>, host: Seq<char>)
    -> MessageView {
    match keypair {
        Some(keypair) => MessageView {
            content: STARTED_WITH_KEY@ + decimal(port as nat) + LOGIN@ + host + FENCE@,
            attachment: Some(
                AttachmentView { filename: KEY_FILE@, data: keypair.private_key },
            ),
        },
        None => plain(STARTED@ + decimal(port as nat) + LOGIN@ + host + FENCE@),
    }
}

/// What the requester is told when their create has ended as `outcome`.
///
/// They are told of the sandbox they have, old or new, and of a key that is
/// invalid. Of any other failure they are told nothing here: the error goes
/// to whoever ran the command.
pub open spec fn spawn_message(outcome: OutcomeView, host: Seq<char>) -> Option<MessageView> {
    match outcome {
        OutcomeView::AlreadyActive { port } => Some(
            plain(ALREADY_ACTIVE@ + decimal(port as nat)),
        ),
        OutcomeView::Created { port, keypair } => Some(started(port, keypair, host)),
        OutcomeView::Failed(ErrorView::InvalidKey) => Some(plain(INVALID_KEY@)),
        _ => None,
    }
}

/// What the author is told when the destroy aimed at `target` has ended as
/// `outcome`. Of a failure they are told nothing here.
pub open spec fn destroy_message(target: Target, outcome: OutcomeView) -> Option<Seq<char>> {
    match (target, outcome) {
        (Target::Everything, OutcomeView::Swept) => Some(ALL_DESTROYED@),
        (Target::Named { requester }, OutcomeView::Destroyed { existed }) => Some(
            if existed {
                NAMED_DESTROYED_BEFORE@ + decimal(requester as nat) + NAMED_DESTROYED_AFTER@
            } else {
                NAMED_ABSENT_BEFORE@ + decimal(requester as nat) + NAMED_ABSENT_AFTER@
            },
        ),
        (Target::Own { .. }, OutcomeView::Destroyed { existed }) => Some(
            if existed {
                OWN_DESTROYED@
            } else {
                OWN_ABSENT@
            },
        ),
        _ => None,
    }
}

/// Decides what a destroy is aimed at.
pub fn destroy_target(owner: Option<u64>, author: u64, argument: Option<String>) -> (target:
    Target)
    ensures
        target == target_of(owner, author, argument_view(argument)),
{
    let is_owner = match owner {
        Some(owner) => owner == author,
        None => false,
    };
    if is_owner {
        if let Some(text) = argument {
            if text == String::from_str(ALL) {
                return Target::Everything;
            }
            if let Some(requester) = parse_decimal(text.as_str()) {
                return Target::Named { requester };
            }
        }
    }
    Target::Own { requester: author }
}

impl Target {
    /// Begins the destroy that is aimed at this target.
    pub fn begin(&self, manager: &mut SandboxManager) -> (step: Step)
        ensures
            (final(manager)@, step@) == match *self {
                Target::Everything => (old(manager)@, sweep()),
                Target::Named { requester } => destroy(old(manager)@, requester),
                Target::Own { requester } => destroy(old(manager)@, requester),
            },
    {
        match *self {
            Target::Everything => manager.teardown(),
            Target::Named { requester } => manager.destroy_sandbox(requester),
            Target::Own { requester } => manager.destroy_sandbox(requester),
        }
    }
}

fn plain_message(content: String) -> (message: Message)
    ensures
        message@ == plain(content@),
{
    Message { content, attachment: None }
}

/// Writes what the requester is told when their create has ended.
pub fn spawn_reply(outcome: Outcome, host: &str) -> (message: Option<Message>)
    ensures
        message_view(message) == spawn_message(outcome@, host@),
{
    match outcome {
        Outcome::AlreadyActive { port } => {
            let mut content = String::from_str(ALREADY_ACTIVE);
            content.append(decimal_text(port as u64).as_str());
            Some(plain_message(content))
        },
        Outcome::Created { port, keypair } => {
            let mut content = match keypair {
                Some(_) => String::from_str(STARTED_WITH_KEY),
                None => String::from_str(STARTED),
            };
            content.append(decimal_text(port as u64).as_str());
            content.append(LOGIN);
            content.append(host);
            content.append(FENCE);
            match keypair {
                Some(keypair) => {
                    Some(
                        Message {
                            content,
                            attachment: Some(
                                Attachment {
                                    filename: String::from_str(KEY_FILE),
                                    data: keypair.private_key,
                                },
                            ),
                        },
                    )
                },
                None => Some(plain_message(content)),
            }
        },
        Outcome::Failed(Error::InvalidKey) => Some(plain_message(String::from_str(INVALID_KEY))),
        _ => None,
    }
}

/// Writes what the author is told when their destroy has ended.
pub fn destroy_reply(target: Target, outcome: &Outcome) -> (text: Option<String>)
    ensures
        text_view(text) == destroy_message(target, outcome@),
{
    match target {
        Target::Everything => match outcome {
            Outcome::Swept => Some(String::from_str(ALL_DESTROYED)),
            _ => None,
        },
        Target::Named { requester } => match outcome {
            Outcome::Destroyed { existed } => {
                let mut text = if *existed {
                    String::from_str(NAMED_DESTROYED_BEFORE)
                } else {
                    String::from_str(NAMED_ABSENT_BEFORE)
                };
                text.append(decimal_text(requester).as_str());
                if *existed {
                    text.append(NAMED_DESTROYED_AFTER);
                } else {
                    text.append(NAMED_ABSENT_AFTER);
                }
                Some(text)
            },
            _ => None,
        },
        Target::Own { .. } => match outcome {
            Outcome::Destroyed { existed } => Some(
                if *existed {
                    String::from_str(OWN_DESTROYED)
                } else {
                    String::from_str(OWN_ABSENT)
                },
            ),
            _ => None,
        },
    }
}

} // verus!
