//! The container engine's interface, as plain values.
//!
//! The library never talks to the engine. It states which call is to be made;
//! whoever drives it makes the call and reports what came back.

use vstd::prelude::*;

verus! {

/// One host port bound to one port of the container.
#[derive(Debug, PartialEq, Eq)]
pub struct PortBinding {
    /// The container's side, as `<port>/<transport>`.
    pub container_port: String,
    /// The host's side, a decimal port number.
    pub host_port: String,
}

pub struct PortBindingView {
    pub container_port: Seq<char>,
    pub host_port: Seq<char>,
}

impl View for PortBinding {
    type V = PortBindingView;

    open spec fn view(&self) -> PortBindingView {
        PortBindingView { container_port: self.container_port@, host_port: self.host_port@ }
    }
}

/// What a container is created from.
#[derive(Debug, PartialEq, Eq)]
pub struct ContainerConfig {
    pub image: String,
    /// Environment entries, each `NAME=value`.
    pub env: Vec<String>,
    /// Ports the container declares, each `<port>/<transport>`.
    pub exposed_ports: Vec<String>,
    pub port_bindings: Vec<PortBinding>,
}

pub struct ContainerConfigView {
    pub image: Seq<char>,
    pub env: Seq<Seq<char>>,
    pub exposed_ports: Seq<Seq<char>>,
    pub port_bindings: Seq<PortBindingView>,
}

/// The texts of a list of strings.
pub open spec fn texts(strings: Seq<String>) -> Seq<Seq<char>> {
    strings.map_values(|s: String| s@)
}

impl View for ContainerConfig {
    type V = ContainerConfigView;

    open spec fn view(&self) -> ContainerConfigView {
        ContainerConfigView {
            image: self.image@,
            env: texts(self.env@),
            exposed_ports: texts(self.exposed_ports@),
            port_bindings: self.port_bindings@.map_values(|b: PortBinding| b@),
        }
    }
}

/// A call to the container engine.
#[derive(Debug, PartialEq, Eq)]
pub enum EngineCall {
    /// Create a container; the engine answers with its identity.
    Create { config: ContainerConfig },
    /// Start a created container.
    Start { id: String },
    /// Remove a container; with `force`, also one that is running.
    Remove { id: String, force: bool },
    /// List the containers descended from the image `ancestor`; with `all`,
    /// in whatever state they are.
    List { ancestor: String, all: bool },
}

pub enum EngineCallView {
    Create { config: ContainerConfigView },
    Start { id: Seq<char> },
    Remove { id: Seq<char>, force: bool },
    List { ancestor: Seq<char>, all: bool },
}

impl View for EngineCall {
    type V = EngineCallView;

    open spec fn view(&self) -> EngineCallView {
        match self {
            EngineCall::Create { config } => EngineCallView::Create { config: config@ },
            EngineCall::Start { id } => EngineCallView::Start { id: id@ },
            EngineCall::Remove { id, force } => EngineCallView::Remove { id: id@, force: *force },
            EngineCall::List { ancestor, all } => EngineCallView::List {
                ancestor: ancestor@,
                all: *all,
            },
        }
    }
}

} // verus!
