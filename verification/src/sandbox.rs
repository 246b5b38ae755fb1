//! One sandbox: a container with an SSH service, reachable on a host port.

use crate::engine::{
    ContainerConfig, ContainerConfigView, EngineCall, EngineCallView, PortBinding,
    PortBindingView,
};
use crate::text::{decimal, decimal_text};
use vstd::prelude::*;
use vstd::string::StringExecFns;

verus! {

/// The image every sandbox is created from.
pub const SANDBOX_IMAGE: &'static str = "serene-sandbox";

/// The port inside a sandbox on which its SSH service listens.
pub const SSH_PORT: u16 = 22;

/// The transport of the SSH service, as the engine writes it behind a port.
pub const TRANSPORT: &'static str = "/tcp";

/// The environment variable from which the image installs the trusted key.
pub const KEY_VARIABLE: &'static str = "SSH_KEY=";

/// The container's SSH endpoint: its port and transport.
pub open spec fn ssh_endpoint() -> Seq<char> {
    decimal(SSH_PORT as nat) + TRANSPORT@
}

/// The configuration of the sandbox that is reachable on the host at `port`
/// and trusts the public key written in `line`.
pub open spec fn sandbox_config(port: u16, line: Seq<char>) -> ContainerConfigView {
    ContainerConfigView {
        image: SANDBOX_IMAGE@,
        env: seq![KEY_VARIABLE@ + line],
        exposed_ports: seq![ssh_endpoint()],
        port_bindings: seq![
            PortBindingView {
                container_port: ssh_endpoint(),
                host_port: decimal(port as nat),
            },
        ],
    }
}

/// A provisioned sandbox: the identity the engine gave its container, and the
/// host port bound to it. Neither changes while the sandbox lives.
#[derive(Debug, PartialEq, Eq)]
pub struct Sandbox {
    id: String,
    port: u16,
}

pub struct SandboxView {
    pub id: Seq<char>,
    pub port: u16,
}

impl View for Sandbox {
    type V = SandboxView;

    closed spec fn view(&self) -> SandboxView {
        SandboxView { id: self.id@, port: self.port }
    }
}

fn endpoint_text() -> (text: String)
    ensures
        text@ == ssh_endpoint(),
{
    let mut text = decimal_text(SSH_PORT as u64);
    text.append(TRANSPORT);
    text
}

impl Sandbox {
    /// The request that provisions a sandbox. It creates the container and
    /// does not start it.
    pub fn config(port: u16, line: &str) -> (config: ContainerConfig)
        ensures
            config@ == sandbox_config(port, line@),
    {
        let mut entry = String::from_str(KEY_VARIABLE);
        entry.append(line);
        let mut env: Vec<String> = Vec::new();
        env.push(entry);
        let mut exposed_ports: Vec<String> = Vec::new();
        exposed_ports.push(endpoint_text());
        let mut port_bindings: Vec<PortBinding> = Vec::new();
        port_bindings.push(
            PortBinding { container_port: endpoint_text(), host_port: decimal_text(port as u64) },
        );
        let config = ContainerConfig {
            image: String::from_str(SANDBOX_IMAGE),
            env,
            exposed_ports,
            port_bindings,
        };
        assert(config@.env =~= sandbox_config(port, line@).env);
        assert(config@.exposed_ports =~= sandbox_config(port, line@).exposed_ports);
        assert(config@.port_bindings =~= sandbox_config(port, line@).port_bindings);
        config
    }

    /// The sandbox whose container the engine created as `id`, bound to `port`.
    pub fn new(id: String, port: u16) -> (sandbox: Sandbox)
        ensures
            sandbox@ == (SandboxView { id: id@, port }),
    {
        Sandbox { id, port }
    }

    /// The identity of the sandbox's container.
    pub fn id(&self) -> (id: &String)
        ensures
            id@ == self@.id,
    {
        &self.id
    }

    /// The host port bound to the sandbox.
    pub fn port(&self) -> (port: u16)
        ensures
            port == self@.port,
    {
        self.port
    }

    /// The call that starts the sandbox's container.
    pub fn start(&self) -> (call: EngineCall)
        ensures
            call@ == (EngineCallView::Start { id: self@.id }),
    {
        EngineCall::Start { id: self.id.clone() }
    }

    /// The call that removes the sandbox's container, running or not. The
    /// sandbox is used up.
    pub fn teardown(self) -> (call: EngineCall)
        ensures
            call@ == (EngineCallView::Remove { id: self@.id, force: true }),
    {
        EngineCall::Remove { id: self.id, force: true }
    }
}

} // verus!
