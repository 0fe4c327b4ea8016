//! The data the tunnel manager works on: the tunnel record, the request
//! payloads and the outcome of a reachability probe.
//!
//! Each type has a view that replaces its strings by their characters, so that
//! contracts can compare values.

use vstd::prelude::*;

verus! {

/// A mapping from a local port to a remote `host:port`.
#[derive(Debug, PartialEq, Eq)]
pub struct Tunnel {
    /// Generated when the tunnel is created; never changes.
    pub id: String,
    pub name: String,
    /// Unique among all stored tunnels, enabled or not.
    pub local_port: u16,
    pub target_host: String,
    pub target_port: u16,
    /// Whether a forwarder should be running.
    pub enabled: bool,
    /// Process id of the running forwarder. Never written to the tunnel file.
    pub pid: Option<u32>,
    /// Key of the last non-fatal condition seen for this tunnel.
    pub warning_id: Option<String>,
}

/// A `Tunnel` with its strings as character sequences.
pub struct TunnelView {
    pub id: Seq<char>,
    pub name: Seq<char>,
    pub local_port: u16,
    pub target_host: Seq<char>,
    pub target_port: u16,
    pub enabled: bool,
    pub pid: Option<u32>,
    pub warning_id: Option<Seq<char>>,
}

impl View for Tunnel {
    type V = TunnelView;

    open spec fn view(&self) -> TunnelView {
        TunnelView {
            id: self.id@,
            name: self.name@,
            local_port: self.local_port,
            target_host: self.target_host@,
            target_port: self.target_port,
            enabled: self.enabled,
            pid: self.pid,
            warning_id: self.warning_id.deep_view(),
        }
    }
}

impl DeepView for Tunnel {
    type V = TunnelView;

    open spec fn deep_view(&self) -> TunnelView {
        self@
    }
}

/// A copy of an optional string.
pub fn clone_text(text: &Option<String>) -> (copy: Option<String>)
    ensures
        copy == *text,
{
    match text {
        Some(s) => Some(s.clone()),
        None => None,
    }
}

impl Clone for Tunnel {
    fn clone(&self) -> (copy: Self)
        ensures
            copy == *self,
    {
        Tunnel {
            id: self.id.clone(),
            name: self.name.clone(),
            local_port: self.local_port,
            target_host: self.target_host.clone(),
            target_port: self.target_port,
            enabled: self.enabled,
            pid: self.pid,
            warning_id: clone_text(&self.warning_id),
        }
    }
}

/// What a connection attempt to a tunnel's target showed.
#[derive(Debug, PartialEq, Eq)]
pub enum ReachabilityResult {
    /// The connection was accepted: a service is listening.
    Reachable,
    /// The host refused the connection: it is up, nothing listens on the port.
    HostReachablePortClosed,
    /// The host could not be reached; the string says why.
    HostUnreachable(String),
}

/// A `ReachabilityResult` with its reason as a character sequence.
pub enum ReachabilityView {
    Reachable,
    HostReachablePortClosed,
    HostUnreachable(Seq<char>),
}

impl View for ReachabilityResult {
    type V = ReachabilityView;

    open spec fn view(&self) -> ReachabilityView {
        match self {
            ReachabilityResult::Reachable => ReachabilityView::Reachable,
            ReachabilityResult::HostReachablePortClosed => {
                ReachabilityView::HostReachablePortClosed
            },
            ReachabilityResult::HostUnreachable(reason) => ReachabilityView::HostUnreachable(
                reason@,
            ),
        }
    }
}

/// The result of starting a forwarder with its message as a character
/// sequence: the process id, or why it did not start.
pub open spec fn spawn_view(result: Result<u32, String>) -> Result<u32, Seq<char>> {
    match result {
        Ok(pid) => Ok(pid),
        Err(detail) => Err(detail@),
    }
}

/// The fields of a tunnel to create.
#[derive(Debug, PartialEq, Eq)]
pub struct CreateTunnelRequest {
    pub name: String,
    pub local_port: u16,
    pub target_host: String,
    pub target_port: u16,
    pub enabled: bool,
}

/// A `CreateTunnelRequest` with its strings as character sequences.
pub struct CreateRequestView {
    pub name: Seq<char>,
    pub local_port: u16,
    pub target_host: Seq<char>,
    pub target_port: u16,
    pub enabled: bool,
}

impl View for CreateTunnelRequest {
    type V = CreateRequestView;

    open spec fn view(&self) -> CreateRequestView {
        CreateRequestView {
            name: self.name@,
            local_port: self.local_port,
            target_host: self.target_host@,
            target_port: self.target_port,
            enabled: self.enabled,
        }
    }
}

/// The value of `enabled` for a create request that does not give one.
pub fn default_enabled() -> (enabled: bool)
    ensures
        enabled,
{
    true
}

/// The fields of a tunnel to change; an absent field keeps its value.
#[derive(Debug, PartialEq, Eq)]
pub struct UpdateTunnelRequest {
    pub name: Option<String>,
    pub local_port: Option<u16>,
    pub target_host: Option<String>,
    pub target_port: Option<u16>,
    pub enabled: Option<bool>,
}

/// An `UpdateTunnelRequest` with its strings as character sequences.
pub struct UpdateRequestView {
    pub name: Option<Seq<char>>,
    pub local_port: Option<u16>,
    pub target_host: Option<Seq<char>>,
    pub target_port: Option<u16>,
    pub enabled: Option<bool>,
}

impl View for UpdateTunnelRequest {
    type V = UpdateRequestView;

    open spec fn view(&self) -> UpdateRequestView {
        UpdateRequestView {
            name: self.name.deep_view(),
            local_port: self.local_port,
            target_host: self.target_host.deep_view(),
            target_port: self.target_port,
            enabled: self.enabled,
        }
    }
}

/// The target of a connectivity test.
#[derive(Debug, PartialEq, Eq)]
pub struct TestConnectionRequest {
    pub target_host: String,
    pub target_port: u16,
}

/// The result of a connectivity test: whether it succeeded, and what the test
/// program printed.
#[derive(Debug, PartialEq, Eq)]
pub struct TestConnectionResponse {
    pub success: bool,
    pub log: String,
}

/// What the service reports of itself.
#[derive(Debug, PartialEq, Eq)]
pub struct ConfigResponse {
    pub hostname: String,
    pub version: String,
}

} // verus!
