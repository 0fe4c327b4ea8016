//! Creating a tunnel.
//!
//! Like an update, a creation is a sequence of steps with work in between
//! that only the caller can do. Each function of this module takes what the
//! last piece of work showed and answers with a [`CreateStep`]. The tunnel
//! list changes only in the step that answers [`CreateStep::Created`], and
//! then by one tunnel at its end. The caller keeps the list locked from the
//! step that first takes it to the last.

use vstd::prelude::*;
use vstd::string::*;

use crate::addr::{is_loopback_host, is_self_loop};
use crate::fields::{check_fields, malformed};
use crate::ids::fresh_tunnel_id;
use crate::messages::ApiMessageView;
use crate::models::{
    spawn_view, CreateRequestView, CreateTunnelRequest, ReachabilityResult, ReachabilityView,
    Tunnel, TunnelView,
};
use crate::rejection::{Rejection, RejectionView};
use crate::responses::{
    connection_url_for, port_closed_key, port_closed_message, port_closed_warning,
    port_closed_warning_id, response_for, TunnelResponse, TunnelResponseView,
};
use crate::store::{is_port_claimed, lemma_push_keeps_ports_unique, port_claimed, ports_unique};
use crate::text::{str_eq, trim, trimmed};

verus! {

/// The next piece of work of a creation, or its end.
#[derive(Debug, PartialEq, Eq)]
pub enum CreateStep {
    /// Try to bind `request.local_port`, then call [`create_on_port_probed`].
    ProbePort { request: CreateTunnelRequest },
    /// Probe `tunnel.target_host:tunnel.target_port`, then call
    /// [`create_on_reachability`].
    CheckReachability { tunnel: Tunnel },
    /// Start a forwarder from `tunnel.local_port` to
    /// `tunnel.target_host:tunnel.target_port`, then call
    /// [`create_on_started`].
    StartForwarder { tunnel: Tunnel },
    /// The tunnel was added to the list, which is to be written out.
    Created { response: TunnelResponse },
    /// The creation was refused and the list is as it was.
    Rejected { error: Rejection },
}

/// A `CreateStep` with its strings as character sequences.
pub enum CreateStepView {
    ProbePort { request: CreateRequestView },
    CheckReachability { tunnel: TunnelView },
    StartForwarder { tunnel: TunnelView },
    Created { response: TunnelResponseView },
    Rejected { error: RejectionView },
}

impl View for CreateStep {
    type V = CreateStepView;

    open spec fn view(&self) -> CreateStepView {
        match self {
            CreateStep::ProbePort { request } => CreateStepView::ProbePort { request: request@ },
            CreateStep::CheckReachability { tunnel } => CreateStepView::CheckReachability {
                tunnel: tunnel@,
            },
            CreateStep::StartForwarder { tunnel } => CreateStepView::StartForwarder {
                tunnel: tunnel@,
            },
            CreateStep::Created { response } => CreateStepView::Created { response: response@ },
            CreateStep::Rejected { error } => CreateStepView::Rejected { error: error@ },
        }
    }
}

/// The tunnel list after a step, and what the step answered.
pub struct CreateOutcome {
    pub tunnels: Seq<TunnelView>,
    pub step: CreateStepView,
}

/// The step answers `step` and leaves the list as it is.
pub open spec fn unchanged(tunnels: Seq<TunnelView>, step: CreateStepView) -> CreateOutcome {
    CreateOutcome { tunnels, step }
}

/// The creation is refused and the list stays as it is.
pub open spec fn refused(tunnels: Seq<TunnelView>, error: RejectionView) -> CreateOutcome {
    CreateOutcome { tunnels, step: CreateStepView::Rejected { error } }
}

/// What is wrong with the fields of `request`, if anything: a malformed
/// field, or else a tunnel that would forward a port of this machine to
/// itself.
pub open spec fn invalid(request: CreateRequestView) -> Option<RejectionView> {
    match malformed(
        request.name,
        request.local_port,
        request.target_host,
        request.target_port,
    ) {
        Some(error) => Some(error),
        None => if is_self_loop(request.local_port, request.target_host, request.target_port) {
            Some(RejectionView::SelfLoop { port: request.local_port })
        } else {
            None
        },
    }
}

/// The first step of creating a tunnel from `request`.
pub open spec fn begun(request: CreateRequestView) -> CreateStepView {
    match invalid(request) {
        Some(error) => CreateStepView::Rejected { error },
        None => CreateStepView::ProbePort { request },
    }
}

/// Why the local port `port` cannot be taken, if it cannot: the system has it
/// in use, or a stored tunnel has it. The system comes first.
pub open spec fn port_refused(tunnels: Seq<TunnelView>, port: u16, available: bool) -> Option<
    RejectionView,
> {
    if !available {
        Some(RejectionView::PortInUse { port })
    } else if port_claimed(tunnels, port) {
        Some(RejectionView::PortAssigned { port })
    } else {
        None
    }
}

/// The tunnel that `request` asks for, under the identifier `id`: name and
/// host trimmed, no forwarder, no warning.
pub open spec fn new_tunnel(request: CreateRequestView, id: Seq<char>) -> TunnelView {
    TunnelView {
        id,
        name: trimmed(request.name),
        local_port: request.local_port,
        target_host: trimmed(request.target_host),
        target_port: request.target_port,
        enabled: request.enabled,
        pid: None,
        warning_id: None,
    }
}

/// The warning that the answer to a creation carries: one exactly when the
/// tunnel records that its target port was closed.
pub open spec fn warning_of(tunnel: TunnelView) -> Option<ApiMessageView> {
    if tunnel.warning_id == Some(port_closed_key()) {
        Some(port_closed_message(tunnel.target_host, tunnel.target_port))
    } else {
        None
    }
}

/// Adding `tunnel` to the end of the list. It is refused if a stored tunnel
/// has its local port.
pub open spec fn stored(
    tunnels: Seq<TunnelView>,
    tunnel: TunnelView,
    hostname: Seq<char>,
) -> CreateOutcome {
    if port_claimed(tunnels, tunnel.local_port) {
        refused(tunnels, RejectionView::PortAssigned { port: tunnel.local_port })
    } else {
        CreateOutcome {
            tunnels: tunnels.push(tunnel),
            step: CreateStepView::Created {
                response: response_for(tunnel, hostname, warning_of(tunnel)),
            },
        }
    }
}

/// What every step of a creation keeps to: the list changes only where the
/// step answers `Created`, and then the tunnel of the answer joins it at the
/// end; and if no two tunnels had the same local port before, none have
/// after.
pub open spec fn settles(
    before: Seq<TunnelView>,
    after: Seq<TunnelView>,
    step: CreateStepView,
) -> bool {
    &&& !(step is Created) ==> after == before
    &&& step matches CreateStepView::Created { response } ==> after == before.push(response.tunnel)
    &&& ports_unique(before) ==> ports_unique(after)
}

/// Adding a tunnel keeps to `settles`.
pub proof fn lemma_stored_is_safe(tunnels: Seq<TunnelView>, tunnel: TunnelView, hostname: Seq<char>)
    ensures
        settles(
            tunnels,
            stored(tunnels, tunnel, hostname).tunnels,
            stored(tunnels, tunnel, hostname).step,
        ),
{
    if ports_unique(tunnels) && !port_claimed(tunnels, tunnel.local_port) {
        lemma_push_keeps_ports_unique(tunnels, tunnel);
    }
}

/// What follows once the tunnel `tunnel` has its identifier: an enabled
/// tunnel has its target probed, a disabled one is added to the list at once.
pub open spec fn admitted(
    tunnels: Seq<TunnelView>,
    tunnel: TunnelView,
    hostname: Seq<char>,
) -> CreateOutcome {
    if tunnel.enabled {
        unchanged(tunnels, CreateStepView::CheckReachability { tunnel })
    } else {
        stored(tunnels, tunnel, hostname)
    }
}

/// The step after the attempt to bind the local port, where `id` is the
/// identifier that the new tunnel gets.
pub open spec fn port_probed(
    tunnels: Seq<TunnelView>,
    request: CreateRequestView,
    available: bool,
    id: Seq<char>,
    hostname: Seq<char>,
) -> CreateOutcome {
    match port_refused(tunnels, request.local_port, available) {
        Some(error) => refused(tunnels, error),
        None => admitted(tunnels, new_tunnel(request, id), hostname),
    }
}

/// `tunnel` with the warning `warning_id`.
pub open spec fn with_warning(tunnel: TunnelView, warning_id: Option<Seq<char>>) -> TunnelView {
    TunnelView { warning_id, ..tunnel }
}

/// `tunnel` with the forwarder `pid`.
pub open spec fn with_pid(tunnel: TunnelView, pid: Option<u32>) -> TunnelView {
    TunnelView { pid, ..tunnel }
}

/// The step after the probe of the target: an unreachable host ends the
/// creation, a closed port is recorded as a warning, an open port leaves the
/// tunnel without one.
pub open spec fn reachability_known(
    tunnel: TunnelView,
    result: ReachabilityView,
) -> CreateStepView {
    match result {
        ReachabilityView::Reachable => CreateStepView::StartForwarder {
            tunnel: with_warning(tunnel, None),
        },
        ReachabilityView::HostReachablePortClosed => CreateStepView::StartForwarder {
            tunnel: with_warning(tunnel, Some(port_closed_key())),
        },
        ReachabilityView::HostUnreachable(reason) => CreateStepView::Rejected {
            error: RejectionView::HostUnreachable { host: tunnel.target_host, reason },
        },
    }
}

/// The step after the attempt to start the forwarder. Only an enabled tunnel
/// keeps the process id.
pub open spec fn started(
    tunnels: Seq<TunnelView>,
    tunnel: TunnelView,
    result: Result<u32, Seq<char>>,
    hostname: Seq<char>,
) -> CreateOutcome {
    match result {
        Ok(pid) => stored(
            tunnels,
            with_pid(
                tunnel,
                if tunnel.enabled {
                    Some(pid)
                } else {
                    None
                },
            ),
            hostname,
        ),
        Err(detail) => refused(tunnels, RejectionView::ForwarderFailed { detail }),
    }
}

/// The identifier of the tunnel that a step carries; empty if it carries
/// none.
pub open spec fn id_in(step: CreateStepView) -> Seq<char> {
    match step {
        CreateStepView::CheckReachability { tunnel } => tunnel.id,
        CreateStepView::StartForwarder { tunnel } => tunnel.id,
        CreateStepView::Created { response } => response.tunnel.id,
        _ => Seq::empty(),
    }
}

/// Checks the fields of a request.
fn check_request(request: &CreateTunnelRequest) -> (error: Option<Rejection>)
    ensures
        error.is_some() == invalid(request@).is_some(),
        error matches Some(e) ==> invalid(request@) == Some(e@),
{
    match check_fields(
        request.name.as_str(),
        request.local_port,
        request.target_host.as_str(),
        request.target_port,
    ) {
        Some(error) => Some(error),
        None => if request.local_port == request.target_port && is_loopback_host(
            request.target_host.as_str(),
        ) {
            Some(Rejection::SelfLoop { port: request.local_port })
        } else {
            None
        },
    }
}

/// Begins the creation of a tunnel: a request with a field that is not
/// acceptable is refused, and else the caller is asked to try the local port.
pub fn create_tunnel(request: CreateTunnelRequest) -> (step: CreateStep)
    ensures
        step@ == begun(request@),
{
    match check_request(&request) {
        Some(error) => CreateStep::Rejected { error },
        None => CreateStep::ProbePort { request },
    }
}

/// Tells why the local port cannot be taken, if it cannot.
fn check_port(tunnels: &Vec<Tunnel>, port: u16, available: bool) -> (error: Option<Rejection>)
    ensures
        error.is_some() == port_refused(tunnels.deep_view(), port, available).is_some(),
        error matches Some(e) ==> port_refused(tunnels.deep_view(), port, available) == Some(e@),
{
    if !available {
        Some(Rejection::PortInUse { port })
    } else if is_port_claimed(tunnels, port) {
        Some(Rejection::PortAssigned { port })
    } else {
        None
    }
}

/// Adds `tunnel` to the end of the list.
fn store_tunnel(tunnels: &mut Vec<Tunnel>, tunnel: Tunnel, hostname: &str) -> (step: CreateStep)
    ensures
        final(tunnels).deep_view() == stored(old(tunnels).deep_view(), tunnel@, hostname@).tunnels,
        step@ == stored(old(tunnels).deep_view(), tunnel@, hostname@).step,
        settles(old(tunnels).deep_view(), final(tunnels).deep_view(), step@),
{
    if is_port_claimed(tunnels, tunnel.local_port) {
        return CreateStep::Rejected { error: Rejection::PortAssigned { port: tunnel.local_port } };
    }
    let port_closed = match &tunnel.warning_id {
        Some(key) => str_eq(key.as_str(), "api.warning.port_closed"),
        None => false,
    };
    let warning = if port_closed {
        Some(port_closed_warning(tunnel.target_host.as_str(), tunnel.target_port))
    } else {
        None
    };
    let response = TunnelResponse {
        connection_url: connection_url_for(&tunnel, hostname),
        tunnel: tunnel.clone(),
        warning,
    };
    tunnels.push(tunnel);
    proof {
        assert(tunnels.deep_view() =~= old(tunnels).deep_view().push(tunnel@));
        lemma_stored_is_safe(old(tunnels).deep_view(), tunnel@, hostname@);
    }
    CreateStep::Created { response }
}

/// Goes on with the tunnel that `request` asks for under the identifier `id`:
/// the caller is asked to probe the target of an enabled tunnel; a disabled
/// tunnel is added to the list at once, unless a stored tunnel has its local
/// port. Whether a stored tunnel has the identifier is not looked at: if one
/// has, the identifier goes on finding that tunnel.
pub fn create_admitted(
    tunnels: &mut Vec<Tunnel>,
    request: CreateTunnelRequest,
    id: String,
    hostname: &str,
) -> (step: CreateStep)
    ensures
        final(tunnels).deep_view() == admitted(
            old(tunnels).deep_view(),
            new_tunnel(request@, id@),
            hostname@,
        ).tunnels,
        step@ == admitted(old(tunnels).deep_view(), new_tunnel(request@, id@), hostname@).step,
        settles(old(tunnels).deep_view(), final(tunnels).deep_view(), step@),
{
    let tunnel = Tunnel {
        id,
        name: String::from_str(trim(request.name.as_str())),
        local_port: request.local_port,
        target_host: String::from_str(trim(request.target_host.as_str())),
        target_port: request.target_port,
        enabled: request.enabled,
        pid: None,
        warning_id: None,
    };
    if tunnel.enabled {
        CreateStep::CheckReachability { tunnel }
    } else {
        store_tunnel(tunnels, tunnel, hostname)
    }
}

/// Goes on after the attempt to bind the local port: `available` tells
/// whether it could be bound.
///
/// A port that is in use, or that a stored tunnel has, ends the creation.
/// Else the tunnel gets a fresh identifier of 36 characters, and the creation
/// goes on as [`create_admitted`] says; the answer carries the identifier.
pub fn create_on_port_probed(
    tunnels: &mut Vec<Tunnel>,
    request: CreateTunnelRequest,
    available: bool,
    hostname: &str,
) -> (step: CreateStep)
    ensures
        final(tunnels).deep_view() == port_probed(
            old(tunnels).deep_view(),
            request@,
            available,
            id_in(step@),
            hostname@,
        ).tunnels,
        step@ == port_probed(
            old(tunnels).deep_view(),
            request@,
            available,
            id_in(step@),
            hostname@,
        ).step,
        settles(old(tunnels).deep_view(), final(tunnels).deep_view(), step@),
        !(step@ is Rejected) ==> id_in(step@).len() == 36,
{
    match check_port(tunnels, request.local_port, available) {
        Some(error) => CreateStep::Rejected { error },
        None => {
            let id = fresh_tunnel_id();
            create_admitted(tunnels, request, id, hostname)
        },
    }
}

/// Goes on after the probe of the target.
///
/// An unreachable host ends the creation. Else the caller is asked to start
/// the forwarder; the tunnel carries the port-closed warning exactly when the
/// host answered while nothing listens on the port.
pub fn create_on_reachability(tunnel: Tunnel, result: ReachabilityResult) -> (step: CreateStep)
    ensures
        step@ == reachability_known(tunnel@, result@),
{
    let mut tunnel = tunnel;
    match result {
        ReachabilityResult::Reachable => {
            tunnel.warning_id = None;
            CreateStep::StartForwarder { tunnel }
        },
        ReachabilityResult::HostReachablePortClosed => {
            tunnel.warning_id = Some(port_closed_warning_id());
            CreateStep::StartForwarder { tunnel }
        },
        ReachabilityResult::HostUnreachable(reason) => CreateStep::Rejected {
            error: Rejection::HostUnreachable { host: tunnel.target_host, reason },
        },
    }
}

/// Goes on after the attempt to start the forwarder: `result` is its process
/// id, or why it did not start.
///
/// A forwarder that did not start ends the creation. Else the tunnel is added
/// to the list with the process id, unless a stored tunnel has its local
/// port.
pub fn create_on_started(
    tunnels: &mut Vec<Tunnel>,
    tunnel: Tunnel,
    result: Result<u32, String>,
    hostname: &str,
) -> (step: CreateStep)
    ensures
        final(tunnels).deep_view() == started(
            old(tunnels).deep_view(),
            tunnel@,
            spawn_view(result),
            hostname@,
        ).tunnels,
        step@ == started(old(tunnels).deep_view(), tunnel@, spawn_view(result), hostname@).step,
        settles(old(tunnels).deep_view(), final(tunnels).deep_view(), step@),
{
    let mut tunnel = tunnel;
    match result {
        Ok(pid) => {
            tunnel.pid = if tunnel.enabled {
                Some(pid)
            } else {
                None
            };
            store_tunnel(tunnels, tunnel, hostname)
        },
        Err(detail) => CreateStep::Rejected { error: Rejection::ForwarderFailed { detail } },
    }
}

} // verus!
