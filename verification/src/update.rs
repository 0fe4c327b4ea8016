//! Changing a stored tunnel.
//!
//! An update is a sequence of decisions with work in between that only the
//! caller can do: binding a port, probing the target, stopping and starting a
//! forwarder. Each function of this module takes what the last piece of work
//! showed and answers with an [`UpdateStep`]: the next piece of work, or how
//! the update ended. The fields of the tunnel change only in the step that
//! answers [`UpdateStep::Updated`]; its process id goes as soon as its
//! forwarder was stopped. The caller keeps the list locked from the first
//! step to the last.

use vstd::prelude::*;
use vstd::string::*;

use crate::addr::{is_loopback_host, is_self_loop};
use crate::fields::{check_fields, malformed};
use crate::forwarder::PORT_RELEASE_MILLIS;
use crate::messages::ApiMessageView;
use crate::models::{
    clone_text, spawn_view, ReachabilityResult, ReachabilityView, Tunnel, TunnelView,
    UpdateRequestView, UpdateTunnelRequest,
};
use crate::rejection::{Rejection, RejectionView};
use crate::responses::{
    connection_url_for, port_closed_key, port_closed_message, port_closed_warning,
    port_closed_warning_id, response_for, TunnelResponse, TunnelResponseView,
};
use crate::store::{
    find_tunnel, forwarder_gone, is_port_claimed_by_other, lemma_forwarder_gone, lookup,
    port_claimed_by_other, ports_unique, sheds_pids,
};
use crate::text::{trim, trimmed};

verus! {

/// What an update does to the warning that the tunnel carries.
#[derive(Debug, Clone, Copy, PartialEq, Eq, Structural)]
pub enum WarningChange {
    /// No reachability check ran and the tunnel stays enabled: the warning
    /// stays as it is.
    Keep,
    /// The tunnel ends disabled, or its target was found reachable.
    Clear,
    /// The target host answered while nothing listens on the target port.
    PortClosed,
}

/// What an update in progress has decided so far.
#[derive(Debug, PartialEq, Eq)]
pub struct UpdatePlan {
    /// The tunnel that is updated.
    pub id: String,
    /// The fields of the tunnel after the update.
    pub name: String,
    pub local_port: u16,
    pub target_host: String,
    pub target_port: u16,
    pub enabled: bool,
    /// The local port differs from the stored one.
    pub port_changed: bool,
    /// The target must be probed before the update is accepted.
    pub needs_check: bool,
    /// The forwarder that runs for the tunnel as stored.
    pub old_pid: Option<u32>,
    pub warning: WarningChange,
}

/// An `UpdatePlan` with its strings as character sequences.
pub struct UpdatePlanView {
    pub id: Seq<char>,
    pub name: Seq<char>,
    pub local_port: u16,
    pub target_host: Seq<char>,
    pub target_port: u16,
    pub enabled: bool,
    pub port_changed: bool,
    pub needs_check: bool,
    pub old_pid: Option<u32>,
    pub warning: WarningChange,
}

impl View for UpdatePlan {
    type V = UpdatePlanView;

    open spec fn view(&self) -> UpdatePlanView {
        UpdatePlanView {
            id: self.id@,
            name: self.name@,
            local_port: self.local_port,
            target_host: self.target_host@,
            target_port: self.target_port,
            enabled: self.enabled,
            port_changed: self.port_changed,
            needs_check: self.needs_check,
            old_pid: self.old_pid,
            warning: self.warning,
        }
    }
}

/// The next piece of work of an update, or its end.
#[derive(Debug, PartialEq, Eq)]
pub enum UpdateStep {
    /// Try to bind `plan.local_port`, then call [`update_on_port_probed`].
    ProbePort { plan: UpdatePlan },
    /// Probe `plan.target_host:plan.target_port`, then call
    /// [`update_on_reachability`].
    CheckReachability { plan: UpdatePlan },
    /// Stop the forwarder `pid`, wait `pause_millis` milliseconds so that the
    /// system can release the port, then call [`update_on_stopped`].
    StopForwarder { plan: UpdatePlan, pid: u32, pause_millis: u64 },
    /// Start a forwarder from `plan.local_port` to
    /// `plan.target_host:plan.target_port`, then call [`update_on_started`].
    StartForwarder { plan: UpdatePlan },
    /// The tunnel was changed in the list, which is to be written out.
    Updated { response: TunnelResponse },
    /// The update was refused. The list is as it was, but that the tunnel has
    /// no process id if its forwarder was stopped.
    Rejected { error: Rejection },
}

/// An `UpdateStep` with its strings as character sequences.
pub enum UpdateStepView {
    ProbePort { plan: UpdatePlanView },
    CheckReachability { plan: UpdatePlanView },
    StopForwarder { plan: UpdatePlanView, pid: u32, pause_millis: u64 },
    StartForwarder { plan: UpdatePlanView },
    Updated { response: TunnelResponseView },
    Rejected { error: RejectionView },
}

impl View for UpdateStep {
    type V = UpdateStepView;

    open spec fn view(&self) -> UpdateStepView {
        match self {
            UpdateStep::ProbePort { plan } => UpdateStepView::ProbePort { plan: plan@ },
            UpdateStep::CheckReachability { plan } => UpdateStepView::CheckReachability {
                plan: plan@,
            },
            UpdateStep::StopForwarder { plan, pid, pause_millis } => {
                UpdateStepView::StopForwarder {
                    plan: plan@,
                    pid: *pid,
                    pause_millis: *pause_millis,
                }
            },
            UpdateStep::StartForwarder { plan } => UpdateStepView::StartForwarder { plan: plan@ },
            UpdateStep::Updated { response } => UpdateStepView::Updated { response: response@ },
            UpdateStep::Rejected { error } => UpdateStepView::Rejected { error: error@ },
        }
    }
}

/// The tunnel list after a step, and what the step answered.
pub struct UpdateOutcome {
    pub tunnels: Seq<TunnelView>,
    pub step: UpdateStepView,
}

/// The step answers `step` and leaves the list as it is.
pub open spec fn unchanged(tunnels: Seq<TunnelView>, step: UpdateStepView) -> UpdateOutcome {
    UpdateOutcome { tunnels, step }
}

/// The update is refused and the list stays as it is.
pub open spec fn refused(tunnels: Seq<TunnelView>, error: RejectionView) -> UpdateOutcome {
    UpdateOutcome { tunnels, step: UpdateStepView::Rejected { error } }
}

/// The plan for applying `changes` to `tunnel`. A field that `changes` does
/// not give keeps its value; a name or a host that it gives is trimmed. The
/// target is probed exactly when the tunnel ends enabled and was disabled, or
/// its target or its local port changes. A tunnel that ends disabled loses its
/// warning.
pub open spec fn merge_plan(tunnel: TunnelView, changes: UpdateRequestView) -> UpdatePlanView {
    let name = match changes.name {
        Some(name) => trimmed(name),
        None => tunnel.name,
    };
    let local_port = match changes.local_port {
        Some(port) => port,
        None => tunnel.local_port,
    };
    let target_host = match changes.target_host {
        Some(host) => trimmed(host),
        None => tunnel.target_host,
    };
    let target_port = match changes.target_port {
        Some(port) => port,
        None => tunnel.target_port,
    };
    let enabled = match changes.enabled {
        Some(enabled) => enabled,
        None => tunnel.enabled,
    };
    let port_changed = local_port != tunnel.local_port;
    let needs_check = enabled && (!tunnel.enabled || target_host != tunnel.target_host
        || target_port != tunnel.target_port || port_changed);
    UpdatePlanView {
        id: tunnel.id,
        name,
        local_port,
        target_host,
        target_port,
        enabled,
        port_changed,
        needs_check,
        old_pid: tunnel.pid,
        warning: if enabled {
            WarningChange::Keep
        } else {
            WarningChange::Clear
        },
    }
}

/// `plan` with another decision on the warning.
pub open spec fn with_warning(plan: UpdatePlanView, warning: WarningChange) -> UpdatePlanView {
    UpdatePlanView { warning, ..plan }
}

/// `tunnel` with the fields of `plan`. The identifier stays. The forwarder is
/// `pid` if the tunnel ends enabled and none otherwise. The warning follows
/// `plan.warning`.
pub open spec fn applied(tunnel: TunnelView, plan: UpdatePlanView, pid: Option<u32>) -> TunnelView {
    TunnelView {
        id: tunnel.id,
        name: plan.name,
        local_port: plan.local_port,
        target_host: plan.target_host,
        target_port: plan.target_port,
        enabled: plan.enabled,
        pid: if plan.enabled {
            pid
        } else {
            None
        },
        warning_id: match plan.warning {
            WarningChange::Keep => tunnel.warning_id,
            WarningChange::Clear => None,
            WarningChange::PortClosed => Some(port_closed_key()),
        },
    }
}

/// The warning that the answer to an update carries: one only when this
/// update found the target port closed.
pub open spec fn warning_of(plan: UpdatePlanView) -> Option<ApiMessageView> {
    if plan.warning == WarningChange::PortClosed {
        Some(port_closed_message(plan.target_host, plan.target_port))
    } else {
        None
    }
}

/// Writing the plan into the list. The tunnel is looked up again; the update
/// is refused if it is gone, or if its local port changes to one that another
/// tunnel has.
pub open spec fn commit(
    tunnels: Seq<TunnelView>,
    plan: UpdatePlanView,
    pid: Option<u32>,
    hostname: Seq<char>,
) -> UpdateOutcome {
    match lookup(tunnels, plan.id) {
        None => refused(tunnels, RejectionView::TunnelNotFound { id: plan.id }),
        Some(i) => if tunnels[i].local_port != plan.local_port && port_claimed_by_other(
            tunnels,
            i,
            plan.local_port,
        ) {
            refused(tunnels, RejectionView::PortAssigned { port: plan.local_port })
        } else {
            let updated = applied(tunnels[i], plan, pid);
            UpdateOutcome {
                tunnels: tunnels.update(i, updated),
                step: UpdateStepView::Updated {
                    response: response_for(updated, hostname, warning_of(plan)),
                },
            }
        },
    }
}

/// What every step of an update keeps to: where the step does not answer
/// `Updated`, the list is as it was but for a process id that a tunnel lost
/// with its forwarder; it keeps its length; and if no two tunnels had the
/// same local port before, none have after.
pub open spec fn settles(
    before: Seq<TunnelView>,
    after: Seq<TunnelView>,
    step: UpdateStepView,
) -> bool {
    &&& !(step is Updated) ==> sheds_pids(before, after)
    &&& after.len() == before.len()
    &&& ports_unique(before) ==> ports_unique(after)
}

/// What follows once the old forwarder is out of the way: a new forwarder is
/// started if the tunnel ends enabled, else the plan is written into the list.
pub open spec fn after_stop(
    tunnels: Seq<TunnelView>,
    plan: UpdatePlanView,
    hostname: Seq<char>,
) -> UpdateOutcome {
    if plan.enabled {
        unchanged(tunnels, UpdateStepView::StartForwarder { plan })
    } else {
        commit(tunnels, plan, None, hostname)
    }
}

/// The step after the forwarder of the stored tunnel was stopped: the stored
/// tunnel has no process id from here on, whatever follows.
pub open spec fn stopped(
    tunnels: Seq<TunnelView>,
    plan: UpdatePlanView,
    hostname: Seq<char>,
) -> UpdateOutcome {
    after_stop(forwarder_gone(tunnels, plan.id), plan, hostname)
}

/// How long to wait after the old forwarder was stopped: the port needs time
/// to be released if the local port stays the same.
pub open spec fn pause_for(plan: UpdatePlanView) -> u64 {
    if plan.port_changed {
        0
    } else {
        PORT_RELEASE_MILLIS
    }
}

/// What follows once the target is known to be acceptable: a forwarder that
/// runs for the stored tunnel is stopped first, with a pause if the local
/// port stays the same.
pub open spec fn after_check(
    tunnels: Seq<TunnelView>,
    plan: UpdatePlanView,
    hostname: Seq<char>,
) -> UpdateOutcome {
    match plan.old_pid {
        Some(pid) => unchanged(
            tunnels,
            UpdateStepView::StopForwarder { plan, pid, pause_millis: pause_for(plan) },
        ),
        None => after_stop(tunnels, plan, hostname),
    }
}

/// What follows once the local port is known to be free: a self-loop is
/// refused, then the target is probed if the plan asks for it.
pub open spec fn after_port(
    tunnels: Seq<TunnelView>,
    plan: UpdatePlanView,
    hostname: Seq<char>,
) -> UpdateOutcome {
    if is_self_loop(plan.local_port, plan.target_host, plan.target_port) {
        refused(tunnels, RejectionView::SelfLoop { port: plan.local_port })
    } else if plan.needs_check {
        unchanged(tunnels, UpdateStepView::CheckReachability { plan })
    } else {
        after_check(tunnels, plan, hostname)
    }
}

/// The first step of updating the tunnel `id` with `changes`: an unknown
/// identifier is refused; then a tunnel that would end with a malformed
/// field; then, if the local port changes, a port that another tunnel has.
pub open spec fn begun(
    tunnels: Seq<TunnelView>,
    id: Seq<char>,
    changes: UpdateRequestView,
    hostname: Seq<char>,
) -> UpdateOutcome {
    match lookup(tunnels, id) {
        None => refused(tunnels, RejectionView::TunnelNotFound { id }),
        Some(i) => {
            let plan = merge_plan(tunnels[i], changes);
            let error = malformed(plan.name, plan.local_port, plan.target_host, plan.target_port);
            if error is Some {
                refused(tunnels, error->0)
            } else if !plan.port_changed {
                after_port(tunnels, plan, hostname)
            } else if port_claimed_by_other(tunnels, i, plan.local_port) {
                refused(tunnels, RejectionView::PortAssigned { port: plan.local_port })
            } else {
                unchanged(tunnels, UpdateStepView::ProbePort { plan })
            }
        },
    }
}

/// The step after the attempt to bind the new local port.
pub open spec fn port_probed(
    tunnels: Seq<TunnelView>,
    plan: UpdatePlanView,
    available: bool,
    hostname: Seq<char>,
) -> UpdateOutcome {
    if available {
        after_port(tunnels, plan, hostname)
    } else {
        refused(tunnels, RejectionView::PortInUse { port: plan.local_port })
    }
}

/// The step after the probe of the target: an unreachable host ends the
/// update, a closed port is recorded as a warning, an open port clears it.
pub open spec fn reachability_known(
    tunnels: Seq<TunnelView>,
    plan: UpdatePlanView,
    result: ReachabilityView,
    hostname: Seq<char>,
) -> UpdateOutcome {
    match result {
        ReachabilityView::Reachable => after_check(
            tunnels,
            with_warning(plan, WarningChange::Clear),
            hostname,
        ),
        ReachabilityView::HostReachablePortClosed => after_check(
            tunnels,
            with_warning(plan, WarningChange::PortClosed),
            hostname,
        ),
        ReachabilityView::HostUnreachable(reason) => refused(
            tunnels,
            RejectionView::HostUnreachable { host: plan.target_host, reason },
        ),
    }
}

/// The step after the attempt to start the new forwarder.
pub open spec fn started(
    tunnels: Seq<TunnelView>,
    plan: UpdatePlanView,
    result: Result<u32, Seq<char>>,
    hostname: Seq<char>,
) -> UpdateOutcome {
    match result {
        Ok(pid) => commit(tunnels, plan, Some(pid), hostname),
        Err(detail) => refused(tunnels, RejectionView::ForwarderFailed { detail }),
    }
}

/// Writes the plan into the list.
fn commit_plan(
    tunnels: &mut Vec<Tunnel>,
    plan: UpdatePlan,
    pid: Option<u32>,
    hostname: &str,
) -> (step: UpdateStep)
    ensures
        final(tunnels).deep_view() == commit(
            old(tunnels).deep_view(),
            plan@,
            pid,
            hostname@,
        ).tunnels,
        step@ == commit(old(tunnels).deep_view(), plan@, pid, hostname@).step,
        settles(old(tunnels).deep_view(), final(tunnels).deep_view(), step@),
{
    match find_tunnel(tunnels, plan.id.as_str()) {
        None => UpdateStep::Rejected { error: Rejection::TunnelNotFound { id: plan.id } },
        Some(i) => {
            let stored = &tunnels[i];
            if stored.local_port != plan.local_port && is_port_claimed_by_other(
                tunnels,
                i,
                plan.local_port,
            ) {
                UpdateStep::Rejected { error: Rejection::PortAssigned { port: plan.local_port } }
            } else {
                let warning = match plan.warning {
                    WarningChange::PortClosed => Some(
                        port_closed_warning(plan.target_host.as_str(), plan.target_port),
                    ),
                    _ => None,
                };
                let warning_id = match plan.warning {
                    WarningChange::Keep => clone_text(&stored.warning_id),
                    WarningChange::Clear => None,
                    WarningChange::PortClosed => Some(port_closed_warning_id()),
                };
                let updated = Tunnel {
                    id: stored.id.clone(),
                    name: plan.name,
                    local_port: plan.local_port,
                    target_host: plan.target_host,
                    target_port: plan.target_port,
                    enabled: plan.enabled,
                    pid: if plan.enabled {
                        pid
                    } else {
                        None
                    },
                    warning_id,
                };
                let response = TunnelResponse {
                    connection_url: connection_url_for(&updated, hostname),
                    tunnel: updated.clone(),
                    warning,
                };
                tunnels.set(i, updated);
                assert(tunnels.deep_view() =~= old(tunnels).deep_view().update(
                    i as int,
                    updated@,
                ));
                UpdateStep::Updated { response }
            }
        },
    }
}

/// Goes on once the old forwarder is out of the way.
fn continue_after_stop(tunnels: &mut Vec<Tunnel>, plan: UpdatePlan, hostname: &str) -> (step:
    UpdateStep)
    ensures
        final(tunnels).deep_view() == after_stop(
            old(tunnels).deep_view(),
            plan@,
            hostname@,
        ).tunnels,
        step@ == after_stop(old(tunnels).deep_view(), plan@, hostname@).step,
        settles(old(tunnels).deep_view(), final(tunnels).deep_view(), step@),
{
    if plan.enabled {
        UpdateStep::StartForwarder { plan }
    } else {
        commit_plan(tunnels, plan, None, hostname)
    }
}

/// Goes on once the target is known to be acceptable.
fn continue_after_check(tunnels: &mut Vec<Tunnel>, plan: UpdatePlan, hostname: &str) -> (step:
    UpdateStep)
    ensures
        final(tunnels).deep_view() == after_check(
            old(tunnels).deep_view(),
            plan@,
            hostname@,
        ).tunnels,
        step@ == after_check(old(tunnels).deep_view(), plan@, hostname@).step,
        settles(old(tunnels).deep_view(), final(tunnels).deep_view(), step@),
{
    match plan.old_pid {
        Some(pid) => {
            let pause_millis = if plan.port_changed {
                0
            } else {
                PORT_RELEASE_MILLIS
            };
            UpdateStep::StopForwarder { plan, pid, pause_millis }
        },
        None => continue_after_stop(tunnels, plan, hostname),
    }
}

/// Goes on once the local port is known to be free.
fn continue_after_port(tunnels: &mut Vec<Tunnel>, plan: UpdatePlan, hostname: &str) -> (step:
    UpdateStep)
    ensures
        final(tunnels).deep_view() == after_port(
            old(tunnels).deep_view(),
            plan@,
            hostname@,
        ).tunnels,
        step@ == after_port(old(tunnels).deep_view(), plan@, hostname@).step,
        settles(old(tunnels).deep_view(), final(tunnels).deep_view(), step@),
{
    if plan.local_port == plan.target_port && is_loopback_host(plan.target_host.as_str()) {
        UpdateStep::Rejected { error: Rejection::SelfLoop { port: plan.local_port } }
    } else if plan.needs_check {
        UpdateStep::CheckReachability { plan }
    } else {
        continue_after_check(tunnels, plan, hostname)
    }
}

/// Makes the plan for applying `changes` to `tunnel`.
fn plan_update(tunnel: &Tunnel, changes: UpdateTunnelRequest) -> (plan: UpdatePlan)
    ensures
        plan@ == merge_plan(tunnel@, changes@),
{
    let name = match changes.name {
        Some(name) => String::from_str(trim(name.as_str())),
        None => tunnel.name.clone(),
    };
    let local_port = match changes.local_port {
        Some(port) => port,
        None => tunnel.local_port,
    };
    let target_host = match changes.target_host {
        Some(host) => String::from_str(trim(host.as_str())),
        None => tunnel.target_host.clone(),
    };
    let target_port = match changes.target_port {
        Some(port) => port,
        None => tunnel.target_port,
    };
    let enabled = match changes.enabled {
        Some(enabled) => enabled,
        None => tunnel.enabled,
    };
    let port_changed = local_port != tunnel.local_port;
    let target_changed = !(target_host == tunnel.target_host) || target_port != tunnel.target_port;
    let needs_check = enabled && (!tunnel.enabled || target_changed || port_changed);
    UpdatePlan {
        id: tunnel.id.clone(),
        name,
        local_port,
        target_host,
        target_port,
        enabled,
        port_changed,
        needs_check,
        old_pid: tunnel.pid,
        warning: if enabled {
            WarningChange::Keep
        } else {
            WarningChange::Clear
        },
    }
}

/// Begins the update of the tunnel `id` with `changes`.
///
/// An unknown `id` is refused. So is an update after which the name or the
/// target host would be empty once trimmed, or a port zero. If the local port
/// changes, a port that another stored tunnel has is refused, and else the
/// caller is asked to try the port.
/// If it does not change, the update goes on as after a successful try: see
/// [`update_on_port_probed`].
pub fn update_tunnel(
    tunnels: &mut Vec<Tunnel>,
    id: &str,
    changes: UpdateTunnelRequest,
    hostname: &str,
) -> (step: UpdateStep)
    ensures
        final(tunnels).deep_view() == begun(
            old(tunnels).deep_view(),
            id@,
            changes@,
            hostname@,
        ).tunnels,
        step@ == begun(old(tunnels).deep_view(), id@, changes@, hostname@).step,
        settles(old(tunnels).deep_view(), final(tunnels).deep_view(), step@),
{
    match find_tunnel(tunnels, id) {
        None => UpdateStep::Rejected {
            error: Rejection::TunnelNotFound { id: String::from_str(id) },
        },
        Some(i) => {
            let plan = plan_update(&tunnels[i], changes);
            let malformed = check_fields(
                plan.name.as_str(),
                plan.local_port,
                plan.target_host.as_str(),
                plan.target_port,
            );
            if let Some(error) = malformed {
                UpdateStep::Rejected { error }
            } else if !plan.port_changed {
                continue_after_port(tunnels, plan, hostname)
            } else if is_port_claimed_by_other(tunnels, i, plan.local_port) {
                UpdateStep::Rejected { error: Rejection::PortAssigned { port: plan.local_port } }
            } else {
                UpdateStep::ProbePort { plan }
            }
        },
    }
}

/// Goes on after the attempt to bind the new local port: `available` tells
/// whether it could be bound.
///
/// A port in use ends the update. Else a tunnel that would forward to itself
/// is refused; then the caller is asked to probe the target if the plan needs
/// it, and else the update goes on as after a successful probe: see
/// [`update_on_reachability`].
pub fn update_on_port_probed(
    tunnels: &mut Vec<Tunnel>,
    plan: UpdatePlan,
    available: bool,
    hostname: &str,
) -> (step: UpdateStep)
    ensures
        final(tunnels).deep_view() == port_probed(
            old(tunnels).deep_view(),
            plan@,
            available,
            hostname@,
        ).tunnels,
        step@ == port_probed(old(tunnels).deep_view(), plan@, available, hostname@).step,
        settles(old(tunnels).deep_view(), final(tunnels).deep_view(), step@),
{
    if available {
        continue_after_port(tunnels, plan, hostname)
    } else {
        UpdateStep::Rejected { error: Rejection::PortInUse { port: plan.local_port } }
    }
}

/// Goes on after the probe of the target.
///
/// An unreachable host ends the update. Else the warning of the tunnel is
/// decided, and the caller is asked to stop the forwarder of the stored
/// tunnel if one runs; if none runs the update goes on as after the stop: see
/// [`update_on_stopped`].
pub fn update_on_reachability(
    tunnels: &mut Vec<Tunnel>,
    plan: UpdatePlan,
    result: ReachabilityResult,
    hostname: &str,
) -> (step: UpdateStep)
    ensures
        final(tunnels).deep_view() == reachability_known(
            old(tunnels).deep_view(),
            plan@,
            result@,
            hostname@,
        ).tunnels,
        step@ == reachability_known(old(tunnels).deep_view(), plan@, result@, hostname@).step,
        settles(old(tunnels).deep_view(), final(tunnels).deep_view(), step@),
{
    let mut plan = plan;
    match result {
        ReachabilityResult::Reachable => {
            plan.warning = WarningChange::Clear;
            continue_after_check(tunnels, plan, hostname)
        },
        ReachabilityResult::HostReachablePortClosed => {
            plan.warning = WarningChange::PortClosed;
            continue_after_check(tunnels, plan, hostname)
        },
        ReachabilityResult::HostUnreachable(reason) => UpdateStep::Rejected {
            error: Rejection::HostUnreachable { host: plan.target_host, reason },
        },
    }
}

/// Goes on after the forwarder of the stored tunnel was stopped; whether the
/// stop succeeded makes no difference.
///
/// The stored tunnel loses its process id, and keeps none if the update ends
/// without success. The caller is asked to start a forwarder if the tunnel
/// ends enabled; else the plan is written into the list.
pub fn update_on_stopped(tunnels: &mut Vec<Tunnel>, plan: UpdatePlan, hostname: &str) -> (step:
    UpdateStep)
    ensures
        final(tunnels).deep_view() == stopped(old(tunnels).deep_view(), plan@, hostname@).tunnels,
        step@ == stopped(old(tunnels).deep_view(), plan@, hostname@).step,
        settles(old(tunnels).deep_view(), final(tunnels).deep_view(), step@),
{
    match find_tunnel(tunnels, plan.id.as_str()) {
        Some(i) => {
            let mut tunnel = tunnels[i].clone();
            tunnel.pid = None;
            tunnels.set(i, tunnel);
        },
        None => {},
    }
    proof {
        assert(tunnels.deep_view() =~= forwarder_gone(old(tunnels).deep_view(), plan@.id));
        lemma_forwarder_gone(old(tunnels).deep_view(), plan@.id);
    }
    continue_after_stop(tunnels, plan, hostname)
}

/// Goes on after the attempt to start the new forwarder: `result` is its
/// process id, or why it did not start.
///
/// A forwarder that did not start ends the update. Else the plan is written
/// into the list.
pub fn update_on_started(
    tunnels: &mut Vec<Tunnel>,
    plan: UpdatePlan,
    result: Result<u32, String>,
    hostname: &str,
) -> (step: UpdateStep)
    ensures
        final(tunnels).deep_view() == started(
            old(tunnels).deep_view(),
            plan@,
            spawn_view(result),
            hostname@,
        ).tunnels,
        step@ == started(old(tunnels).deep_view(), plan@, spawn_view(result), hostname@).step,
        settles(old(tunnels).deep_view(), final(tunnels).deep_view(), step@),
{
    match result {
        Ok(pid) => commit_plan(tunnels, plan, Some(pid), hostname),
        Err(detail) => UpdateStep::Rejected { error: Rejection::ForwarderFailed { detail } },
    }
}

} // verus!
