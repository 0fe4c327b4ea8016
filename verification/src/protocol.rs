//! A creation and an update from their first step to their last.
//!
//! The steps of `create` and `update` ask the caller for work. The functions
//! here say what a whole operation comes to when the caller does the work
//! that is asked for, hands back what it showed, and leaves the tunnel list
//! alone in between.

use vstd::prelude::*;

use crate::create;
use crate::create::{CreateOutcome, CreateStepView};
use crate::delete;
use crate::delete::{DeleteOutcome, DeleteStepView};
use crate::models::{CreateRequestView, ReachabilityView, TunnelView, UpdateRequestView};
use crate::update;
use crate::update::{UpdateOutcome, UpdateStepView};

verus! {

/// What the caller's work shows in the course of one operation. A piece that
/// is not asked for is not looked at.
pub struct Answers {
    /// Whether the local port can be bound.
    pub port_available: bool,
    /// What the probe of the target shows.
    pub reachability: ReachabilityView,
    /// The process id of the new forwarder, or why it did not start.
    pub forwarder: Result<u32, Seq<char>>,
}

/// A whole creation: the tunnel gets the identifier `id`.
pub open spec fn create_run(
    tunnels: Seq<TunnelView>,
    request: CreateRequestView,
    id: Seq<char>,
    hostname: Seq<char>,
    answers: Answers,
) -> CreateOutcome {
    let first = create::begun(request);
    let second = match first {
        CreateStepView::ProbePort { request } => create::port_probed(
            tunnels,
            request,
            answers.port_available,
            id,
            hostname,
        ),
        _ => create::unchanged(tunnels, first),
    };
    let third = match second.step {
        CreateStepView::CheckReachability { tunnel } => create::unchanged(
            second.tunnels,
            create::reachability_known(tunnel, answers.reachability),
        ),
        _ => second,
    };
    match third.step {
        CreateStepView::StartForwarder { tunnel } => create::started(
            third.tunnels,
            tunnel,
            answers.forwarder,
            hostname,
        ),
        _ => third,
    }
}

/// A whole deletion of the tunnel `id`.
pub open spec fn delete_run(tunnels: Seq<TunnelView>, id: Seq<char>) -> DeleteOutcome {
    let first = delete::begun(tunnels, id);
    match first.step {
        DeleteStepView::StopForwarder { id, .. } => delete::removed(first.tunnels, id),
        _ => first,
    }
}

/// A whole update of the tunnel `id`.
pub open spec fn update_run(
    tunnels: Seq<TunnelView>,
    id: Seq<char>,
    changes: UpdateRequestView,
    hostname: Seq<char>,
    answers: Answers,
) -> UpdateOutcome {
    let first = update::begun(tunnels, id, changes, hostname);
    let second = match first.step {
        UpdateStepView::ProbePort { plan } => update::port_probed(
            first.tunnels,
            plan,
            answers.port_available,
            hostname,
        ),
        _ => first,
    };
    let third = match second.step {
        UpdateStepView::CheckReachability { plan } => update::reachability_known(
            second.tunnels,
            plan,
            answers.reachability,
            hostname,
        ),
        _ => second,
    };
    let fourth = match third.step {
        UpdateStepView::StopForwarder { plan, .. } => update::stopped(
            third.tunnels,
            plan,
            hostname,
        ),
        _ => third,
    };
    match fourth.step {
        UpdateStepView::StartForwarder { plan } => update::started(
            fourth.tunnels,
            plan,
            answers.forwarder,
            hostname,
        ),
        _ => fourth,
    }
}

} // verus!
