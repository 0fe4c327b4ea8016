//! What holds of a creation, an update and a deletion as a whole, whatever
//! the request and whatever the caller's work shows.

use vstd::prelude::*;

use crate::addr::is_self_loop;
use crate::create;
use crate::create::CreateStepView;
use crate::delete;
use crate::fields::{all_well_formed, malformed, well_formed};
use crate::models::{CreateRequestView, ReachabilityView, TunnelView, UpdateRequestView};
use crate::protocol::{create_run, delete_run, update_run, Answers};
use crate::rejection::{status_of, RejectionView};
use crate::responses::{port_closed_key, port_closed_message, response_for};
use crate::store::{
    forwarder_gone, has_id, idle, ids_unique, is_first_with_id, lemma_forwarder_gone,
    lemma_lookup_exists, lemma_lookup_found, lemma_lookup_is, lemma_replace_keeps_ports_unique,
    lookup, pids_sound, port_claimed, port_claimed_by_other, ports_unique,
};
use crate::text::{lemma_trimmed_twice, trimmed};
use crate::update;
use crate::update::{UpdateStepView, WarningChange};

verus! {

/// The forwarder of an enabled tunnel can be had: the target is not
/// unreachable and the forwarder starts. Nothing is asked of a disabled
/// tunnel.
pub open spec fn forwarder_ready(enabled: bool, answers: Answers) -> bool {
    enabled ==> !(answers.reachability is HostUnreachable) && answers.forwarder is Ok
}

/// A creation ends in `Created` or in `Rejected`. It is accepted exactly when
/// the request is valid, the local port is free on the system and in the
/// list, and the forwarder can be had. Then the new tunnel stands at the end
/// of the list; else the list is as it was.
pub proof fn law_create_all_or_nothing(
    tunnels: Seq<TunnelView>,
    request: CreateRequestView,
    id: Seq<char>,
    hostname: Seq<char>,
    answers: Answers,
)
    ensures
        ({
            let outcome = create_run(tunnels, request, id, hostname, answers);
            let accepted = create::invalid(request) is None && create::port_refused(
                tunnels,
                request.local_port,
                answers.port_available,
            ) is None && forwarder_ready(request.enabled, answers);
            &&& outcome.step is Created || outcome.step is Rejected
            &&& outcome.step is Created <==> accepted
            &&& outcome.step is Rejected ==> outcome.tunnels == tunnels
            &&& outcome.step matches CreateStepView::Created { response } ==> {
                &&& outcome.tunnels == tunnels.push(response.tunnel)
                &&& response.tunnel.id == id
                &&& response.tunnel.name == trimmed(request.name)
                &&& response.tunnel.local_port == request.local_port
                &&& response.tunnel.target_host == trimmed(request.target_host)
                &&& response.tunnel.target_port == request.target_port
                &&& response.tunnel.enabled == request.enabled
                &&& response.tunnel.pid == if request.enabled {
                    Some(answers.forwarder->Ok_0)
                } else {
                    None
                }
            }
        }),
{
}

/// A creation leaves the local ports of the list unique if they were.
pub proof fn law_create_keeps_ports_unique(
    tunnels: Seq<TunnelView>,
    request: CreateRequestView,
    id: Seq<char>,
    hostname: Seq<char>,
    answers: Answers,
)
    requires
        ports_unique(tunnels),
    ensures
        ports_unique(create_run(tunnels, request, id, hostname, answers).tunnels),
{
    let tunnel = create::new_tunnel(request, id);
    create::lemma_stored_is_safe(tunnels, tunnel, hostname);
    if request.enabled {
        let probed = create::reachability_known(tunnel, answers.reachability);
        match (probed, answers.forwarder) {
            (CreateStepView::StartForwarder { tunnel: checked }, Ok(pid)) => {
                create::lemma_stored_is_safe(
                    tunnels,
                    create::with_pid(checked, Some(pid)),
                    hostname,
                );
            },
            _ => {},
        }
    }
}

/// A creation whose target is unreachable, or whose forwarder does not
/// start, is refused for that reason and leaves the list as it was.
pub proof fn law_create_fails_whole(
    tunnels: Seq<TunnelView>,
    request: CreateRequestView,
    id: Seq<char>,
    hostname: Seq<char>,
    answers: Answers,
)
    requires
        request.enabled,
        create::invalid(request) is None,
        create::port_refused(tunnels, request.local_port, answers.port_available) is None,
    ensures
        answers.reachability matches ReachabilityView::HostUnreachable(reason) ==> create_run(
            tunnels,
            request,
            id,
            hostname,
            answers,
        ) == create::refused(
            tunnels,
            RejectionView::HostUnreachable { host: trimmed(request.target_host), reason },
        ),
        !(answers.reachability is HostUnreachable) ==> (answers.forwarder matches Err(detail)
            ==> create_run(tunnels, request, id, hostname, answers) == create::refused(
            tunnels,
            RejectionView::ForwarderFailed { detail },
        )),
{
}

/// A creation that would forward a port of this machine to itself is refused
/// as a malformed request, and the list stays as it was.
pub proof fn law_create_refuses_self_loop(
    tunnels: Seq<TunnelView>,
    request: CreateRequestView,
    id: Seq<char>,
    hostname: Seq<char>,
    answers: Answers,
)
    requires
        is_self_loop(request.local_port, request.target_host, request.target_port),
    ensures
        ({
            let outcome = create_run(tunnels, request, id, hostname, answers);
            &&& outcome.tunnels == tunnels
            &&& outcome.step matches CreateStepView::Rejected { error } && status_of(error) == 400
        }),
{
}

/// The warning of a created tunnel: the port-closed warning if the probe of
/// its target found the host up and the port closed, and none otherwise. The
/// answer carries the warning message exactly when the tunnel carries the
/// warning key.
pub proof fn law_create_warns_of_closed_port(
    tunnels: Seq<TunnelView>,
    request: CreateRequestView,
    id: Seq<char>,
    hostname: Seq<char>,
    answers: Answers,
)
    requires
        create_run(tunnels, request, id, hostname, answers).step is Created,
    ensures
        ({
            let outcome = create_run(tunnels, request, id, hostname, answers);
            let response = outcome.step->Created_response;
            let closed = request.enabled && answers.reachability is HostReachablePortClosed;
            &&& response.tunnel.warning_id == if closed {
                Some(port_closed_key())
            } else {
                None
            }
            &&& response.warning == if closed {
                Some(port_closed_message(response.tunnel.target_host, response.tunnel.target_port))
            } else {
                None
            }
            &&& outcome.tunnels.last() == response.tunnel
        }),
{
}

/// The plan of a whole update of the tunnel `id`, which the list holds.
pub open spec fn plan_of(
    tunnels: Seq<TunnelView>,
    id: Seq<char>,
    changes: UpdateRequestView,
) -> update::UpdatePlanView {
    update::merge_plan(tunnels[lookup(tunnels, id)->0], changes)
}

/// The decision on the warning with which a whole update ends: that of the
/// plan if the target was not probed, and else what the probe showed.
pub open spec fn final_warning(plan: update::UpdatePlanView, answers: Answers) -> WarningChange {
    if !plan.needs_check {
        plan.warning
    } else if answers.reachability is Reachable {
        WarningChange::Clear
    } else {
        WarningChange::PortClosed
    }
}

/// What is malformed in the fields that `plan` gives the tunnel, if anything.
pub open spec fn plan_malformed(plan: update::UpdatePlanView) -> Option<RejectionView> {
    malformed(plan.name, plan.local_port, plan.target_host, plan.target_port)
}

/// An update passes its checks: the tunnel is there; no field of the tunnel
/// would end malformed; if the local port changes, no other tunnel has the
/// new port and the system has it free; it is no self-loop; and the target,
/// if it must be probed, is not unreachable.
pub open spec fn update_checked(
    tunnels: Seq<TunnelView>,
    id: Seq<char>,
    changes: UpdateRequestView,
    answers: Answers,
) -> bool {
    let plan = plan_of(tunnels, id, changes);
    &&& lookup(tunnels, id) is Some
    &&& plan_malformed(plan) is None
    &&& plan.port_changed ==> !port_claimed_by_other(
        tunnels,
        lookup(tunnels, id)->0,
        plan.local_port,
    ) && answers.port_available
    &&& !is_self_loop(plan.local_port, plan.target_host, plan.target_port)
    &&& plan.needs_check ==> !(answers.reachability is HostUnreachable)
}

/// An update is accepted: it passes its checks, and the forwarder, if one is
/// wanted, starts.
pub open spec fn update_accepted(
    tunnels: Seq<TunnelView>,
    id: Seq<char>,
    changes: UpdateRequestView,
    answers: Answers,
) -> bool {
    &&& update_checked(tunnels, id, changes, answers)
    &&& plan_of(tunnels, id, changes).enabled ==> answers.forwarder is Ok
}

/// An update stops the forwarder of the stored tunnel: it passes its checks
/// and the stored tunnel has a forwarder.
pub open spec fn update_stops_forwarder(
    tunnels: Seq<TunnelView>,
    id: Seq<char>,
    changes: UpdateRequestView,
    answers: Answers,
) -> bool {
    &&& update_checked(tunnels, id, changes, answers)
    &&& plan_of(tunnels, id, changes).old_pid is Some
}

/// An update ends in `Updated` or in `Rejected`. It is accepted exactly when
/// `update_accepted` holds. Then the tunnel stands in its place with the
/// fields of the plan, the new process id and the warning as decided. Else
/// the list is as it was, but for the process id of the tunnel if its
/// forwarder was stopped: the tunnel has none then.
pub proof fn law_update_all_or_nothing(
    tunnels: Seq<TunnelView>,
    id: Seq<char>,
    changes: UpdateRequestView,
    hostname: Seq<char>,
    answers: Answers,
)
    ensures
        ({
            let outcome = update_run(tunnels, id, changes, hostname, answers);
            let at = lookup(tunnels, id)->0;
            let plan = update::with_warning(
                plan_of(tunnels, id, changes),
                final_warning(plan_of(tunnels, id, changes), answers),
            );
            let pid = match answers.forwarder {
                Ok(pid) => Some(pid),
                Err(_) => None,
            };
            &&& outcome.step is Updated || outcome.step is Rejected
            &&& outcome.step is Updated <==> update_accepted(tunnels, id, changes, answers)
            &&& outcome.step is Rejected ==> outcome.tunnels == if update_stops_forwarder(
                tunnels,
                id,
                changes,
                answers,
            ) {
                forwarder_gone(tunnels, id)
            } else {
                tunnels
            }
            &&& outcome.step matches UpdateStepView::Updated { response } ==> {
                &&& response.tunnel == update::applied(tunnels[at], plan, pid)
                &&& response == response_for(response.tunnel, hostname, update::warning_of(plan))
                &&& outcome.tunnels == tunnels.update(at, response.tunnel)
            }
        }),
{
    if lookup(tunnels, id) is Some {
        lemma_lookup_found(tunnels, id);
        lemma_forwarder_gone(tunnels, id);
        let at = lookup(tunnels, id)->0;
        let outcome = update_run(tunnels, id, changes, hostname, answers);
        if outcome.step is Updated {
            assert(outcome.tunnels =~= tunnels.update(at, outcome.step->Updated_response.tunnel));
        }
    }
}

/// An update leaves the local ports of the list unique if they were.
pub proof fn law_update_keeps_ports_unique(
    tunnels: Seq<TunnelView>,
    id: Seq<char>,
    changes: UpdateRequestView,
    hostname: Seq<char>,
    answers: Answers,
)
    requires
        ports_unique(tunnels),
    ensures
        ports_unique(update_run(tunnels, id, changes, hostname, answers).tunnels),
{
    let outcome = update_run(tunnels, id, changes, hostname, answers);
    law_update_all_or_nothing(tunnels, id, changes, hostname, answers);
    if outcome.step is Updated {
        lemma_lookup_found(tunnels, id);
        let at = lookup(tunnels, id)->0;
        lemma_replace_keeps_ports_unique(tunnels, at, outcome.step->Updated_response.tunnel);
    }
}

/// An update whose target is unreachable is refused for that reason and
/// leaves the list as it was. An update whose forwarder does not start is
/// refused for that reason; the stored tunnel keeps its fields and its
/// warning, and has no process id: if it had a forwarder, that was stopped.
pub proof fn law_update_fails_whole(
    tunnels: Seq<TunnelView>,
    id: Seq<char>,
    changes: UpdateRequestView,
    hostname: Seq<char>,
    answers: Answers,
)
    requires
        update_checked(
            tunnels,
            id,
            changes,
            Answers { reachability: ReachabilityView::Reachable, ..answers },
        ),
    ensures
        ({
            let plan = plan_of(tunnels, id, changes);
            let at = lookup(tunnels, id)->0;
            let outcome = update_run(tunnels, id, changes, hostname, answers);
            &&& plan.needs_check ==> (answers.reachability
                matches ReachabilityView::HostUnreachable(reason) ==> outcome == update::refused(
                tunnels,
                RejectionView::HostUnreachable { host: plan.target_host, reason },
            ))
            &&& plan.enabled && !(plan.needs_check && answers.reachability is HostUnreachable) ==> (
            answers.forwarder matches Err(detail) ==> {
                &&& outcome.step == UpdateStepView::Rejected {
                    error: RejectionView::ForwarderFailed { detail },
                }
                &&& outcome.tunnels == tunnels.update(at, idle(tunnels[at]))
                &&& outcome.tunnels[at].pid is None
            })
        }),
{
    lemma_lookup_found(tunnels, id);
    lemma_forwarder_gone(tunnels, id);
    let at = lookup(tunnels, id)->0;
    assert(tunnels.update(at, idle(tunnels[at])) =~= if tunnels[at].pid is Some {
        forwarder_gone(tunnels, id)
    } else {
        tunnels
    });
}

/// An update that would make a tunnel forward a port of this machine to
/// itself is refused, and the list stays as it was. Where no field would end
/// malformed, it is refused as a self-loop unless the new local port is
/// refused first, as one that another tunnel has or that is in use.
pub proof fn law_update_refuses_self_loop(
    tunnels: Seq<TunnelView>,
    id: Seq<char>,
    changes: UpdateRequestView,
    hostname: Seq<char>,
    answers: Answers,
)
    requires
        lookup(tunnels, id) is Some,
        plan_malformed(plan_of(tunnels, id, changes)) is None,
        is_self_loop(
            plan_of(tunnels, id, changes).local_port,
            plan_of(tunnels, id, changes).target_host,
            plan_of(tunnels, id, changes).target_port,
        ),
    ensures
        ({
            let plan = plan_of(tunnels, id, changes);
            let outcome = update_run(tunnels, id, changes, hostname, answers);
            let port = plan.local_port;
            &&& outcome.tunnels == tunnels
            &&& outcome.step matches UpdateStepView::Rejected { error } && error
                == if !plan.port_changed {
                RejectionView::SelfLoop { port }
            } else if port_claimed_by_other(tunnels, lookup(tunnels, id)->0, port) {
                RejectionView::PortAssigned { port }
            } else if !answers.port_available {
                RejectionView::PortInUse { port }
            } else {
                RejectionView::SelfLoop { port }
            }
        }),
{
}

/// The warning of an updated tunnel. It is cleared when the tunnel ends
/// disabled, and when the probe of its target finds the port open. It is the
/// port-closed warning when the probe finds the host up and the port closed.
/// It stays as it was when the tunnel ends enabled and no probe was needed.
pub proof fn law_update_settles_warning(
    tunnels: Seq<TunnelView>,
    id: Seq<char>,
    changes: UpdateRequestView,
    hostname: Seq<char>,
    answers: Answers,
)
    requires
        update_run(tunnels, id, changes, hostname, answers).step is Updated,
    ensures
        ({
            let outcome = update_run(tunnels, id, changes, hostname, answers);
            let response = outcome.step->Updated_response;
            let stored = tunnels[lookup(tunnels, id)->0];
            let plan = plan_of(tunnels, id, changes);
            &&& !response.tunnel.enabled ==> response.tunnel.warning_id is None
            &&& !response.tunnel.enabled ==> response.tunnel.pid is None
            &&& plan.needs_check && answers.reachability is Reachable
                ==> response.tunnel.warning_id is None
            &&& plan.needs_check && answers.reachability is HostReachablePortClosed
                ==> response.tunnel.warning_id == Some(port_closed_key()) && response.warning
                == Some(port_closed_message(plan.target_host, plan.target_port))
            &&& response.tunnel.enabled && !plan.needs_check ==> response.tunnel.warning_id
                == stored.warning_id
            &&& !(plan.needs_check && answers.reachability is HostReachablePortClosed)
                ==> response.warning is None
        }),
{
    law_update_all_or_nothing(tunnels, id, changes, hostname, answers);
}

/// A deletion ends in `Deleted` or in `Rejected`. It is accepted exactly when
/// the list holds the identifier. Then the first tunnel with the identifier
/// is gone and the others are in their order; else the list is as it was.
pub proof fn law_delete_all_or_nothing(tunnels: Seq<TunnelView>, id: Seq<char>)
    ensures
        ({
            let outcome = delete_run(tunnels, id);
            &&& outcome.step is Deleted || outcome.step is Rejected
            &&& outcome.step is Deleted <==> lookup(tunnels, id) is Some
            &&& outcome.step is Rejected ==> outcome.tunnels == tunnels
                && outcome.step->Rejected_error == RejectionView::TunnelNotFound { id }
            &&& outcome.step is Deleted ==> outcome.tunnels == tunnels.remove(
                lookup(tunnels, id)->0,
            )
        }),
{
}

/// After a tunnel is deleted from a list with unique local ports, no tunnel
/// of the list has its local port, and a creation with that port is accepted
/// if the request is valid, the system has the port free and the forwarder
/// can be had. The new tunnel is then the only one with the port, and it has
/// the identifier that it was given.
pub proof fn law_delete_frees_port(
    tunnels: Seq<TunnelView>,
    id: Seq<char>,
    request: CreateRequestView,
    new_id: Seq<char>,
    hostname: Seq<char>,
    answers: Answers,
)
    requires
        ports_unique(tunnels),
        lookup(tunnels, id) is Some,
        request.local_port == tunnels[lookup(tunnels, id)->0].local_port,
        create::invalid(request) is None,
        answers.port_available,
        forwarder_ready(request.enabled, answers),
    ensures
        delete_run(tunnels, id).step is Deleted,
        !port_claimed(delete_run(tunnels, id).tunnels, request.local_port),
        ({
            let left = delete_run(tunnels, id).tunnels;
            let created = create_run(left, request, new_id, hostname, answers);
            &&& created.step is Created
            &&& created.tunnels == left.push(created.step->Created_response.tunnel)
            &&& created.tunnels.last().id == new_id
            &&& forall|i: int|
                0 <= i < created.tunnels.len() ==> ((#[trigger] created.tunnels[i]).local_port
                    == request.local_port <==> i == created.tunnels.len() - 1)
        }),
{
    delete::lemma_removed_is_safe(tunnels, id);
    let left = delete_run(tunnels, id).tunnels;
    law_create_all_or_nothing(left, request, new_id, hostname, answers);
    let created = create_run(left, request, new_id, hostname, answers);
    assert forall|i: int| 0 <= i < created.tunnels.len() implies ((
    #[trigger] created.tunnels[i]).local_port == request.local_port <==> i
        == created.tunnels.len() - 1) by {
        if i < left.len() {
            assert(created.tunnels[i] == left[i]);
        }
    }
}

/// A creation, an update and a deletion leave process ids with enabled
/// tunnels only, if only enabled tunnels had one.
pub proof fn law_pids_stay_sound(
    tunnels: Seq<TunnelView>,
    request: CreateRequestView,
    changes: UpdateRequestView,
    id: Seq<char>,
    hostname: Seq<char>,
    answers: Answers,
)
    requires
        pids_sound(tunnels),
    ensures
        pids_sound(create_run(tunnels, request, id, hostname, answers).tunnels),
        pids_sound(update_run(tunnels, id, changes, hostname, answers).tunnels),
        pids_sound(delete_run(tunnels, id).tunnels),
{
    law_create_all_or_nothing(tunnels, request, id, hostname, answers);
    law_update_all_or_nothing(tunnels, id, changes, hostname, answers);
    law_delete_all_or_nothing(tunnels, id);
}

/// A creation, an update and a deletion leave every tunnel of the list with
/// well-formed fields, if every tunnel had them: a name and a target host
/// that are not empty once trimmed, and ports that are not zero.
pub proof fn law_fields_stay_well_formed(
    tunnels: Seq<TunnelView>,
    request: CreateRequestView,
    changes: UpdateRequestView,
    id: Seq<char>,
    hostname: Seq<char>,
    answers: Answers,
)
    requires
        all_well_formed(tunnels),
    ensures
        all_well_formed(create_run(tunnels, request, id, hostname, answers).tunnels),
        all_well_formed(update_run(tunnels, id, changes, hostname, answers).tunnels),
        all_well_formed(delete_run(tunnels, id).tunnels),
{
    law_create_all_or_nothing(tunnels, request, id, hostname, answers);
    lemma_trimmed_twice(request.name);
    lemma_trimmed_twice(request.target_host);
    let created = create_run(tunnels, request, id, hostname, answers);
    assert forall|i: int| 0 <= i < created.tunnels.len() implies well_formed(
        #[trigger] created.tunnels[i],
    ) by {
        if i < tunnels.len() {
            assert(created.tunnels[i] == tunnels[i]);
        }
    }
    law_update_all_or_nothing(tunnels, id, changes, hostname, answers);
    let updated = update_run(tunnels, id, changes, hostname, answers);
    assert forall|i: int| 0 <= i < updated.tunnels.len() implies well_formed(
        #[trigger] updated.tunnels[i],
    ) by {
        if lookup(tunnels, id) is Some {
            lemma_lookup_found(tunnels, id);
        }
        assert(well_formed(tunnels[i]));
    }
    law_delete_all_or_nothing(tunnels, id);
    let deleted = delete_run(tunnels, id);
    assert forall|i: int| 0 <= i < deleted.tunnels.len() implies well_formed(
        #[trigger] deleted.tunnels[i],
    ) by {
        if deleted.step is Deleted {
            lemma_lookup_found(tunnels, id);
            let at = lookup(tunnels, id)->0;
            if i < at {
                assert(deleted.tunnels[i] == tunnels[i]);
            } else {
                assert(deleted.tunnels[i] == tunnels[i + 1]);
            }
        }
    }
}

/// A creation leaves the identifiers of the list distinct if they were and
/// no tunnel has the identifier of the new one. An update and a deletion
/// leave them distinct if they were. Where a creation is given an identifier
/// that a tunnel has, it stores the new tunnel all the same, and the
/// identifier goes on finding the earlier tunnel.
pub proof fn law_ids_stay_unique(
    tunnels: Seq<TunnelView>,
    request: CreateRequestView,
    changes: UpdateRequestView,
    id: Seq<char>,
    new_id: Seq<char>,
    hostname: Seq<char>,
    answers: Answers,
)
    requires
        ids_unique(tunnels),
    ensures
        !has_id(tunnels, new_id) ==> ids_unique(
            create_run(tunnels, request, new_id, hostname, answers).tunnels,
        ),
        has_id(tunnels, new_id) ==> lookup(
            create_run(tunnels, request, new_id, hostname, answers).tunnels,
            new_id,
        ) == lookup(tunnels, new_id),
        ids_unique(update_run(tunnels, id, changes, hostname, answers).tunnels),
        ids_unique(delete_run(tunnels, id).tunnels),
{
    law_create_all_or_nothing(tunnels, request, new_id, hostname, answers);
    let created = create_run(tunnels, request, new_id, hostname, answers);
    if !has_id(tunnels, new_id) {
        assert forall|i: int, j: int| 0 <= i < j < created.tunnels.len() implies (
        #[trigger] created.tunnels[i]).id != (#[trigger] created.tunnels[j]).id by {
            assert(created.tunnels[i] == tunnels[i]);
            if j < tunnels.len() {
                assert(created.tunnels[j] == tunnels[j]);
            }
        }
    } else {
        lemma_lookup_exists(tunnels, new_id);
        lemma_lookup_found(tunnels, new_id);
        let at = lookup(tunnels, new_id)->0;
        assert(is_first_with_id(created.tunnels, new_id, at)) by {
            assert(created.tunnels[at] == tunnels[at]);
            assert forall|k: int| 0 <= k < at implies (#[trigger] created.tunnels[k]).id
                != new_id by {
                assert(created.tunnels[k] == tunnels[k]);
            }
        }
        lemma_lookup_is(created.tunnels, new_id, at);
    }
    law_update_all_or_nothing(tunnels, id, changes, hostname, answers);
    let updated = update_run(tunnels, id, changes, hostname, answers);
    assert forall|i: int, j: int| 0 <= i < j < updated.tunnels.len() implies (
    #[trigger] updated.tunnels[i]).id != (#[trigger] updated.tunnels[j]).id by {
        if lookup(tunnels, id) is Some {
            lemma_lookup_found(tunnels, id);
        }
        assert(tunnels[i].id != tunnels[j].id);
    }
    law_delete_all_or_nothing(tunnels, id);
    let deleted = delete_run(tunnels, id);
    assert forall|i: int, j: int| 0 <= i < j < deleted.tunnels.len() implies (
    #[trigger] deleted.tunnels[i]).id != (#[trigger] deleted.tunnels[j]).id by {
        if deleted.step is Deleted {
            lemma_lookup_found(tunnels, id);
            let at = lookup(tunnels, id)->0;
            let i0 = if i < at {
                i
            } else {
                i + 1
            };
            let j0 = if j < at {
                j
            } else {
                j + 1
            };
            assert(deleted.tunnels[i] == tunnels[i0]);
            assert(deleted.tunnels[j] == tunnels[j0]);
            assert(tunnels[i0].id != tunnels[j0].id);
        }
    }
}

} // verus!
