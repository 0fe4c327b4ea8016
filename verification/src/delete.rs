//! Deleting a tunnel: its forwarder is stopped first, then it leaves the
//! list. The other tunnels keep their order.

use vstd::prelude::*;
use vstd::string::*;

use crate::models::{Tunnel, TunnelView};
use crate::rejection::{Rejection, RejectionView};
use crate::store::{
    find_tunnel, lemma_lookup_found, lemma_remove_frees_port, lookup, port_claimed, ports_unique,
};

verus! {

/// The next piece of work of a deletion, or its end.
#[derive(Debug, PartialEq, Eq)]
pub enum DeleteStep {
    /// Stop the forwarder `pid`, then call [`delete_on_stopped`] with `id`.
    StopForwarder { id: String, pid: u32 },
    /// The tunnel left the list, which is to be written out.
    Deleted,
    /// The deletion was refused and the list is as it was.
    Rejected { error: Rejection },
}

/// A `DeleteStep` with its strings as character sequences.
pub enum DeleteStepView {
    StopForwarder { id: Seq<char>, pid: u32 },
    Deleted,
    Rejected { error: RejectionView },
}

impl View for DeleteStep {
    type V = DeleteStepView;

    open spec fn view(&self) -> DeleteStepView {
        match self {
            DeleteStep::StopForwarder { id, pid } => DeleteStepView::StopForwarder {
                id: id@,
                pid: *pid,
            },
            DeleteStep::Deleted => DeleteStepView::Deleted,
            DeleteStep::Rejected { error } => DeleteStepView::Rejected { error: error@ },
        }
    }
}

/// The tunnel list after a step, and what the step answered.
pub struct DeleteOutcome {
    pub tunnels: Seq<TunnelView>,
    pub step: DeleteStepView,
}

/// Taking the first tunnel with the identifier `id` out of the list. An
/// identifier that no tunnel has is refused.
pub open spec fn removed(tunnels: Seq<TunnelView>, id: Seq<char>) -> DeleteOutcome {
    match lookup(tunnels, id) {
        None => DeleteOutcome {
            tunnels,
            step: DeleteStepView::Rejected { error: RejectionView::TunnelNotFound { id } },
        },
        Some(i) => DeleteOutcome { tunnels: tunnels.remove(i), step: DeleteStepView::Deleted },
    }
}

/// The first step of deleting the tunnel `id`: a tunnel with a forwarder
/// stays in the list until the forwarder was stopped.
pub open spec fn begun(tunnels: Seq<TunnelView>, id: Seq<char>) -> DeleteOutcome {
    match lookup(tunnels, id) {
        Some(i) if tunnels[i].pid is Some => DeleteOutcome {
            tunnels,
            step: DeleteStepView::StopForwarder { id, pid: tunnels[i].pid->0 },
        },
        _ => removed(tunnels, id),
    }
}

/// What every step of a deletion keeps to: the list changes only where the
/// step answers `Deleted`, and then it is one tunnel shorter; and if no two
/// tunnels had the same local port before, none have after.
pub open spec fn settles(
    before: Seq<TunnelView>,
    after: Seq<TunnelView>,
    step: DeleteStepView,
) -> bool {
    &&& !(step is Deleted) ==> after == before
    &&& step is Deleted ==> after.len() + 1 == before.len()
    &&& ports_unique(before) ==> ports_unique(after)
}

/// Taking a tunnel out keeps to `settles`, and where the local ports were
/// unique no tunnel that is left has the port of the one that went.
pub proof fn lemma_removed_is_safe(tunnels: Seq<TunnelView>, id: Seq<char>)
    ensures
        settles(tunnels, removed(tunnels, id).tunnels, removed(tunnels, id).step),
        ports_unique(tunnels) && lookup(tunnels, id) is Some ==> !port_claimed(
            removed(tunnels, id).tunnels,
            tunnels[lookup(tunnels, id)->0].local_port,
        ),
{
    if lookup(tunnels, id) is Some {
        lemma_lookup_found(tunnels, id);
        if ports_unique(tunnels) {
            lemma_remove_frees_port(tunnels, lookup(tunnels, id)->0);
        }
    }
}

/// Takes the first tunnel with the identifier `id` out of the list.
fn remove_tunnel(tunnels: &mut Vec<Tunnel>, id: &str) -> (step: DeleteStep)
    ensures
        final(tunnels).deep_view() == removed(old(tunnels).deep_view(), id@).tunnels,
        step@ == removed(old(tunnels).deep_view(), id@).step,
        settles(old(tunnels).deep_view(), final(tunnels).deep_view(), step@),
{
    match find_tunnel(tunnels, id) {
        None => DeleteStep::Rejected {
            error: Rejection::TunnelNotFound { id: String::from_str(id) },
        },
        Some(i) => {
            tunnels.remove(i);
            proof {
                assert(tunnels.deep_view() =~= old(tunnels).deep_view().remove(i as int));
                lemma_removed_is_safe(old(tunnels).deep_view(), id@);
            }
            DeleteStep::Deleted
        },
    }
}

/// Begins the deletion of the tunnel `id`.
///
/// An unknown `id` is refused. If a forwarder runs for the tunnel, the caller
/// is asked to stop it and the list stays as it is; else the tunnel leaves
/// the list at once.
pub fn delete_tunnel(tunnels: &mut Vec<Tunnel>, id: &str) -> (step: DeleteStep)
    ensures
        final(tunnels).deep_view() == begun(old(tunnels).deep_view(), id@).tunnels,
        step@ == begun(old(tunnels).deep_view(), id@).step,
        settles(old(tunnels).deep_view(), final(tunnels).deep_view(), step@),
{
    match find_tunnel(tunnels, id) {
        None => DeleteStep::Rejected {
            error: Rejection::TunnelNotFound { id: String::from_str(id) },
        },
        Some(i) => {
            match tunnels[i].pid {
                Some(pid) => DeleteStep::StopForwarder { id: String::from_str(id), pid },
                None => remove_tunnel(tunnels, id),
            }
        },
    }
}

/// Goes on after the forwarder was stopped; whether the stop succeeded makes
/// no difference. The tunnel leaves the list; an `id` that no tunnel has is
/// refused.
pub fn delete_on_stopped(tunnels: &mut Vec<Tunnel>, id: &str) -> (step: DeleteStep)
    ensures
        final(tunnels).deep_view() == removed(old(tunnels).deep_view(), id@).tunnels,
        step@ == removed(old(tunnels).deep_view(), id@).step,
        settles(old(tunnels).deep_view(), final(tunnels).deep_view(), step@),
{
    remove_tunnel(tunnels, id)
}

} // verus!
