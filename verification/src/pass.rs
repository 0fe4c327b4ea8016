//! A restore pass from its first step to its last.
//!
//! The steps of `restore` ask the caller for work, tunnel by tunnel. What the
//! whole pass comes to is said here for each tunnel by itself, and the laws
//! below show that the steps, run one after the other with what the caller's
//! work shows, come to exactly that.

use vstd::prelude::*;

use crate::fields::{all_well_formed, well_formed};
use crate::models::TunnelView;
use crate::persist::persisted;
use crate::restore::{
    advanced, begun, demoted, failed_one, lemma_advanced, lemma_settles_keeps_ports_unique,
    port_probed, position_of, progress_of, report_of, restored_one, running, settles, started,
    touched, ProgressView, RestoreOutcome, RestoreStepView,
};
use crate::store::{idle, ids_unique, ports_unique};

verus! {

/// What the caller's work shows for one tunnel. A piece that is not asked for
/// is not looked at.
pub struct TunnelAnswer {
    /// Whether the local port can be bound.
    pub port_available: bool,
    /// The process id of the forwarder, or why it did not start.
    pub forwarder: Result<u32, Seq<char>>,
}

/// What a pass makes of one tunnel. A disabled tunnel loses its process id.
/// An enabled tunnel whose port is free and whose forwarder starts gets the
/// process id of the forwarder. Any other enabled tunnel becomes disabled and
/// loses its process id and its warning.
pub open spec fn settled(tunnel: TunnelView, answer: TunnelAnswer) -> TunnelView {
    if !tunnel.enabled {
        idle(tunnel)
    } else if !answer.port_available {
        demoted(tunnel)
    } else {
        match answer.forwarder {
            Ok(pid) => running(tunnel, pid),
            Err(_) => demoted(tunnel),
        }
    }
}

/// What a pass makes of a list: of each tunnel what `settled` says, in the
/// same order.
pub open spec fn pass_result(tunnels: Seq<TunnelView>, answers: Seq<TunnelAnswer>) -> Seq<
    TunnelView,
> {
    Seq::new(tunnels.len(), |i: int| settled(tunnels[i], answers[i]))
}

/// One of the first `upto` tunnels was enabled and is not after the pass.
pub open spec fn some_demoted(
    tunnels: Seq<TunnelView>,
    answers: Seq<TunnelAnswer>,
    upto: int,
) -> bool {
    exists|i: int|
        0 <= i < upto && (#[trigger] tunnels[i]).enabled && !settled(tunnels[i], answers[i]).enabled
}

/// `outcome` is a state of a pass over `before` in which the caller's work
/// shows `answers`: the tunnels before the position are settled, the others
/// are as they were, and a tunnel is counted as failed exactly when one of
/// the settled became disabled.
pub open spec fn in_pass(
    before: Seq<TunnelView>,
    answers: Seq<TunnelAnswer>,
    outcome: RestoreOutcome,
) -> bool {
    let next = position_of(outcome);
    let progress = progress_of(outcome);
    &&& outcome.tunnels.len() == before.len()
    &&& 0 <= next <= before.len()
    &&& forall|i: int|
        0 <= i < before.len() ==> #[trigger] outcome.tunnels[i] == if i < next {
            settled(before[i], answers[i])
        } else {
            before[i]
        }
    &&& !(outcome.step is Finished) ==> next < before.len() && before[next].enabled
    &&& outcome.step matches RestoreStepView::ProbePort { port, .. } ==> port
        == before[next].local_port
    &&& outcome.step matches RestoreStepView::StartForwarder {
        local_port,
        target_host,
        target_port,
        ..
    } ==> {
        &&& answers[next].port_available
        &&& local_port == before[next].local_port
        &&& target_host == before[next].target_host
        &&& target_port == before[next].target_port
    }
    &&& 0 <= progress.restored
    &&& 0 <= progress.failed
    &&& progress.restored + progress.failed <= next
    &&& progress.failed > 0 <==> some_demoted(before, answers, next)
    &&& outcome.step matches RestoreStepView::Finished { report } ==> report == report_of(
        before.len() as int,
        progress,
    )
}

/// The first step of a pass is a state of the pass.
pub proof fn law_pass_begins(tunnels: Seq<TunnelView>, answers: Seq<TunnelAnswer>)
    requires
        tunnels.len() <= usize::MAX,
    ensures
        in_pass(tunnels, answers, begun(tunnels)),
{
    lemma_advanced(tunnels, ProgressView { next: 0, restored: 0, failed: 0 });
    let outcome = begun(tunnels);
    let next = position_of(outcome);
    // the tunnels before `next` are disabled, so that they are settled by
    // losing their process id
    assert forall|i: int| 0 <= i < tunnels.len() implies #[trigger] outcome.tunnels[i] == if i
        < next {
        settled(tunnels[i], answers[i])
    } else {
        tunnels[i]
    } by {}
}

/// After the tunnel at the position is dealt with, going on leads to a state
/// of the pass again.
proof fn lemma_pass_goes_on(
    before: Seq<TunnelView>,
    answers: Seq<TunnelAnswer>,
    tunnels: Seq<TunnelView>,
    progress: ProgressView,
    dealt: TunnelView,
    next_progress: ProgressView,
)
    requires
        before.len() <= usize::MAX,
        tunnels.len() == before.len(),
        0 <= progress.next < before.len(),
        before[progress.next].enabled,
        forall|i: int|
            0 <= i < before.len() ==> #[trigger] tunnels[i] == if i < progress.next {
                settled(before[i], answers[i])
            } else {
                before[i]
            },
        0 <= progress.restored,
        0 <= progress.failed,
        progress.restored + progress.failed <= progress.next,
        progress.failed > 0 <==> some_demoted(before, answers, progress.next),
        dealt == settled(before[progress.next], answers[progress.next]),
        next_progress == if dealt.enabled {
            restored_one(progress)
        } else {
            failed_one(progress)
        },
    ensures
        in_pass(
            before,
            answers,
            advanced(tunnels.update(progress.next, dealt), next_progress),
        ),
{
    let here = progress.next;
    let stepped = tunnels.update(here, dealt);
    lemma_advanced(stepped, next_progress);
    let outcome = advanced(stepped, next_progress);
    let stop = position_of(outcome);
    assert forall|i: int| 0 <= i < before.len() implies #[trigger] outcome.tunnels[i] == if i
        < stop {
        settled(before[i], answers[i])
    } else {
        before[i]
    } by {}
    // a tunnel between `here` and `stop` was skipped, so that none of them
    // became disabled
    assert(progress_of(outcome).failed > 0 <==> some_demoted(before, answers, stop)) by {
        if some_demoted(before, answers, stop) {
            let i = choose|i: int|
                0 <= i < stop && (#[trigger] before[i]).enabled && !settled(
                    before[i],
                    answers[i],
                ).enabled;
            if here < i {
                assert(!stepped[i].enabled);
            }
        }
    }
}

/// The step after a port was tried is a state of the pass again, if the
/// caller hands back what trying the port of the tunnel at the position
/// showed.
pub proof fn law_pass_goes_on_after_probe(
    before: Seq<TunnelView>,
    answers: Seq<TunnelAnswer>,
    outcome: RestoreOutcome,
)
    requires
        before.len() <= usize::MAX,
        in_pass(before, answers, outcome),
        outcome.step is ProbePort,
    ensures
        in_pass(
            before,
            answers,
            port_probed(
                outcome.tunnels,
                progress_of(outcome),
                answers[position_of(outcome)].port_available,
            ),
        ),
{
    let progress = progress_of(outcome);
    let here = progress.next;
    if !answers[here].port_available {
        lemma_pass_goes_on(
            before,
            answers,
            outcome.tunnels,
            progress,
            demoted(before[here]),
            failed_one(progress),
        );
    }
}

/// The step after a forwarder was started is a state of the pass again, if
/// the caller hands back what starting the forwarder of the tunnel at the
/// position showed.
pub proof fn law_pass_goes_on_after_start(
    before: Seq<TunnelView>,
    answers: Seq<TunnelAnswer>,
    outcome: RestoreOutcome,
)
    requires
        before.len() <= usize::MAX,
        in_pass(before, answers, outcome),
        outcome.step is StartForwarder,
    ensures
        in_pass(
            before,
            answers,
            started(outcome.tunnels, progress_of(outcome), answers[position_of(outcome)].forwarder),
        ),
{
    let progress = progress_of(outcome);
    let here = progress.next;
    match answers[here].forwarder {
        Ok(pid) => {
            lemma_pass_goes_on(
                before,
                answers,
                outcome.tunnels,
                progress,
                running(before[here], pid),
                restored_one(progress),
            );
        },
        Err(_) => {
            lemma_pass_goes_on(
                before,
                answers,
                outcome.tunnels,
                progress,
                demoted(before[here]),
                failed_one(progress),
            );
        },
    }
}

/// Where a pass ends, every tunnel is settled: the list is what
/// `pass_result` says, no disabled tunnel has a process id, and the list is
/// to be written out exactly if a tunnel became disabled.
pub proof fn law_pass_ends(
    before: Seq<TunnelView>,
    answers: Seq<TunnelAnswer>,
    outcome: RestoreOutcome,
)
    requires
        before.len() <= usize::MAX,
        in_pass(before, answers, outcome),
        outcome.step is Finished,
    ensures
        outcome.tunnels == pass_result(before, answers),
        forall|i: int|
            0 <= i < outcome.tunnels.len() && !(#[trigger] outcome.tunnels[i]).enabled
                ==> outcome.tunnels[i].pid is None,
        forall|i: int|
            0 <= i < before.len() && (#[trigger] before[i]).enabled
                && !outcome.tunnels[i].enabled ==> outcome.tunnels[i].warning_id is None,
        outcome.step->report.persist <==> some_demoted(before, answers, before.len() as int),
        outcome.step->report.total == before.len(),
        outcome.step->report.restored + outcome.step->report.failed + outcome.step->report.skipped
            == before.len(),
{
}

/// A tunnel that a pass left disabled stays as it is when the list is
/// written out, read back and passed over again, whatever the caller's work
/// shows then. This holds in particular of an enabled tunnel whose port was
/// taken.
pub proof fn law_disabled_is_stable(tunnel: TunnelView, first: TunnelAnswer, second: TunnelAnswer)
    ensures
        tunnel.enabled && !first.port_available ==> settled(tunnel, first) == demoted(tunnel),
        tunnel.enabled && !settled(tunnel, first).enabled ==> settled(tunnel, first).pid is None
            && settled(tunnel, first).warning_id is None,
        !settled(tunnel, first).enabled ==> settled(persisted(settled(tunnel, first)), second)
            == settled(tunnel, first),
{
}

/// What a step of a pass keeps to leaves the identifiers and the local ports
/// of the list distinct, and the fields of every tunnel well formed, if they
/// were.
pub proof fn law_pass_keeps_the_list_sound(before: Seq<TunnelView>, after: Seq<TunnelView>)
    requires
        settles(before, after),
    ensures
        ids_unique(before) ==> ids_unique(after),
        ports_unique(before) ==> ports_unique(after),
        all_well_formed(before) ==> all_well_formed(after),
{
    if ids_unique(before) {
        assert forall|i: int, j: int| 0 <= i < j < after.len() implies (#[trigger] after[i]).id
            != (#[trigger] after[j]).id by {
            assert(touched(before[i], after[i]));
            assert(touched(before[j], after[j]));
            assert(before[i].id != before[j].id);
        }
    }
    if ports_unique(before) {
        lemma_settles_keeps_ports_unique(before, after);
    }
    if all_well_formed(before) {
        assert forall|i: int| 0 <= i < after.len() implies well_formed(#[trigger] after[i]) by {
            assert(touched(before[i], after[i]));
            assert(well_formed(before[i]));
        }
    }
}

} // verus!
