//! Bringing the stored tunnels back at start-up.
//!
//! The pass walks the list once, front to back. A disabled tunnel only loses
//! a stale process id. For an enabled tunnel the caller tries the local port
//! and, if it is free, starts a forwarder once; a tunnel whose port is taken
//! or whose forwarder does not start becomes disabled, loses its warning and
//! is never tried again. No target is probed. The list is written out afterwards only if a
//! tunnel became disabled.

use vstd::prelude::*;
use vstd::string::*;

use crate::models::{spawn_view, Tunnel, TunnelView};
use crate::store::{idle, ports_unique};

verus! {

/// How far a pass has come: the position of the next tunnel, and how many
/// tunnels before it got a forwarder or became disabled.
#[derive(Debug, PartialEq, Eq)]
pub struct RestoreProgress {
    next: usize,
    restored: usize,
    failed: usize,
}

/// A `RestoreProgress` as numbers.
pub struct ProgressView {
    pub next: int,
    pub restored: int,
    pub failed: int,
}

impl View for RestoreProgress {
    type V = ProgressView;

    closed spec fn view(&self) -> ProgressView {
        ProgressView {
            next: self.next as int,
            restored: self.restored as int,
            failed: self.failed as int,
        }
    }
}

impl RestoreProgress {
    #[verifier::type_invariant]
    spec fn counted(self) -> bool {
        self.restored + self.failed <= self.next
    }

    /// The position of the tunnel that the pass works on.
    pub fn position(&self) -> (next: usize)
        ensures
            next == self@.next,
    {
        self.next
    }

    /// The number of tunnels that got a forwarder so far.
    pub fn restored(&self) -> (restored: usize)
        ensures
            restored == self@.restored,
    {
        self.restored
    }

    /// The number of tunnels that became disabled so far.
    pub fn failed(&self) -> (failed: usize)
        ensures
            failed == self@.failed,
    {
        self.failed
    }
}

/// What a finished pass did.
#[derive(Debug, Clone, Copy, PartialEq, Eq, Structural)]
pub struct RestoreReport {
    /// The number of stored tunnels.
    pub total: usize,
    /// The tunnels that got a forwarder.
    pub restored: usize,
    /// The tunnels that became disabled.
    pub failed: usize,
    /// The tunnels that were disabled already.
    pub skipped: usize,
    /// Whether the list is to be written out: a tunnel became disabled.
    pub persist: bool,
}

/// The next piece of work of a pass, or its end.
#[derive(Debug, PartialEq, Eq)]
pub enum RestoreStep {
    /// Try to bind `port`, then call [`restore_on_port_probed`].
    ProbePort { progress: RestoreProgress, port: u16 },
    /// Start a forwarder from `local_port` to `target_host:target_port`, then
    /// call [`restore_on_started`].
    StartForwarder {
        progress: RestoreProgress,
        local_port: u16,
        target_host: String,
        target_port: u16,
    },
    /// Every tunnel was looked at.
    Finished { report: RestoreReport },
}

/// A `RestoreStep` with its strings as character sequences.
pub enum RestoreStepView {
    ProbePort { progress: ProgressView, port: u16 },
    StartForwarder {
        progress: ProgressView,
        local_port: u16,
        target_host: Seq<char>,
        target_port: u16,
    },
    Finished { report: RestoreReport },
}

impl View for RestoreStep {
    type V = RestoreStepView;

    open spec fn view(&self) -> RestoreStepView {
        match self {
            RestoreStep::ProbePort { progress, port } => RestoreStepView::ProbePort {
                progress: progress@,
                port: *port,
            },
            RestoreStep::StartForwarder {
                progress,
                local_port,
                target_host,
                target_port,
            } => RestoreStepView::StartForwarder {
                progress: progress@,
                local_port: *local_port,
                target_host: target_host@,
                target_port: *target_port,
            },
            RestoreStep::Finished { report } => RestoreStepView::Finished { report: *report },
        }
    }
}

/// The tunnel list after a step, and what the step answered.
pub struct RestoreOutcome {
    pub tunnels: Seq<TunnelView>,
    pub step: RestoreStepView,
}

/// `tunnel` disabled, without a process id and without a warning.
pub open spec fn demoted(tunnel: TunnelView) -> TunnelView {
    TunnelView { enabled: false, pid: None, warning_id: None, ..tunnel }
}

/// `tunnel` with the forwarder `pid`.
pub open spec fn running(tunnel: TunnelView, pid: u32) -> TunnelView {
    TunnelView { pid: Some(pid), ..tunnel }
}

/// The report of a pass over `total` tunnels that ended with `progress`.
pub open spec fn report_of(total: int, progress: ProgressView) -> RestoreReport {
    RestoreReport {
        total: total as usize,
        restored: progress.restored as usize,
        failed: progress.failed as usize,
        skipped: if progress.restored + progress.failed <= total {
            (total - progress.restored - progress.failed) as usize
        } else {
            0
        },
        persist: progress.failed > 0,
    }
}

/// The pass is over.
pub open spec fn finished(tunnels: Seq<TunnelView>, progress: ProgressView) -> RestoreOutcome {
    RestoreOutcome {
        tunnels,
        step: RestoreStepView::Finished { report: report_of(tunnels.len() as int, progress) },
    }
}

/// `progress` one tunnel further, the tunnel having been skipped.
pub open spec fn skipped_one(progress: ProgressView) -> ProgressView {
    ProgressView { next: progress.next + 1, ..progress }
}

/// `progress` one tunnel further, the tunnel having got a forwarder.
pub open spec fn restored_one(progress: ProgressView) -> ProgressView {
    ProgressView { next: progress.next + 1, restored: progress.restored + 1, ..progress }
}

/// `progress` one tunnel further, the tunnel having become disabled.
pub open spec fn failed_one(progress: ProgressView) -> ProgressView {
    ProgressView { next: progress.next + 1, failed: progress.failed + 1, ..progress }
}

/// Going on from `progress.next`: every disabled tunnel up to the next
/// enabled one loses its process id; the caller is asked to try the port of
/// that enabled tunnel; if there is none, the pass is over.
pub open spec fn advanced(tunnels: Seq<TunnelView>, progress: ProgressView) -> RestoreOutcome
    decreases tunnels.len() - progress.next,
{
    if progress.next < 0 || progress.next >= tunnels.len() {
        finished(tunnels, progress)
    } else if tunnels[progress.next].enabled {
        RestoreOutcome {
            tunnels,
            step: RestoreStepView::ProbePort {
                progress,
                port: tunnels[progress.next].local_port,
            },
        }
    } else {
        advanced(
            tunnels.update(progress.next, idle(tunnels[progress.next])),
            skipped_one(progress),
        )
    }
}

/// The first step of a pass.
pub open spec fn begun(tunnels: Seq<TunnelView>) -> RestoreOutcome {
    advanced(tunnels, ProgressView { next: 0, restored: 0, failed: 0 })
}

/// The tunnel at `progress.next` is enabled, so that the pass has work to do
/// for it.
pub open spec fn at_enabled(tunnels: Seq<TunnelView>, progress: ProgressView) -> bool {
    0 <= progress.next < tunnels.len() && tunnels[progress.next].enabled
}

/// The step after the attempt to bind the port of the tunnel at
/// `progress.next`: if the port is free the caller is asked to start the
/// forwarder; if not, the tunnel becomes disabled and the pass goes on. If
/// there is no enabled tunnel at that position, the pass just goes on.
pub open spec fn port_probed(
    tunnels: Seq<TunnelView>,
    progress: ProgressView,
    available: bool,
) -> RestoreOutcome {
    if !at_enabled(tunnels, progress) {
        advanced(tunnels, progress)
    } else if available {
        RestoreOutcome {
            tunnels,
            step: RestoreStepView::StartForwarder {
                progress,
                local_port: tunnels[progress.next].local_port,
                target_host: tunnels[progress.next].target_host,
                target_port: tunnels[progress.next].target_port,
            },
        }
    } else {
        advanced(
            tunnels.update(progress.next, demoted(tunnels[progress.next])),
            failed_one(progress),
        )
    }
}

/// The step after the attempt to start the forwarder of the tunnel at
/// `progress.next`: the tunnel gets the process id, or becomes disabled, and
/// the pass goes on. If there is no enabled tunnel at that position, the pass
/// just goes on.
pub open spec fn started(
    tunnels: Seq<TunnelView>,
    progress: ProgressView,
    result: Result<u32, Seq<char>>,
) -> RestoreOutcome {
    if !at_enabled(tunnels, progress) {
        advanced(tunnels, progress)
    } else {
        match result {
            Ok(pid) => advanced(
                tunnels.update(progress.next, running(tunnels[progress.next], pid)),
                restored_one(progress),
            ),
            Err(_) => advanced(
                tunnels.update(progress.next, demoted(tunnels[progress.next])),
                failed_one(progress),
            ),
        }
    }
}

/// What a pass may do to a tunnel: give it a process id, take its process
/// id away, or disable it, which takes its warning away too. It enables
/// none.
pub open spec fn touched(before: TunnelView, after: TunnelView) -> bool {
    &&& after == TunnelView {
        enabled: after.enabled,
        pid: after.pid,
        warning_id: after.warning_id,
        ..before
    }
    &&& after.enabled ==> before.enabled
    &&& after.warning_id == before.warning_id || (after.warning_id is None && before.enabled
        && !after.enabled)
}

/// What every step of a pass keeps to: the list keeps its length and its
/// order, and each tunnel keeps all but its process id, whether it is
/// enabled, and its warning if it becomes disabled.
pub open spec fn settles(before: Seq<TunnelView>, after: Seq<TunnelView>) -> bool {
    &&& after.len() == before.len()
    &&& forall|i: int| 0 <= i < before.len() ==> touched(before[i], #[trigger] after[i])
}

/// A list that a pass has worked on has unique local ports if it had before.
pub proof fn lemma_settles_keeps_ports_unique(before: Seq<TunnelView>, after: Seq<TunnelView>)
    requires
        settles(before, after),
        ports_unique(before),
    ensures
        ports_unique(after),
{
}

/// The position that a step stands at: that of the tunnel it asks work for,
/// or the end of the list.
pub open spec fn position_of(outcome: RestoreOutcome) -> int {
    match outcome.step {
        RestoreStepView::ProbePort { progress, .. } => progress.next,
        RestoreStepView::StartForwarder { progress, .. } => progress.next,
        RestoreStepView::Finished { .. } => outcome.tunnels.len() as int,
    }
}

/// The counts that a step carries.
pub open spec fn progress_of(outcome: RestoreOutcome) -> ProgressView {
    match outcome.step {
        RestoreStepView::ProbePort { progress, .. } => progress,
        RestoreStepView::StartForwarder { progress, .. } => progress,
        RestoreStepView::Finished { report } => ProgressView {
            next: outcome.tunnels.len() as int,
            restored: report.restored as int,
            failed: report.failed as int,
        },
    }
}

/// Going on from a position skips the disabled tunnels up to the next
/// enabled one, which it asks to try, and takes their process ids away; it
/// touches no other tunnel and leaves the counts as they are.
pub proof fn lemma_advanced(tunnels: Seq<TunnelView>, progress: ProgressView)
    requires
        0 <= progress.next <= tunnels.len(),
        0 <= progress.restored <= usize::MAX,
        0 <= progress.failed <= usize::MAX,
    ensures
        ({
            let outcome = advanced(tunnels, progress);
            let stop = position_of(outcome);
            &&& outcome.tunnels.len() == tunnels.len()
            &&& progress.next <= stop <= tunnels.len()
            &&& !(outcome.step is StartForwarder)
            &&& outcome.step matches RestoreStepView::ProbePort { port, .. } ==> stop
                < tunnels.len() && tunnels[stop].enabled && port == tunnels[stop].local_port
            &&& outcome.step matches RestoreStepView::Finished { report } ==> report == report_of(
                tunnels.len() as int,
                progress,
            )
            &&& progress_of(outcome).restored == progress.restored
            &&& progress_of(outcome).failed == progress.failed
            &&& forall|i: int|
                0 <= i < tunnels.len() ==> #[trigger] outcome.tunnels[i] == if progress.next <= i
                    < stop {
                    idle(tunnels[i])
                } else {
                    tunnels[i]
                }
            &&& forall|i: int| progress.next <= i < stop ==> !(#[trigger] tunnels[i]).enabled
        }),
    decreases tunnels.len() - progress.next,
{
    if progress.next < tunnels.len() && !tunnels[progress.next].enabled {
        let stepped = tunnels.update(progress.next, idle(tunnels[progress.next]));
        lemma_advanced(stepped, skipped_one(progress));
        let outcome = advanced(tunnels, progress);
        let stop = position_of(outcome);
        assert forall|i: int| 0 <= i < tunnels.len() implies #[trigger] outcome.tunnels[i]
            == if progress.next <= i < stop {
            idle(tunnels[i])
        } else {
            tunnels[i]
        } by {}
        assert forall|i: int| progress.next <= i < stop implies !(
        #[trigger] tunnels[i]).enabled by {
            if i != progress.next {
                assert(stepped[i] == tunnels[i]);
            }
        }
    }
}

/// What two steps keep to, one after the other, they keep to together.
pub proof fn lemma_settles_chain(
    first: Seq<TunnelView>,
    second: Seq<TunnelView>,
    third: Seq<TunnelView>,
)
    requires
        settles(first, second),
        settles(second, third),
    ensures
        settles(first, third),
{
}

/// Going on keeps to `settles`, and with it the local ports unique.
pub proof fn lemma_advanced_settles(tunnels: Seq<TunnelView>, progress: ProgressView)
    requires
        0 <= progress.restored <= usize::MAX,
        0 <= progress.failed <= usize::MAX,
    ensures
        settles(tunnels, advanced(tunnels, progress).tunnels),
        ports_unique(tunnels) ==> ports_unique(advanced(tunnels, progress).tunnels),
{
    if 0 <= progress.next <= tunnels.len() {
        lemma_advanced(tunnels, progress);
    }
    if ports_unique(tunnels) {
        lemma_settles_keeps_ports_unique(tunnels, advanced(tunnels, progress).tunnels);
    }
}

/// Dealing with one tunnel and going on keeps to `settles`, and with it the
/// local ports unique.
pub proof fn lemma_dealt_settles(
    tunnels: Seq<TunnelView>,
    at: int,
    dealt: TunnelView,
    progress: ProgressView,
)
    requires
        0 <= at < tunnels.len(),
        touched(tunnels[at], dealt),
        0 <= progress.restored <= usize::MAX,
        0 <= progress.failed <= usize::MAX,
    ensures
        settles(tunnels, advanced(tunnels.update(at, dealt), progress).tunnels),
        ports_unique(tunnels) ==> ports_unique(
            advanced(tunnels.update(at, dealt), progress).tunnels,
        ),
{
    let stepped = tunnels.update(at, dealt);
    lemma_advanced_settles(stepped, progress);
    lemma_settles_chain(tunnels, stepped, advanced(stepped, progress).tunnels);
    if ports_unique(tunnels) {
        lemma_settles_keeps_ports_unique(tunnels, advanced(stepped, progress).tunnels);
    }
}

/// Ends the pass.
fn finish(tunnels: &Vec<Tunnel>, progress: RestoreProgress) -> (step: RestoreStep)
    ensures
        step@ == finished(tunnels.deep_view(), progress@).step,
{
    proof {
        use_type_invariant(&progress);
    }
    let total = tunnels.len();
    let done = progress.restored + progress.failed;
    let skipped = if done <= total {
        total - done
    } else {
        0
    };
    RestoreStep::Finished {
        report: RestoreReport {
            total,
            restored: progress.restored,
            failed: progress.failed,
            skipped,
            persist: progress.failed > 0,
        },
    }
}

/// Goes on from `progress.next` to the next enabled tunnel.
fn advance(tunnels: &mut Vec<Tunnel>, progress: RestoreProgress) -> (step: RestoreStep)
    ensures
        final(tunnels).deep_view() == advanced(old(tunnels).deep_view(), progress@).tunnels,
        step@ == advanced(old(tunnels).deep_view(), progress@).step,
        settles(old(tunnels).deep_view(), final(tunnels).deep_view()),
        ports_unique(old(tunnels).deep_view()) ==> ports_unique(final(tunnels).deep_view()),
{
    let mut next = progress.next;
    let restored = progress.restored;
    let failed = progress.failed;
    proof {
        use_type_invariant(&progress);
        lemma_advanced_settles(tunnels.deep_view(), progress@);
    }
    while next < tunnels.len() && !tunnels[next].enabled
        invariant
            restored + failed <= next,
            advanced(old(tunnels).deep_view(), progress@) == advanced(
                tunnels.deep_view(),
                ProgressView {
                    next: next as int,
                    restored: restored as int,
                    failed: failed as int,
                },
            ),
        decreases tunnels.len() - next,
    {
        let ghost before = tunnels.deep_view();
        let mut tunnel = tunnels[next].clone();
        tunnel.pid = None;
        tunnels.set(next, tunnel);
        assert(tunnels.deep_view() =~= before.update(next as int, idle(before[next as int])));
        next += 1;
    }
    let reached = RestoreProgress { next, restored, failed };
    if next < tunnels.len() {
        let port = tunnels[next].local_port;
        RestoreStep::ProbePort { progress: reached, port }
    } else {
        finish(tunnels, reached)
    }
}

/// Begins a pass over `tunnels`.
///
/// Disabled tunnels at the front lose their process id. The caller is asked
/// to try the local port of the first enabled tunnel; if there is none, the
/// pass is over.
pub fn restore_tunnels(tunnels: &mut Vec<Tunnel>) -> (step: RestoreStep)
    ensures
        final(tunnels).deep_view() == begun(old(tunnels).deep_view()).tunnels,
        step@ == begun(old(tunnels).deep_view()).step,
        settles(old(tunnels).deep_view(), final(tunnels).deep_view()),
        ports_unique(old(tunnels).deep_view()) ==> ports_unique(final(tunnels).deep_view()),
{
    advance(tunnels, RestoreProgress { next: 0, restored: 0, failed: 0 })
}

/// Tells whether the tunnel at `progress.next` is enabled.
fn is_at_enabled(tunnels: &Vec<Tunnel>, progress: &RestoreProgress) -> (enabled: bool)
    ensures
        enabled == at_enabled(tunnels.deep_view(), progress@),
{
    if progress.next < tunnels.len() {
        tunnels[progress.next].enabled
    } else {
        false
    }
}

/// Makes the tunnel at `progress.next` disabled and goes on.
fn demote_and_advance(tunnels: &mut Vec<Tunnel>, progress: RestoreProgress) -> (step: RestoreStep)
    requires
        at_enabled(old(tunnels).deep_view(), progress@),
    ensures
        final(tunnels).deep_view() == advanced(
            old(tunnels).deep_view().update(
                progress@.next,
                demoted(old(tunnels).deep_view()[progress@.next]),
            ),
            failed_one(progress@),
        ).tunnels,
        step@ == advanced(
            old(tunnels).deep_view().update(
                progress@.next,
                demoted(old(tunnels).deep_view()[progress@.next]),
            ),
            failed_one(progress@),
        ).step,
        settles(old(tunnels).deep_view(), final(tunnels).deep_view()),
        ports_unique(old(tunnels).deep_view()) ==> ports_unique(final(tunnels).deep_view()),
{
    proof {
        use_type_invariant(&progress);
        assert(tunnels.deep_view().len() == tunnels.len());
        lemma_dealt_settles(
            tunnels.deep_view(),
            progress@.next,
            demoted(tunnels.deep_view()[progress@.next]),
            failed_one(progress@),
        );
    }
    let next = progress.next;
    let mut tunnel = tunnels[next].clone();
    tunnel.enabled = false;
    tunnel.pid = None;
    tunnel.warning_id = None;
    tunnels.set(next, tunnel);
    assert(tunnels.deep_view() =~= old(tunnels).deep_view().update(
        next as int,
        demoted(old(tunnels).deep_view()[next as int]),
    ));
    advance(
        tunnels,
        RestoreProgress {
            next: next + 1,
            restored: progress.restored,
            failed: progress.failed + 1,
        },
    )
}

/// Goes on after the attempt to bind the local port of the tunnel at
/// `progress.next`: `available` tells whether it could be bound.
///
/// If the port is free, the caller is asked to start the forwarder. If not,
/// the tunnel becomes disabled and loses its process id and its warning, and the
/// pass goes on
/// to the next enabled tunnel.
pub fn restore_on_port_probed(
    tunnels: &mut Vec<Tunnel>,
    progress: RestoreProgress,
    available: bool,
) -> (step: RestoreStep)
    ensures
        final(tunnels).deep_view() == port_probed(
            old(tunnels).deep_view(),
            progress@,
            available,
        ).tunnels,
        step@ == port_probed(old(tunnels).deep_view(), progress@, available).step,
        settles(old(tunnels).deep_view(), final(tunnels).deep_view()),
        ports_unique(old(tunnels).deep_view()) ==> ports_unique(final(tunnels).deep_view()),
{
    if !is_at_enabled(tunnels, &progress) {
        advance(tunnels, progress)
    } else if available {
        let tunnel = &tunnels[progress.next];
        let local_port = tunnel.local_port;
        let target_host = tunnel.target_host.clone();
        let target_port = tunnel.target_port;
        RestoreStep::StartForwarder { progress, local_port, target_host, target_port }
    } else {
        demote_and_advance(tunnels, progress)
    }
}

/// Goes on after the one attempt to start the forwarder of the tunnel at
/// `progress.next`: `result` is its process id, or why it did not start.
///
/// The tunnel gets the process id, or becomes disabled and loses its process
/// id and its warning, and the pass goes on to the next enabled tunnel.
pub fn restore_on_started(
    tunnels: &mut Vec<Tunnel>,
    progress: RestoreProgress,
    result: Result<u32, String>,
) -> (step: RestoreStep)
    ensures
        final(tunnels).deep_view() == started(
            old(tunnels).deep_view(),
            progress@,
            spawn_view(result),
        ).tunnels,
        step@ == started(old(tunnels).deep_view(), progress@, spawn_view(result)).step,
        settles(old(tunnels).deep_view(), final(tunnels).deep_view()),
        ports_unique(old(tunnels).deep_view()) ==> ports_unique(final(tunnels).deep_view()),
{
    if !is_at_enabled(tunnels, &progress) {
        return advance(tunnels, progress);
    }
    match result {
        Ok(pid) => {
            proof {
                use_type_invariant(&progress);
                assert(tunnels.deep_view().len() == tunnels.len());
                lemma_dealt_settles(
                    tunnels.deep_view(),
                    progress@.next,
                    running(tunnels.deep_view()[progress@.next], pid),
                    restored_one(progress@),
                );
            }
            let next = progress.next;
            let mut tunnel = tunnels[next].clone();
            tunnel.pid = Some(pid);
            tunnels.set(next, tunnel);
            assert(tunnels.deep_view() =~= old(tunnels).deep_view().update(
                next as int,
                running(old(tunnels).deep_view()[next as int], pid),
            ));
            advance(
                tunnels,
                RestoreProgress {
                    next: next + 1,
                    restored: progress.restored + 1,
                    failed: progress.failed,
                },
            )
        },
        Err(_) => demote_and_advance(tunnels, progress),
    }
}

} // verus!
