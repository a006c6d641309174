//! The daemon's control decisions: a three-state scheduler driven by timer,
//! join and cancellation events, a one-shot cancellation coordinator, and the
//! per-tick fan-out that probes every tracked channel exactly once. The
//! surrounding binary owns the timer, the signals and the fetches; it feeds
//! events in and performs the actions handed back.

use vstd::prelude::*;
use crate::probe::{ProbeReport, probe_report_ok, run_probe, view_opt};
use crate::store::{LiveStore, RecordV};

verus! {

/// Where the daemon loop stands.
#[derive(Debug, PartialEq, Eq, Clone, Copy)]
pub enum SchedState {
    Idle,
    Ticking,
    Stopped,
}

/// What the loop observed while waiting.
#[derive(Debug, PartialEq, Eq, Clone, Copy)]
pub enum SchedEvent {
    TimerFired,
    ProbesJoined,
    CancelObserved,
}

/// What the loop must do next.
#[derive(Debug, PartialEq, Eq, Clone, Copy)]
pub enum SchedAction {
    StartTick,
    NoAction,
    Shutdown,
}

/// The transition table: a tick starts only from `Idle` on the timer;
/// cancellation is honoured only at `Idle`; a tick in progress ends only when
/// all its probes have joined; `Stopped` is terminal.
pub open spec fn step_spec(s: SchedState, e: SchedEvent) -> (SchedState, SchedAction) {
    match (s, e) {
        (SchedState::Idle, SchedEvent::TimerFired) => (SchedState::Ticking, SchedAction::StartTick),
        (SchedState::Idle, SchedEvent::CancelObserved) => (
            SchedState::Stopped,
            SchedAction::Shutdown,
        ),
        (SchedState::Ticking, SchedEvent::ProbesJoined) => (SchedState::Idle, SchedAction::NoAction),
        (SchedState::Stopped, _) => (SchedState::Stopped, SchedAction::NoAction),
        (s, _) => (s, SchedAction::NoAction),
    }
}

/// Advance the scheduler by one observed event.
pub fn sched_step(s: SchedState, e: SchedEvent) -> (r: (SchedState, SchedAction))
    ensures
        r == step_spec(s, e),
{
    match (s, e) {
        (SchedState::Idle, SchedEvent::TimerFired) => (SchedState::Ticking, SchedAction::StartTick),
        (SchedState::Idle, SchedEvent::CancelObserved) => (
            SchedState::Stopped,
            SchedAction::Shutdown,
        ),
        (SchedState::Ticking, SchedEvent::ProbesJoined) => (SchedState::Idle, SchedAction::NoAction),
        (SchedState::Stopped, _) => (SchedState::Stopped, SchedAction::NoAction),
        (other, _) => (other, SchedAction::NoAction),
    }
}

/// A cancellation arriving during a tick never truncates it: no event moves
/// `Ticking` to `Stopped`, so the tick's probes are all joined before the
/// loop, back at `Idle`, can observe the cancellation and stop.
pub proof fn lemma_cancel_never_truncates_tick(e: SchedEvent)
    ensures
        step_spec(SchedState::Ticking, e).0 != SchedState::Stopped,
        step_spec(SchedState::Ticking, SchedEvent::CancelObserved).0 == SchedState::Ticking,
{
}

/// The loop stops only from `Idle`, and only on an observed cancellation.
pub proof fn lemma_stop_only_between_ticks(s: SchedState, e: SchedEvent)
    requires
        s != SchedState::Stopped,
        step_spec(s, e).0 == SchedState::Stopped,
    ensures
        s == SchedState::Idle,
        e == SchedEvent::CancelObserved,
{
}

/// The one-shot cancellation coordinator: of all termination requests, only
/// the first broadcasts the cancellation event.
pub struct CancelCoordinator {
    fired: bool,
}

impl CancelCoordinator {
    pub closed spec fn has_fired(self) -> bool {
        self.fired
    }

    pub fn new() -> (c: Self)
        ensures
            !c.has_fired(),
    {
        CancelCoordinator { fired: false }
    }

    /// Observe one termination request; true exactly on the first.
    pub fn observe_termination(&mut self) -> (broadcast_now: bool)
        ensures
            broadcast_now == !old(self).has_fired(),
            final(self).has_fired(),
    {
        let first = !self.fired;
        self.fired = true;
        first
    }
}

/// The fetch results one tick works on: per channel, the channel page and the
/// watch page, each `None` where its fetch failed or was not attempted.
pub open spec fn opt_string_view(o: Option<String>) -> Option<Seq<char>> {
    match o {
        Option::Some(s) => Option::Some(s@),
        Option::None => Option::None,
    }
}

/// The reports and store changes one tick owes: one probe per channel, in
/// order, each leaving the store to the next.
pub open spec fn tick_ok(
    fetches: Seq<(Option<String>, Option<String>)>,
    reports: Seq<ProbeReport>,
    s0: Seq<RecordV>,
    s1: Seq<RecordV>,
) -> bool
    decreases fetches.len(),
{
    if fetches.len() == 0 {
        reports.len() == 0 && s1 == s0
    } else {
        &&& reports.len() >= 1
        &&& exists|mid: Seq<RecordV>|
            {
                &&& #[trigger] probe_report_ok(
                    reports[0],
                    opt_string_view(fetches[0].0),
                    opt_string_view(fetches[0].1),
                    s0,
                    mid,
                )
                &&& tick_ok(fetches.drop_first(), reports.drop_first(), mid, s1)
            }
    }
}

/// A probe changes the store by at most one record.
proof fn lemma_probe_grows_by_at_most_one(
    rep: ProbeReport,
    cp: Option<Seq<char>>,
    wp: Option<Seq<char>>,
    s0: Seq<RecordV>,
    s1: Seq<RecordV>,
)
    requires
        probe_report_ok(rep, cp, wp, s0, s1),
    ensures
        s1.len() <= s0.len() + 1,
{
}

/// Extending a finished prefix of a tick by one more probe.
proof fn lemma_tick_ok_snoc(
    fetches: Seq<(Option<String>, Option<String>)>,
    reports: Seq<ProbeReport>,
    f: (Option<String>, Option<String>),
    r: ProbeReport,
    s0: Seq<RecordV>,
    mid: Seq<RecordV>,
    s1: Seq<RecordV>,
)
    requires
        reports.len() == fetches.len(),
        tick_ok(fetches, reports, s0, mid),
        probe_report_ok(r, opt_string_view(f.0), opt_string_view(f.1), mid, s1),
    ensures
        tick_ok(fetches.push(f), reports.push(r), s0, s1),
    decreases fetches.len(),
{
    if fetches.len() == 0 {
        assert(fetches.push(f).drop_first() =~= Seq::<(Option<String>, Option<String>)>::empty());
        assert(reports.push(r).drop_first() =~= Seq::<ProbeReport>::empty());
        assert(tick_ok(fetches.push(f).drop_first(), reports.push(r).drop_first(), s1, s1));
        assert(probe_report_ok(
            (reports.push(r))[0],
            opt_string_view((fetches.push(f))[0].0),
            opt_string_view((fetches.push(f))[0].1),
            s0,
            s1,
        ));
    } else {
        let mid0 = choose|mid0: Seq<RecordV>|
            {
                &&& #[trigger] probe_report_ok(
                    reports[0],
                    opt_string_view(fetches[0].0),
                    opt_string_view(fetches[0].1),
                    s0,
                    mid0,
                )
                &&& tick_ok(fetches.drop_first(), reports.drop_first(), mid0, mid)
            };
        lemma_tick_ok_snoc(fetches.drop_first(), reports.drop_first(), f, r, mid0, mid, s1);
        assert(fetches.push(f).drop_first() =~= fetches.drop_first().push(f));
        assert(reports.push(r).drop_first() =~= reports.drop_first().push(r));
        assert(probe_report_ok(
            (reports.push(r))[0],
            opt_string_view((fetches.push(f))[0].0),
            opt_string_view((fetches.push(f))[0].1),
            s0,
            mid0,
        ));
    }
}

/// One tick's fan-out: exactly one probe per tracked channel, every probe's
/// report observed — a failure or a cancellation request never drops the
/// reports of the channels that follow.
pub fn run_tick(
    fetches: &Vec<(Option<String>, Option<String>)>,
    store: &mut LiveStore,
) -> (reports: Vec<ProbeReport>)
    requires
        old(store).wf(),
        old(store)@.len() + fetches@.len() < i32::MAX,
    ensures
        final(store).wf(),
        reports@.len() == fetches@.len(),
        tick_ok(fetches@, reports@, old(store)@, final(store)@),
{
    let ghost s0 = store@;
    let mut reports: Vec<ProbeReport> = Vec::new();
    proof {
        assert(fetches@.take(0) =~= Seq::<(Option<String>, Option<String>)>::empty());
    }
    let mut i: usize = 0;
    while i < fetches.len()
        invariant
            i <= fetches@.len(),
            reports@.len() == i,
            store.wf(),
            store@.len() <= s0.len() + i,
            s0.len() + fetches@.len() < i32::MAX,
            tick_ok(fetches@.take(i as int), reports@, s0, store@),
        decreases fetches@.len() - i,
    {
        let pair = &fetches[i];
        let cp = match &pair.0 {
            Option::Some(s) => Option::Some(s.as_str()),
            Option::None => Option::None,
        };
        let wp = match &pair.1 {
            Option::Some(s) => Option::Some(s.as_str()),
            Option::None => Option::None,
        };
        let ghost mid = store@;
        let rep = run_probe(cp, wp, store);
        proof {
            assert(view_opt(cp) == opt_string_view(fetches@[i as int].0));
            assert(view_opt(wp) == opt_string_view(fetches@[i as int].1));
            lemma_probe_grows_by_at_most_one(
                rep,
                view_opt(cp),
                view_opt(wp),
                mid,
                store@,
            );
            lemma_tick_ok_snoc(
                fetches@.take(i as int),
                reports@,
                fetches@[i as int],
                rep,
                s0,
                mid,
                store@,
            );
            assert(fetches@.take(i + 1) =~= fetches@.take(i as int).push(fetches@[i as int]));
        }
        reports.push(rep);
        i += 1;
    }
    proof {
        assert(fetches@.take(fetches@.len() as int) =~= fetches@);
    }
    reports
}

} // verus!
