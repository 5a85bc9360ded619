use vstd::prelude::*;

use crate::signal::ProgressSignal;
use crate::workflow::{
    Action, Event, Phase, RuntimeHandle, Workflow, rank, run, run_requests, run_signals,
    terminates_once,
};

verus! {

/// Every run, whatever the calls answer, sends at most one terminal signal
/// and nothing after it; it has ended exactly when it has sent one, and that
/// signal is `Completed` exactly when the application was started.
pub proof fn lemma_runs_terminate_once(evs: Seq<Event>)
    ensures
        run(Workflow::initial(), evs).wf(),
        terminates_once(run_signals(Workflow::initial(), evs), run(Workflow::initial(), evs)),
    decreases evs.len(),
{
    if evs.len() > 0 {
        let pre = evs.drop_last();
        lemma_runs_terminate_once(pre);
        let w = run(Workflow::initial(), pre);
        let s = run_signals(Workflow::initial(), pre);
        let e = w.emitted(evs.last());
        let t = s + e;
        assert(t == run_signals(Workflow::initial(), evs));
        if w.phase is Done {
            assert(e =~= Seq::<ProgressSignal>::empty());
            assert(t =~= s);
        } else {
            assert forall|i: int| 0 <= i < t.len() - 1 implies !(#[trigger] t[i]).spec_is_terminal() by {
                if i < s.len() {
                    assert(t[i] == s[i]);
                } else {
                    assert(t[i] == e[i - s.len()]);
                }
            }
        }
    }
}

/// A call that writes to the filesystem.
pub open spec fn writes_files(a: Action) -> bool {
    a is FetchRuntime || a is InstallRuntime || a is FetchApplication
}

/// Each answer moves a running workflow strictly closer to its end.
pub proof fn lemma_step_progresses(w: Workflow, ev: Event)
    requires
        !(w.phase is Done),
    ensures
        rank(w.next(ev).phase) < rank(w.phase),
{
}

/// No run outlasts eight answers: the ninth call it could ask for is
/// always `Finish`.
pub proof fn lemma_runs_end_within_eight(evs: Seq<Event>)
    ensures
        rank(run(Workflow::initial(), evs).phase) + evs.len() <= 8 || run(
            Workflow::initial(),
            evs,
        ).phase is Done,
        evs.len() >= 8 ==> run(Workflow::initial(), evs).request() is Finish,
    decreases evs.len(),
{
    if evs.len() > 0 {
        lemma_runs_end_within_eight(evs.drop_last());
        let w = run(Workflow::initial(), evs.drop_last());
        if !(w.phase is Done) {
            lemma_step_progresses(w, evs.last());
        }
    }
    lemma_runs_terminate_once(evs);
}

/// Once a run has ended, further answers change nothing and send nothing.
pub proof fn lemma_done_absorbs(w: Workflow, evs: Seq<Event>, i: int)
    requires
        0 <= i <= evs.len(),
        run(w, evs.take(i)).phase is Done,
    ensures
        run(w, evs) == run(w, evs.take(i)),
        run_signals(w, evs) == run_signals(w, evs.take(i)),
    decreases evs.len(),
{
    if evs.len() == i {
        assert(evs.take(i) =~= evs);
    } else {
        let pre = evs.drop_last();
        assert(pre.take(i) =~= evs.take(i));
        lemma_done_absorbs(w, pre, i);
        assert(run_signals(w, evs) =~= run_signals(w, pre));
    }
}

/// The state, signals and requests of the first two answers of a run.
proof fn lemma_first_two(evs: Seq<Event>)
    requires
        evs.len() >= 2,
    ensures
        run(Workflow::initial(), evs.take(1)) == Workflow::initial().next(evs[0]),
        run(Workflow::initial(), evs.take(2)) == Workflow::initial().next(evs[0]).next(evs[1]),
        run_signals(Workflow::initial(), evs.take(2)) == Workflow::initial().emitted(evs[0])
            + Workflow::initial().next(evs[0]).emitted(evs[1]),
{
    let t1 = evs.take(1);
    let t2 = evs.take(2);
    assert(t1.drop_last() =~= Seq::<Event>::empty());
    assert(t2.drop_last() =~= t1);
    assert(run_signals(Workflow::initial(), t1.drop_last()) =~= Seq::<ProgressSignal>::empty());
    assert(run_signals(Workflow::initial(), t1) =~= Workflow::initial().emitted(evs[0]));
}

/// Runs whose first two answers find the runtime and the application stay
/// in the final checks: only `Launching` and then a terminal signal are sent.
proof fn lemma_installed_stays_at_launch(h: RuntimeHandle, evs: Seq<Event>)
    requires
        evs.len() >= 2,
        evs[0] == Event::RuntimeProbed(Some(h)),
        evs[1] == Event::ApplicationProbed(true),
    ensures
        ({
            let w = run(Workflow::initial(), evs);
            w.phase is CheckingBeforeLaunch || w.phase is Launching || w.phase is Done
        }),
        run_signals(Workflow::initial(), evs).len() >= 1,
        run_signals(Workflow::initial(), evs)[0] == ProgressSignal::Launching,
        forall|i: int|
            1 <= i < run_signals(Workflow::initial(), evs).len() ==> (#[trigger] run_signals(
                Workflow::initial(),
                evs,
            )[i]).spec_is_terminal(),
    decreases evs.len(),
{
    if evs.len() == 2 {
        lemma_first_two(evs);
        assert(evs.take(2) =~= evs);
        assert(run_signals(Workflow::initial(), evs) =~= seq![ProgressSignal::Launching]);
    } else {
        let pre = evs.drop_last();
        lemma_installed_stays_at_launch(h, pre);
        let s = run_signals(Workflow::initial(), pre);
        let e = run(Workflow::initial(), pre).emitted(evs.last());
        let t = s + e;
        assert(t == run_signals(Workflow::initial(), evs));
        assert(e.len() <= 1);
        assert forall|i: int| 1 <= i < t.len() implies (#[trigger] t[i]).spec_is_terminal() by {
            if i >= s.len() {
                assert(t[i] == e[i - s.len()]);
            }
        }
    }
}

/// Where both probes report present at start, the workflow goes straight to
/// the launch: its first signal is `Launching`, every later one is terminal,
/// and it never asks for a download or an extraction.
pub proof fn lemma_installed_goes_straight_to_launch(h: RuntimeHandle, evs: Seq<Event>)
    requires
        evs.len() >= 2,
        evs[0] == Event::RuntimeProbed(Some(h)),
        evs[1] == Event::ApplicationProbed(true),
    ensures
        run_signals(Workflow::initial(), evs).len() >= 1,
        run_signals(Workflow::initial(), evs)[0] == ProgressSignal::Launching,
        forall|i: int|
            1 <= i < run_signals(Workflow::initial(), evs).len() ==> (#[trigger] run_signals(
                Workflow::initial(),
                evs,
            )[i]).spec_is_terminal(),
        forall|i: int|
            0 <= i < evs.len() ==> !writes_files(
                #[trigger] run_requests(Workflow::initial(), evs)[i],
            ),
{
    lemma_installed_stays_at_launch(h, evs);
    lemma_first_two(evs);
    assert forall|i: int| 0 <= i < evs.len() implies !writes_files(
        #[trigger] run_requests(Workflow::initial(), evs)[i],
    ) by {
        let t = evs.take(i);
        if i == 0 {
            assert(t =~= Seq::<Event>::empty());
        } else if i == 1 {
            assert(t =~= evs.take(1));
        } else {
            lemma_installed_stays_at_launch(h, t);
        }
    }
}

/// Running the workflow again on a fully installed machine behaves as the
/// first run did: both runs start with `Launching`, and neither asks for a
/// download or an extraction, so neither writes to the filesystem.
pub proof fn lemma_installed_rerun_is_idempotent(
    h1: RuntimeHandle,
    first: Seq<Event>,
    h2: RuntimeHandle,
    second: Seq<Event>,
)
    requires
        first.len() >= 2,
        first[0] == Event::RuntimeProbed(Some(h1)),
        first[1] == Event::ApplicationProbed(true),
        second.len() >= 2,
        second[0] == Event::RuntimeProbed(Some(h2)),
        second[1] == Event::ApplicationProbed(true),
    ensures
        run_signals(Workflow::initial(), first)[0] == run_signals(Workflow::initial(), second)[0],
        forall|i: int|
            0 <= i < first.len() ==> !writes_files(
                #[trigger] run_requests(Workflow::initial(), first)[i],
            ),
        forall|i: int|
            0 <= i < second.len() ==> !writes_files(
                #[trigger] run_requests(Workflow::initial(), second)[i],
            ),
{
    lemma_installed_goes_straight_to_launch(h1, first);
    lemma_installed_goes_straight_to_launch(h2, second);
}

/// Where the runtime is absent and its download and extraction succeed, the
/// workflow probes for the runtime again; a probe that then finds it lets
/// the run go on to the application without any failure.
pub proof fn lemma_installed_runtime_is_reprobed(h: RuntimeHandle)
    ensures
        ({
            let evs = seq![
                Event::RuntimeProbed(None),
                Event::Fetched(true),
                Event::RuntimeInstalled(true),
                Event::RuntimeProbed(Some(h)),
            ];
            &&& run_requests(Workflow::initial(), evs) == seq![
                Action::ProbeRuntime,
                Action::FetchRuntime,
                Action::InstallRuntime,
                Action::ProbeRuntime,
            ]
            &&& run_signals(Workflow::initial(), evs) == seq![
                ProgressSignal::FetchingRuntime,
                ProgressSignal::ExtractingRuntime,
            ]
            &&& run(Workflow::initial(), evs).phase is ProbingApplication
            &&& run(Workflow::initial(), evs).runtime == Some(h)
        }),
{
    let evs = seq![
        Event::RuntimeProbed(None),
        Event::Fetched(true),
        Event::RuntimeInstalled(true),
        Event::RuntimeProbed(Some(h)),
    ];
    let i = Workflow::initial();
    let (t0, t1, t2, t3) = (evs.take(0), evs.take(1), evs.take(2), evs.take(3));
    assert(t0 =~= Seq::<Event>::empty());
    assert(t1.drop_last() =~= t0);
    assert(t2.drop_last() =~= t1);
    assert(t3.drop_last() =~= t2);
    assert(evs.drop_last() =~= t3);
    assert(t1.last() == evs[0] && t2.last() == evs[1] && t3.last() == evs[2]);
    assert(run(i, t0) == i);
    assert(run(i, t1) == i.with_phase(Phase::FetchingRuntime));
    assert(run(i, t2) == i.with_phase(Phase::InstallingRuntime));
    assert(run(i, t3) == i.with_phase(Phase::ReprobingRuntime));
    assert(run_signals(i, t0) =~= Seq::<ProgressSignal>::empty());
    assert(run_signals(i, t1) =~= Seq::<ProgressSignal>::empty());
    assert(run_signals(i, t2) =~= seq![ProgressSignal::FetchingRuntime]);
    assert(run_signals(i, t3) =~= seq![
        ProgressSignal::FetchingRuntime,
        ProgressSignal::ExtractingRuntime,
    ]);
    assert(run_signals(i, evs) =~= run_signals(i, t3));
    assert(run_requests(i, evs) =~= seq![
        Action::ProbeRuntime,
        Action::FetchRuntime,
        Action::InstallRuntime,
        Action::ProbeRuntime,
    ]);
}

/// A download that fails, of the runtime or of the application, ends the
/// run: that answer sends exactly `Failed`, and every later request is
/// `Finish`, so no further download, extraction or launch is asked for.
pub proof fn lemma_fetch_failure_is_fatal(evs: Seq<Event>, i: int)
    requires
        0 <= i < evs.len(),
        run(Workflow::initial(), evs.take(i)).request() is FetchRuntime || run(
            Workflow::initial(),
            evs.take(i),
        ).request() is FetchApplication,
        evs[i] == Event::Fetched(false),
    ensures
        run_signals(Workflow::initial(), evs) == run_signals(Workflow::initial(), evs.take(i))
            + seq![ProgressSignal::Failed],
        forall|j: int|
            i < j < evs.len() ==> (#[trigger] run_requests(Workflow::initial(), evs)[j]) is Finish,
{
    let w0 = Workflow::initial();
    let t = evs.take(i + 1);
    assert(t.drop_last() =~= evs.take(i));
    lemma_runs_terminate_once(evs.take(i));
    assert(run(w0, t).phase is Done);
    assert(run_signals(w0, t) =~= run_signals(w0, evs.take(i)) + seq![ProgressSignal::Failed]);
    lemma_done_absorbs(w0, evs, i + 1);
    assert forall|j: int| i < j < evs.len() implies (#[trigger] run_requests(w0, evs)[j]) is Finish by {
        let u = evs.take(j);
        assert(u.take(i + 1) =~= t);
        lemma_done_absorbs(w0, u, i + 1);
    }
}

} // verus!
