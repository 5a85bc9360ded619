use vstd::prelude::*;

use crate::laws::lemma_runs_terminate_once;
use crate::signal::ProgressSignal;
use crate::workflow::{
    Action, Event, RuntimeHandle, Workflow, WorkflowOutcome, rank, run, run_signals,
};

verus! {

/// The outside work that the workflow asks for: probes, downloads, the
/// extraction and the launch. Each answers with what happened; none is
/// retried.
pub trait Collaborators {
    /// Looks for a working runtime at its install location.
    fn probe_runtime(&mut self) -> Option<RuntimeHandle>;

    /// Whether the application package is at its install location.
    fn probe_application(&mut self) -> bool;

    /// Downloads the runtime archive; `true` on success.
    fn fetch_runtime(&mut self) -> bool;

    /// Extracts the runtime archive into its install location; `true` on success.
    fn install_runtime(&mut self) -> bool;

    /// Downloads the application package to its install location; `true` on success.
    fn fetch_application(&mut self) -> bool;

    /// Spawns the application with the given runtime; `true` once spawned.
    fn launch(&mut self, runtime: &RuntimeHandle) -> bool;
}

/// Where the workflow's signals go, one at a time and in order.
pub trait ProgressSink {
    fn emit(&mut self, signal: ProgressSignal);
}

/// What one workflow run did: its outcome and every signal it sent.
pub struct RunRecord {
    pub outcome: WorkflowOutcome,
    pub signals: Vec<ProgressSignal>,
}

/// The fast path: where the runtime was found and the application is
/// present, the runtime to launch it with directly, with no observer and no
/// signal; otherwise `None`, and the full workflow runs.
pub fn fast_path(runtime: Option<RuntimeHandle>, application_present: bool) -> (r: Option<
    RuntimeHandle,
>)
    ensures
        r == (if application_present {
            runtime
        } else {
            None
        }),
{
    if application_present {
        runtime
    } else {
        None
    }
}

/// Runs the workflow to its end, making each call it asks for on `env` and
/// sending each signal to `sink` as soon as it is known.
pub fn run_downloader<C: Collaborators, S: ProgressSink>(env: &mut C, sink: &mut S) -> (r:
    RunRecord)
    ensures
        exists|evs: Seq<Event>|
            {
                let w = #[trigger] run(Workflow::initial(), evs);
                &&& w.phase is Done
                &&& w.outcome == Some(r.outcome)
                &&& r.signals@ == run_signals(Workflow::initial(), evs)
            },
        r.signals@.len() > 0,
        r.signals@.last().spec_is_terminal(),
        forall|i: int| 0 <= i < r.signals@.len() - 1 ==> !(#[trigger] r.signals@[i]).spec_is_terminal(),
        r.signals@.last() == ProgressSignal::Completed <==> r.outcome == WorkflowOutcome::Started,
{
    let mut wf = Workflow::new();
    let mut signals: Vec<ProgressSignal> = Vec::new();
    let ghost mut evs: Seq<Event> = Seq::empty();
    loop
        invariant
            wf.wf(),
            wf == run(Workflow::initial(), evs),
            signals@ == run_signals(Workflow::initial(), evs),
        ensures
            wf.phase is Done,
            wf == run(Workflow::initial(), evs),
            signals@ == run_signals(Workflow::initial(), evs),
        decreases rank(wf.phase),
    {
        let action = wf.pending();
        let ev = match action {
            Action::ProbeRuntime => Event::RuntimeProbed(env.probe_runtime()),
            Action::FetchRuntime => Event::Fetched(env.fetch_runtime()),
            Action::InstallRuntime => Event::RuntimeInstalled(env.install_runtime()),
            Action::ProbeApplication => Event::ApplicationProbed(env.probe_application()),
            Action::FetchApplication => Event::Fetched(env.fetch_application()),
            Action::Launch(h) => Event::Launched(env.launch(&h)),
            Action::Finish => break ,
        };
        let ghost prev = wf;
        let ghost answer = ev;
        let out = wf.step(ev);
        let mut k: usize = 0;
        while k < out.len()
            invariant
                0 <= k <= out@.len(),
                signals@ == run_signals(Workflow::initial(), evs) + out@.take(k as int),
            decreases out@.len() - k,
        {
            let s = out[k];
            sink.emit(s);
            signals.push(s);
            assert(out@.take(k as int + 1) =~= out@.take(k as int).push(s));
            k = k + 1;
        }
        proof {
            let evs2 = evs.push(answer);
            assert(evs2.drop_last() =~= evs);
            assert(out@.take(k as int) =~= out@);
            evs = evs2;
        }
    }
    proof {
        lemma_runs_terminate_once(evs);
    }
    let outcome = match wf.outcome {
        Some(o) => o,
        None => WorkflowOutcome::Started,
    };
    let r = RunRecord { outcome, signals };
    assert(run(Workflow::initial(), evs).outcome == Some(r.outcome));
    r
}

} // verus!
