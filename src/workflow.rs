use vstd::prelude::*;

use crate::signal::ProgressSignal;

verus! {

/// A filesystem location known to hold a working runtime installation.
#[derive(Clone, Debug, PartialEq, Eq)]
pub struct RuntimeHandle {
    pub path: String,
}

/// The call a workflow is waiting on; `Done` once it has ended.
#[derive(Clone, Copy, Debug, PartialEq, Eq, Structural)]
pub enum Phase {
    ProbingRuntime,
    FetchingRuntime,
    InstallingRuntime,
    ReprobingRuntime,
    ProbingApplication,
    FetchingApplication,
    CheckingBeforeLaunch,
    Launching,
    Done,
}

/// Why a workflow run failed.
#[derive(Clone, Copy, Debug, PartialEq, Eq, Structural)]
pub enum FailureCause {
    /// The download did not complete.
    Fetch,
    /// The runtime archive could not be extracted.
    Install,
    /// A probe reported absent right after the artifact was put in place.
    ProbeFault,
    /// The application process could not be spawned.
    Launch,
    /// The answer handed in does not belong to the pending call.
    UnexpectedAnswer,
}

/// The terminal result of one workflow run.
#[derive(Clone, Copy, Debug, PartialEq, Eq, Structural)]
pub enum WorkflowOutcome {
    /// The application process was spawned.
    Started,
    /// The run stopped in `stage` for `cause`.
    Failed { stage: Phase, cause: FailureCause },
}

/// The outside call that the workflow asks for next.
#[derive(Clone, Debug, PartialEq, Eq)]
pub enum Action {
    ProbeRuntime,
    FetchRuntime,
    InstallRuntime,
    ProbeApplication,
    FetchApplication,
    Launch(RuntimeHandle),
    Finish,
}

/// The answer of an outside call, handed back to the workflow.
#[derive(Clone, Debug, PartialEq, Eq)]
pub enum Event {
    RuntimeProbed(Option<RuntimeHandle>),
    ApplicationProbed(bool),
    Fetched(bool),
    RuntimeInstalled(bool),
    Launched(bool),
}

/// The bootstrap workflow: a forward-only sequence of probes, downloads,
/// an extraction and a launch, driven by the answers handed to `step`.
pub struct Workflow {
    pub phase: Phase,
    pub runtime: Option<RuntimeHandle>,
    pub outcome: Option<WorkflowOutcome>,
}

/// How many steps at most separate a phase from `Done`.
pub open spec fn rank(p: Phase) -> nat {
    match p {
        Phase::ProbingRuntime => 8,
        Phase::FetchingRuntime => 7,
        Phase::InstallingRuntime => 6,
        Phase::ReprobingRuntime => 5,
        Phase::ProbingApplication => 4,
        Phase::FetchingApplication => 3,
        Phase::CheckingBeforeLaunch => 2,
        Phase::Launching => 1,
        Phase::Done => 0,
    }
}

/// Phases reached only once a runtime has been found.
pub open spec fn has_runtime_phase(p: Phase) -> bool {
    p is ProbingApplication || p is FetchingApplication || p is CheckingBeforeLaunch
        || p is Launching
}

impl Workflow {
    pub open spec fn wf(self) -> bool {
        &&& has_runtime_phase(self.phase) ==> self.runtime is Some
        &&& (self.phase is Done <==> self.outcome is Some)
    }

    pub open spec fn initial() -> Workflow {
        Workflow { phase: Phase::ProbingRuntime, runtime: None, outcome: None }
    }

    /// The call that the workflow waits on.
    pub open spec fn request(self) -> Action {
        match self.phase {
            Phase::ProbingRuntime => Action::ProbeRuntime,
            Phase::ReprobingRuntime => Action::ProbeRuntime,
            Phase::FetchingRuntime => Action::FetchRuntime,
            Phase::InstallingRuntime => Action::InstallRuntime,
            Phase::ProbingApplication => Action::ProbeApplication,
            Phase::CheckingBeforeLaunch => Action::ProbeApplication,
            Phase::FetchingApplication => Action::FetchApplication,
            Phase::Launching => match self.runtime {
                Some(h) => Action::Launch(h),
                None => Action::Finish,
            },
            Phase::Done => Action::Finish,
        }
    }

    pub open spec fn with_phase(self, p: Phase) -> Workflow {
        Workflow { phase: p, ..self }
    }

    pub open spec fn failed(self, cause: FailureCause) -> Workflow {
        Workflow {
            phase: Phase::Done,
            outcome: Some(WorkflowOutcome::Failed { stage: self.phase, cause }),
            ..self
        }
    }

    /// The state after the pending call answered `ev`.
    pub open spec fn next(self, ev: Event) -> Workflow {
        match (self.phase, ev) {
            (Phase::Done, _) => self,
            (Phase::ProbingRuntime, Event::RuntimeProbed(Some(h))) => Workflow {
                phase: Phase::ProbingApplication,
                runtime: Some(h),
                ..self
            },
            (Phase::ProbingRuntime, Event::RuntimeProbed(None)) => self.with_phase(
                Phase::FetchingRuntime,
            ),
            (Phase::FetchingRuntime, Event::Fetched(true)) => self.with_phase(
                Phase::InstallingRuntime,
            ),
            (Phase::FetchingRuntime, Event::Fetched(false)) => self.failed(FailureCause::Fetch),
            (Phase::InstallingRuntime, Event::RuntimeInstalled(true)) => self.with_phase(
                Phase::ReprobingRuntime,
            ),
            (Phase::InstallingRuntime, Event::RuntimeInstalled(false)) => self.failed(
                FailureCause::Install,
            ),
            (Phase::ReprobingRuntime, Event::RuntimeProbed(Some(h))) => Workflow {
                phase: Phase::ProbingApplication,
                runtime: Some(h),
                ..self
            },
            (Phase::ReprobingRuntime, Event::RuntimeProbed(None)) => self.failed(
                FailureCause::ProbeFault,
            ),
            (Phase::ProbingApplication, Event::ApplicationProbed(true)) => self.with_phase(
                Phase::CheckingBeforeLaunch,
            ),
            (Phase::ProbingApplication, Event::ApplicationProbed(false)) => self.with_phase(
                Phase::FetchingApplication,
            ),
            (Phase::FetchingApplication, Event::Fetched(true)) => self.with_phase(
                Phase::CheckingBeforeLaunch,
            ),
            (Phase::FetchingApplication, Event::Fetched(false)) => self.failed(
                FailureCause::Fetch,
            ),
            (Phase::CheckingBeforeLaunch, Event::ApplicationProbed(true)) => self.with_phase(
                Phase::Launching,
            ),
            (Phase::CheckingBeforeLaunch, Event::ApplicationProbed(false)) => self.failed(
                FailureCause::ProbeFault,
            ),
            (Phase::Launching, Event::Launched(true)) => Workflow {
                phase: Phase::Done,
                outcome: Some(WorkflowOutcome::Started),
                ..self
            },
            (Phase::Launching, Event::Launched(false)) => self.failed(FailureCause::Launch),
            _ => self.failed(FailureCause::UnexpectedAnswer),
        }
    }

    /// The stage signals sent when the pending call answered `ev`,
    /// before any terminal signal.
    pub open spec fn progress(self, ev: Event) -> Seq<ProgressSignal> {
        match (self.phase, ev) {
            (Phase::FetchingRuntime, Event::Fetched(true)) => seq![
                ProgressSignal::FetchingRuntime,
            ],
            (Phase::InstallingRuntime, Event::RuntimeInstalled(true)) => seq![
                ProgressSignal::ExtractingRuntime,
            ],
            (Phase::ProbingApplication, Event::ApplicationProbed(true)) => seq![
                ProgressSignal::Launching,
            ],
            (Phase::FetchingApplication, Event::Fetched(true)) => seq![
                ProgressSignal::FetchingApplication,
                ProgressSignal::Launching,
            ],
            _ => Seq::empty(),
        }
    }

    /// All signals sent when the pending call answered `ev`: the stage
    /// signals, then `Completed` or `Failed` where the answer ends the run.
    pub open spec fn emitted(self, ev: Event) -> Seq<ProgressSignal> {
        if self.phase is Done {
            Seq::empty()
        } else if self.next(ev).outcome == Some(WorkflowOutcome::Started) {
            self.progress(ev).push(ProgressSignal::Completed)
        } else if self.next(ev).phase is Done {
            self.progress(ev).push(ProgressSignal::Failed)
        } else {
            self.progress(ev)
        }
    }

    pub fn new() -> (r: Workflow)
        ensures
            r == Workflow::initial(),
            r.wf(),
    {
        Workflow { phase: Phase::ProbingRuntime, runtime: None, outcome: None }
    }

    /// The call to make next; `Finish` once the run has ended.
    pub fn pending(&self) -> (r: Action)
        requires
            self.wf(),
        ensures
            r == self.request(),
            r is Finish <==> self.phase is Done,
    {
        match self.phase {
            Phase::ProbingRuntime => Action::ProbeRuntime,
            Phase::ReprobingRuntime => Action::ProbeRuntime,
            Phase::FetchingRuntime => Action::FetchRuntime,
            Phase::InstallingRuntime => Action::InstallRuntime,
            Phase::ProbingApplication => Action::ProbeApplication,
            Phase::CheckingBeforeLaunch => Action::ProbeApplication,
            Phase::FetchingApplication => Action::FetchApplication,
            Phase::Launching => match &self.runtime {
                Some(h) => Action::Launch(RuntimeHandle { path: h.path.clone() }),
                None => Action::Finish,
            },
            Phase::Done => Action::Finish,
        }
    }

    fn fail(&mut self, cause: FailureCause) -> (r: Vec<ProgressSignal>)
        requires
            !(old(self).phase is Done),
        ensures
            *final(self) == old(self).failed(cause),
            r@ == seq![ProgressSignal::Failed],
    {
        self.outcome = Some(WorkflowOutcome::Failed { stage: self.phase, cause });
        self.phase = Phase::Done;
        vec![ProgressSignal::Failed]
    }

    /// Hands the answer of the pending call to the workflow, which moves on
    /// and returns the signals to send, in order.
    pub fn step(&mut self, ev: Event) -> (r: Vec<ProgressSignal>)
        requires
            old(self).wf(),
        ensures
            final(self).wf(),
            *final(self) == old(self).next(ev),
            r@ == old(self).emitted(ev),
            !(old(self).phase is Done) ==> rank(final(self).phase) < rank(old(self).phase),
    {
        match (self.phase, ev) {
            (Phase::Done, _) => Vec::new(),
            (Phase::ProbingRuntime, Event::RuntimeProbed(Some(h))) => {
                self.phase = Phase::ProbingApplication;
                self.runtime = Some(h);
                Vec::new()
            },
            (Phase::ProbingRuntime, Event::RuntimeProbed(None)) => {
                self.phase = Phase::FetchingRuntime;
                Vec::new()
            },
            (Phase::FetchingRuntime, Event::Fetched(true)) => {
                self.phase = Phase::InstallingRuntime;
                vec![ProgressSignal::FetchingRuntime]
            },
            (Phase::FetchingRuntime, Event::Fetched(false)) => self.fail(FailureCause::Fetch),
            (Phase::InstallingRuntime, Event::RuntimeInstalled(true)) => {
                self.phase = Phase::ReprobingRuntime;
                vec![ProgressSignal::ExtractingRuntime]
            },
            (Phase::InstallingRuntime, Event::RuntimeInstalled(false)) => self.fail(
                FailureCause::Install,
            ),
            (Phase::ReprobingRuntime, Event::RuntimeProbed(Some(h))) => {
                self.phase = Phase::ProbingApplication;
                self.runtime = Some(h);
                Vec::new()
            },
            (Phase::ReprobingRuntime, Event::RuntimeProbed(None)) => self.fail(
                FailureCause::ProbeFault,
            ),
            (Phase::ProbingApplication, Event::ApplicationProbed(true)) => {
                self.phase = Phase::CheckingBeforeLaunch;
                vec![ProgressSignal::Launching]
            },
            (Phase::ProbingApplication, Event::ApplicationProbed(false)) => {
                self.phase = Phase::FetchingApplication;
                Vec::new()
            },
            (Phase::FetchingApplication, Event::Fetched(true)) => {
                self.phase = Phase::CheckingBeforeLaunch;
                vec![ProgressSignal::FetchingApplication, ProgressSignal::Launching]
            },
            (Phase::FetchingApplication, Event::Fetched(false)) => self.fail(
                FailureCause::Fetch,
            ),
            (Phase::CheckingBeforeLaunch, Event::ApplicationProbed(true)) => {
                self.phase = Phase::Launching;
                Vec::new()
            },
            (Phase::CheckingBeforeLaunch, Event::ApplicationProbed(false)) => self.fail(
                FailureCause::ProbeFault,
            ),
            (Phase::Launching, Event::Launched(true)) => {
                self.phase = Phase::Done;
                self.outcome = Some(WorkflowOutcome::Started);
                vec![ProgressSignal::Completed]
            },
            (Phase::Launching, Event::Launched(false)) => self.fail(FailureCause::Launch),
            _ => self.fail(FailureCause::UnexpectedAnswer),
        }
    }
}

/// The state reached from `w` once the pending calls answered `evs`, in order.
pub open spec fn run(w: Workflow, evs: Seq<Event>) -> Workflow
    decreases evs.len(),
{
    if evs.len() == 0 {
        w
    } else {
        run(w, evs.drop_last()).next(evs.last())
    }
}

/// The signals sent from `w` while the pending calls answered `evs`.
pub open spec fn run_signals(w: Workflow, evs: Seq<Event>) -> Seq<ProgressSignal>
    decreases evs.len(),
{
    if evs.len() == 0 {
        Seq::empty()
    } else {
        run_signals(w, evs.drop_last()) + run(w, evs.drop_last()).emitted(evs.last())
    }
}

/// The calls requested from `w` while the pending calls answered `evs`:
/// the `i`-th answer belongs to the `i`-th request.
pub open spec fn run_requests(w: Workflow, evs: Seq<Event>) -> Seq<Action> {
    Seq::new(evs.len(), |i: int| run(w, evs.take(i)).request())
}

/// No signal follows a terminal one, and the run has ended exactly when the
/// last signal is terminal: `Completed` where the application was started,
/// `Failed` otherwise.
pub open spec fn terminates_once(s: Seq<ProgressSignal>, w: Workflow) -> bool {
    &&& forall|i: int| 0 <= i < s.len() - 1 ==> !(#[trigger] s[i]).spec_is_terminal()
    &&& (w.phase is Done <==> (s.len() > 0 && s.last().spec_is_terminal()))
    &&& (w.phase is Done ==> (s.last() == ProgressSignal::Completed <==> w.outcome
        == Some(WorkflowOutcome::Started)))
}

} // verus!
