use bootstrapper::{
    Action, Collaborators, Event, FailureCause, Phase, ProgressSignal, ProgressSink,
    RuntimeHandle, Workflow, WorkflowOutcome, fast_path, run_downloader,
};

/// Answers each call from a script and records the calls made.
struct Scripted {
    runtime_probes: Vec<Option<RuntimeHandle>>,
    application_probes: Vec<bool>,
    fetch_runtime_ok: bool,
    install_runtime_ok: bool,
    fetch_application_ok: bool,
    launch_ok: bool,
    calls: Vec<&'static str>,
    launched_with: Option<RuntimeHandle>,
}

impl Scripted {
    fn new(runtime_probes: Vec<Option<RuntimeHandle>>, application_probes: Vec<bool>) -> Self {
        Scripted {
            runtime_probes,
            application_probes,
            fetch_runtime_ok: true,
            install_runtime_ok: true,
            fetch_application_ok: true,
            launch_ok: true,
            calls: Vec::new(),
            launched_with: None,
        }
    }
}

impl Collaborators for Scripted {
    fn probe_runtime(&mut self) -> Option<RuntimeHandle> {
        self.calls.push("probe_runtime");
        self.runtime_probes.remove(0)
    }

    fn probe_application(&mut self) -> bool {
        self.calls.push("probe_application");
        self.application_probes.remove(0)
    }

    fn fetch_runtime(&mut self) -> bool {
        self.calls.push("fetch_runtime");
        self.fetch_runtime_ok
    }

    fn install_runtime(&mut self) -> bool {
        self.calls.push("install_runtime");
        self.install_runtime_ok
    }

    fn fetch_application(&mut self) -> bool {
        self.calls.push("fetch_application");
        self.fetch_application_ok
    }

    fn launch(&mut self, runtime: &RuntimeHandle) -> bool {
        self.calls.push("launch");
        self.launched_with = Some(runtime.clone());
        self.launch_ok
    }
}

#[derive(Default)]
struct Collected(Vec<ProgressSignal>);

impl ProgressSink for Collected {
    fn emit(&mut self, signal: ProgressSignal) {
        self.0.push(signal);
    }
}

fn handle(path: &str) -> RuntimeHandle {
    RuntimeHandle { path: path.to_string() }
}

fn terminal_count(s: &[ProgressSignal]) -> usize {
    s.iter().filter(|x| x.is_terminal()).count()
}

#[test]
fn fresh_machine_runs_every_stage() {
    let mut env = Scripted::new(vec![None, Some(handle("/opt/rt"))], vec![false, true]);
    let mut sink = Collected::default();
    let r = run_downloader(&mut env, &mut sink);
    let expected = vec![
        ProgressSignal::FetchingRuntime,
        ProgressSignal::ExtractingRuntime,
        ProgressSignal::FetchingApplication,
        ProgressSignal::Launching,
        ProgressSignal::Completed,
    ];
    assert_eq!(r.signals, expected);
    assert_eq!(sink.0, expected);
    assert_eq!(r.outcome, WorkflowOutcome::Started);
    assert_eq!(env.launched_with, Some(handle("/opt/rt")));
    assert_eq!(
        env.calls,
        vec![
            "probe_runtime",
            "fetch_runtime",
            "install_runtime",
            "probe_runtime",
            "probe_application",
            "fetch_application",
            "probe_application",
            "launch",
        ]
    );
}

#[test]
fn fresh_runtime_with_application_present_skips_its_download() {
    let mut env = Scripted::new(vec![None, Some(handle("/opt/rt"))], vec![true, true]);
    let mut sink = Collected::default();
    let r = run_downloader(&mut env, &mut sink);
    assert_eq!(
        r.signals,
        vec![
            ProgressSignal::FetchingRuntime,
            ProgressSignal::ExtractingRuntime,
            ProgressSignal::Launching,
            ProgressSignal::Completed,
        ]
    );
    assert!(!env.calls.contains(&"fetch_application"));
}

#[test]
fn application_fetch_failure_never_launches() {
    let mut env = Scripted::new(vec![None, Some(handle("/opt/rt"))], vec![false]);
    env.fetch_application_ok = false;
    let mut sink = Collected::default();
    let r = run_downloader(&mut env, &mut sink);
    assert_eq!(
        r.signals,
        vec![ProgressSignal::FetchingRuntime, ProgressSignal::ExtractingRuntime, ProgressSignal::Failed]
    );
    assert_eq!(
        r.outcome,
        WorkflowOutcome::Failed { stage: Phase::FetchingApplication, cause: FailureCause::Fetch }
    );
    assert!(!env.calls.contains(&"launch"));
    assert_eq!(env.calls.last(), Some(&"fetch_application"));
}

#[test]
fn installed_machine_goes_straight_to_launch() {
    let mut env = Scripted::new(vec![Some(handle("/opt/rt"))], vec![true, true]);
    let mut sink = Collected::default();
    let r = run_downloader(&mut env, &mut sink);
    assert_eq!(r.signals, vec![ProgressSignal::Launching, ProgressSignal::Completed]);
    assert_eq!(env.calls, vec!["probe_runtime", "probe_application", "probe_application", "launch"]);
}

#[test]
fn installed_machine_rerun_writes_nothing() {
    for _ in 0..2 {
        let mut env = Scripted::new(vec![Some(handle("/opt/rt"))], vec![true, true]);
        let mut sink = Collected::default();
        let r = run_downloader(&mut env, &mut sink);
        assert_eq!(r.signals, vec![ProgressSignal::Launching, ProgressSignal::Completed]);
        assert!(env.calls.iter().all(|c| !c.starts_with("fetch") && !c.starts_with("install")));
    }
}

#[test]
fn runtime_fetch_failure_sends_only_failed() {
    let mut env = Scripted::new(vec![None], vec![]);
    env.fetch_runtime_ok = false;
    let mut sink = Collected::default();
    let r = run_downloader(&mut env, &mut sink);
    assert_eq!(r.signals, vec![ProgressSignal::Failed]);
    assert_eq!(
        r.outcome,
        WorkflowOutcome::Failed { stage: Phase::FetchingRuntime, cause: FailureCause::Fetch }
    );
    assert_eq!(env.calls, vec!["probe_runtime", "fetch_runtime"]);
}

#[test]
fn install_failure_is_fatal() {
    let mut env = Scripted::new(vec![None], vec![]);
    env.install_runtime_ok = false;
    let mut sink = Collected::default();
    let r = run_downloader(&mut env, &mut sink);
    assert_eq!(r.signals, vec![ProgressSignal::FetchingRuntime, ProgressSignal::Failed]);
    assert_eq!(
        r.outcome,
        WorkflowOutcome::Failed { stage: Phase::InstallingRuntime, cause: FailureCause::Install }
    );
}

#[test]
fn reprobe_miss_after_install_is_a_probe_fault() {
    let mut env = Scripted::new(vec![None, None], vec![]);
    let mut sink = Collected::default();
    let r = run_downloader(&mut env, &mut sink);
    assert_eq!(
        r.signals,
        vec![ProgressSignal::FetchingRuntime, ProgressSignal::ExtractingRuntime, ProgressSignal::Failed]
    );
    assert_eq!(
        r.outcome,
        WorkflowOutcome::Failed { stage: Phase::ReprobingRuntime, cause: FailureCause::ProbeFault }
    );
    assert_eq!(env.calls.iter().filter(|c| **c == "probe_runtime").count(), 2);
}

#[test]
fn application_missing_after_download_is_not_launched() {
    let mut env = Scripted::new(vec![Some(handle("/opt/rt"))], vec![false, false]);
    let mut sink = Collected::default();
    let r = run_downloader(&mut env, &mut sink);
    assert_eq!(
        r.signals,
        vec![ProgressSignal::FetchingApplication, ProgressSignal::Launching, ProgressSignal::Failed]
    );
    assert_eq!(
        r.outcome,
        WorkflowOutcome::Failed { stage: Phase::CheckingBeforeLaunch, cause: FailureCause::ProbeFault }
    );
    assert!(!env.calls.contains(&"launch"));
}

#[test]
fn launch_failure_reports_failed() {
    let mut env = Scripted::new(vec![Some(handle("/opt/rt"))], vec![true, true]);
    env.launch_ok = false;
    let mut sink = Collected::default();
    let r = run_downloader(&mut env, &mut sink);
    assert_eq!(r.signals, vec![ProgressSignal::Launching, ProgressSignal::Failed]);
    assert_eq!(
        r.outcome,
        WorkflowOutcome::Failed { stage: Phase::Launching, cause: FailureCause::Launch }
    );
}

#[test]
fn every_scripted_run_ends_with_one_terminal() {
    for mask in 0u32..64 {
        let bit = |k: u32| mask & (1 << k) != 0;
        let first = if bit(0) { Some(handle("/opt/rt")) } else { None };
        let second = if bit(1) { Some(handle("/opt/rt")) } else { None };
        let mut env = Scripted::new(vec![first, second], vec![bit(2), bit(3)]);
        env.fetch_runtime_ok = bit(4);
        env.launch_ok = bit(5);
        let mut sink = Collected::default();
        let r = run_downloader(&mut env, &mut sink);
        assert_eq!(terminal_count(&r.signals), 1);
        assert!(r.signals.last().unwrap().is_terminal());
        assert_eq!(
            *r.signals.last().unwrap() == ProgressSignal::Completed,
            r.outcome == WorkflowOutcome::Started
        );
    }
}

#[test]
fn answer_for_another_call_fails_the_run() {
    let mut w = Workflow::new();
    assert_eq!(w.pending(), Action::ProbeRuntime);
    let out = w.step(Event::Fetched(true));
    assert_eq!(out, vec![ProgressSignal::Failed]);
    assert_eq!(
        w.outcome,
        Some(WorkflowOutcome::Failed { stage: Phase::ProbingRuntime, cause: FailureCause::UnexpectedAnswer })
    );
    assert_eq!(w.pending(), Action::Finish);
}

#[test]
fn finished_workflow_ignores_answers() {
    let mut w = Workflow::new();
    w.step(Event::RuntimeProbed(None));
    assert_eq!(w.pending(), Action::FetchRuntime);
    assert_eq!(w.step(Event::Fetched(false)), vec![ProgressSignal::Failed]);
    assert!(w.step(Event::Fetched(true)).is_empty());
    assert!(w.step(Event::Launched(true)).is_empty());
    assert_eq!(w.phase, Phase::Done);
    assert_eq!(w.pending(), Action::Finish);
}

#[test]
fn stepwise_launch_carries_the_probed_runtime() {
    let mut w = Workflow::new();
    assert!(w.step(Event::RuntimeProbed(Some(handle("/opt/rt")))).is_empty());
    assert_eq!(w.pending(), Action::ProbeApplication);
    assert_eq!(w.step(Event::ApplicationProbed(true)), vec![ProgressSignal::Launching]);
    assert_eq!(w.pending(), Action::ProbeApplication);
    assert!(w.step(Event::ApplicationProbed(true)).is_empty());
    assert_eq!(w.pending(), Action::Launch(handle("/opt/rt")));
    assert_eq!(w.step(Event::Launched(true)), vec![ProgressSignal::Completed]);
    assert_eq!(w.outcome, Some(WorkflowOutcome::Started));
}

#[test]
fn fast_path_needs_both_artifacts() {
    assert_eq!(fast_path(Some(handle("/opt/rt")), true), Some(handle("/opt/rt")));
    assert_eq!(fast_path(Some(handle("/opt/rt")), false), None);
    assert_eq!(fast_path(None, true), None);
    assert_eq!(fast_path(None, false), None);
}
