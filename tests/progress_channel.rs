use bootstrapper::{Observer, ProgressQueue, ProgressSignal, Reaction};

#[test]
fn queue_delivers_in_order() {
    let mut q = ProgressQueue::new();
    assert!(q.send(ProgressSignal::FetchingRuntime));
    assert!(q.send(ProgressSignal::ExtractingRuntime));
    assert!(q.send(ProgressSignal::Launching));
    assert_eq!(q.len(), 3);
    assert_eq!(q.recv(), Some(ProgressSignal::FetchingRuntime));
    assert_eq!(q.recv(), Some(ProgressSignal::ExtractingRuntime));
    assert_eq!(q.recv(), Some(ProgressSignal::Launching));
    assert_eq!(q.recv(), None);
}

#[test]
fn queue_refuses_signals_after_terminal() {
    let mut q = ProgressQueue::new();
    assert!(!q.is_closed());
    assert!(q.send(ProgressSignal::Failed));
    assert!(q.is_closed());
    assert!(!q.send(ProgressSignal::Launching));
    assert!(!q.send(ProgressSignal::Completed));
    assert_eq!(q.len(), 1);
    assert_eq!(q.recv(), Some(ProgressSignal::Failed));
    assert_eq!(q.recv(), None);
    assert!(q.is_closed());
}

#[test]
fn empty_queue_gives_nothing() {
    let mut q = ProgressQueue::new();
    assert_eq!(q.len(), 0);
    assert_eq!(q.recv(), None);
}

#[test]
fn positions_follow_emission_order() {
    assert_eq!(ProgressSignal::FetchingRuntime.position(), 1);
    assert_eq!(ProgressSignal::ExtractingRuntime.position(), 2);
    assert_eq!(ProgressSignal::FetchingApplication.position(), 3);
    assert_eq!(ProgressSignal::Launching.position(), 4);
    assert_eq!(ProgressSignal::Completed.position(), 5);
    assert_eq!(ProgressSignal::Failed.position(), 5);
    assert!(ProgressSignal::Completed.is_terminal());
    assert!(ProgressSignal::Failed.is_terminal());
    assert!(!ProgressSignal::Launching.is_terminal());
}

#[test]
fn observer_shows_stages_then_closes() {
    let mut o = Observer::new();
    assert_eq!(
        o.on_signal(true, ProgressSignal::ExtractingRuntime),
        Reaction::Show { signal: ProgressSignal::ExtractingRuntime, position: 2 }
    );
    assert!(!o.finished);
    assert_eq!(o.on_signal(true, ProgressSignal::Completed), Reaction::Close);
    assert!(o.finished);
    assert_eq!(o.on_signal(true, ProgressSignal::Launching), Reaction::Ignore);
}

#[test]
fn observer_reports_failure() {
    let mut o = Observer::new();
    assert_eq!(o.on_signal(true, ProgressSignal::Failed), Reaction::ReportFailureAndClose);
    assert_eq!(o.on_signal(true, ProgressSignal::Failed), Reaction::Ignore);
}

#[test]
fn gone_observer_ignores_signals() {
    let mut o = Observer::new();
    assert_eq!(o.on_signal(false, ProgressSignal::Failed), Reaction::Ignore);
    assert!(!o.finished);
    assert_eq!(o.on_signal(true, ProgressSignal::Launching), Reaction::Show {
        signal: ProgressSignal::Launching,
        position: 4
    });
}
