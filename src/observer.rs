use vstd::prelude::*;

use crate::signal::ProgressSignal;

verus! {

/// What the observer does with one received signal.
#[derive(Clone, Copy, Debug, PartialEq, Eq, Structural)]
pub enum Reaction {
    /// Show the phase that `signal` announces, at `position` on the indicator.
    Show { signal: ProgressSignal, position: u64 },
    /// The application was started: close silently.
    Close,
    /// The run failed: report one generic error, then close.
    ReportFailureAndClose,
    /// The observer is gone or has already finished: do nothing.
    Ignore,
}

/// The reaction to `signal` of an observer that has `finished` or not,
/// and whose window is `alive` or not.
pub open spec fn reaction(finished: bool, alive: bool, signal: ProgressSignal) -> Reaction {
    if finished || !alive {
        Reaction::Ignore
    } else {
        match signal {
            ProgressSignal::Completed => Reaction::Close,
            ProgressSignal::Failed => Reaction::ReportFailureAndClose,
            _ => Reaction::Show { signal, position: signal.spec_position() },
        }
    }
}

/// The foreground side of the progress channel: turns each signal into a
/// reaction, and stops reacting once a terminal signal was handled.
pub struct Observer {
    pub finished: bool,
}

impl Observer {
    pub fn new() -> (r: Observer)
        ensures
            !r.finished,
    {
        Observer { finished: false }
    }

    /// Dispatches `signal`, after checking that the observer's window is
    /// still `alive`.
    pub fn on_signal(&mut self, alive: bool, signal: ProgressSignal) -> (r: Reaction)
        ensures
            r == reaction(old(self).finished, alive, signal),
            final(self).finished == (old(self).finished || (alive
                && signal.spec_is_terminal())),
    {
        if self.finished || !alive {
            return Reaction::Ignore;
        }
        match signal {
            ProgressSignal::Completed => {
                self.finished = true;
                Reaction::Close
            },
            ProgressSignal::Failed => {
                self.finished = true;
                Reaction::ReportFailureAndClose
            },
            _ => Reaction::Show { signal, position: signal.position() },
        }
    }
}

} // verus!
