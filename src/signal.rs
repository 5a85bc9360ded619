use vstd::prelude::*;

verus! {

/// Highest position that a progress indicator reaches.
pub const FINAL_POSITION: u64 = 5;

/// A discrete notification that the workflow sends to its observer.
///
/// Each non-terminal variant is sent once the stage it names is done, and
/// tells the observer which labelled phase comes next.
#[derive(Clone, Copy, Debug, PartialEq, Eq, Structural)]
pub enum ProgressSignal {
    FetchingRuntime,
    ExtractingRuntime,
    FetchingApplication,
    Launching,
    Completed,
    Failed,
}

impl ProgressSignal {
    /// `Completed` and `Failed` end a workflow run.
    pub open spec fn spec_is_terminal(self) -> bool {
        self is Completed || self is Failed
    }

    /// Position of the signal on a progress indicator, from 1 to
    /// `FINAL_POSITION`; both terminal signals fill the indicator.
    pub open spec fn spec_position(self) -> u64 {
        match self {
            ProgressSignal::FetchingRuntime => 1,
            ProgressSignal::ExtractingRuntime => 2,
            ProgressSignal::FetchingApplication => 3,
            ProgressSignal::Launching => 4,
            ProgressSignal::Completed => FINAL_POSITION,
            ProgressSignal::Failed => FINAL_POSITION,
        }
    }

    pub fn is_terminal(&self) -> (r: bool)
        ensures
            r == self.spec_is_terminal(),
    {
        match self {
            ProgressSignal::Completed => true,
            ProgressSignal::Failed => true,
            _ => false,
        }
    }

    pub fn position(&self) -> (r: u64)
        ensures
            r == self.spec_position(),
            1 <= r <= FINAL_POSITION,
    {
        match self {
            ProgressSignal::FetchingRuntime => 1,
            ProgressSignal::ExtractingRuntime => 2,
            ProgressSignal::FetchingApplication => 3,
            ProgressSignal::Launching => 4,
            ProgressSignal::Completed => FINAL_POSITION,
            ProgressSignal::Failed => FINAL_POSITION,
        }
    }
}

} // verus!
