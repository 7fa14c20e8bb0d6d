//! The run configuration, as the argument-parsing collaborator hands it in:
//! plain values only, immutable for the life of a run.

use vstd::prelude::*;

use crate::app::App;

verus! {

/// One run's configuration: the command line to supervise, the optional
/// maximum number of executions, and the interval between them.
pub struct Config {
    /// Maximum number of executions, unlimited when absent.
    pub count: Option<usize>,
    /// Execution interval, in milliseconds.
    pub interval_ms: u64,
    /// The command and its options, as one invocation line.
    pub command: String,
}

impl Config {
    /// A fresh supervision cycle for this configuration.
    pub fn into_app(self) -> (app: App)
        ensures
            app.wf(),
            app.state is ExecuteCommand,
            app.count == 0,
            app.limit == self.count,
            app.state.command_view() == self.command@,
            app.state.interval_of() == self.interval_ms,
    {
        App::new(self.command, self.count, self.interval_ms)
    }
}

} // verus!
