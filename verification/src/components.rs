//! The components a supervision cycle is built from: the command executor,
//! the failure-annotation decorator, the sleeper, and the shared context that
//! carries the configuration across state transitions.

use vstd::prelude::*;
use vstd::string::*;

use crate::app::Component;

verus! {

/// Why a command could not be launched.
#[derive(Clone, Copy, PartialEq, Eq, Structural, Debug)]
pub enum LaunchError {
    /// No command text was supplied.
    EmptyCommand,
    /// The named executable could not be resolved or spawned.
    LaunchFailure,
}

/// Completion status of a child process that did launch. A non-zero code is
/// not a failure for the cycle: only launch failures are diagnosed.
#[derive(Clone, Copy, PartialEq, Eq, Structural, Debug)]
pub struct ExitStatus {
    pub code: i32,
}

/// Which diagnostic line a failed launch earns.
#[derive(Clone, Copy, PartialEq, Eq, Structural, Debug)]
pub enum Diagnostic {
    NoCommandEntered,
    CommandNotFound,
}

/// The diagnostic owed for a failed launch of the given command line:
/// an empty command is reported as such, any other failure as "not found".
pub open spec fn diagnostic_for(command: Seq<char>) -> Diagnostic {
    if command.len() == 0 {
        Diagnostic::NoCommandEntered
    } else {
        Diagnostic::CommandNotFound
    }
}

/// The exact text of one diagnostic line, with the command substituted
/// verbatim.
pub open spec fn diagnostic_text(d: Diagnostic, command: Seq<char>) -> Seq<char> {
    match d {
        Diagnostic::NoCommandEntered => "no command entered"@,
        Diagnostic::CommandNotFound => "command not found: "@ + command,
    }
}

/// Renders one diagnostic line exactly as it is to appear on the error
/// stream.
pub fn render_diagnostic(d: Diagnostic, command: &str) -> (line: String)
    ensures
        line@ == diagnostic_text(d, command@),
{
    match d {
        Diagnostic::NoCommandEntered => String::from_str("no command entered"),
        Diagnostic::CommandNotFound => String::from_str("command not found: ").concat(command),
    }
}

/// Performs one command execution. The driver launches the held command
/// through the execution capability and hands the raw outcome in; this
/// component turns it into the cycle's own result, discarding the exit
/// status — a child that exits non-zero still counts as a completed run.
pub struct CmdExecutor {
    pub command: String,
}

impl CmdExecutor {
    pub fn new(command: String) -> (e: CmdExecutor)
        ensures
            e.command == command,
    {
        CmdExecutor { command }
    }
}

impl Component for CmdExecutor {
    type Event = Result<ExitStatus, LaunchError>;

    type Output = Result<(), LaunchError>;

    open spec fn handle_post(&self, event: Self::Event, out: Self::Output) -> bool {
        match event {
            Ok(_) => out == Ok::<(), LaunchError>(()),
            Err(e) => out == Err::<(), LaunchError>(e),
        }
    }

    fn handle(&self, event: Self::Event) -> (out: Self::Output) {
        match event {
            Ok(_) => Ok(()),
            Err(e) => Err(e),
        }
    }
}

/// Failure-annotation decorator around a fallible component: the wrapped
/// result passes through unchanged, and a failure earns exactly one
/// diagnostic, chosen by whether any command text was given. The activation
/// is implemented for the component it decorates in this crate, the command
/// executor.
pub struct PrintableCmdNotFound<C> {
    pub command: String,
    pub inner: C,
}

impl<C> PrintableCmdNotFound<C> {
    pub fn new(command: String, inner: C) -> (p: PrintableCmdNotFound<C>)
        ensures
            p.command == command,
            p.inner == inner,
    {
        PrintableCmdNotFound { command, inner }
    }
}

impl Component for PrintableCmdNotFound<CmdExecutor> {
    type Event = Result<ExitStatus, LaunchError>;

    type Output = (Result<(), LaunchError>, Option<Diagnostic>);

    open spec fn handle_post(&self, event: Self::Event, out: Self::Output) -> bool {
        &&& self.inner.handle_post(event, out.0)
        &&& (out.0 is Err <==> out.1 is Some)
        &&& (out.0 is Err ==> out.1 == Some(diagnostic_for(self.command@)))
    }

    fn handle(&self, event: Self::Event) -> (out: Self::Output) {
        let result = self.inner.handle(event);
        let diagnostic = if result.is_err() {
            if self.command.as_str().is_empty() {
                Some(Diagnostic::NoCommandEntered)
            } else {
                Some(Diagnostic::CommandNotFound)
            }
        } else {
            None
        };
        (result, diagnostic)
    }
}

/// Performs one wait of the configured interval. The suspension itself is the
/// driver's business; this component only carries the interval, so its
/// activation is a no-op.
pub struct WaitSec {
    pub interval_ms: u64,
}

impl Component for WaitSec {
    type Event = ();

    type Output = ();

    open spec fn handle_post(&self, event: Self::Event, out: Self::Output) -> bool {
        true
    }

    fn handle(&self, event: Self::Event) -> (out: Self::Output) {
        ()
    }
}

/// The shared cycle context: the command line and the interval, carried
/// unchanged across every state transition of a run, around the component of
/// the current state.
pub struct SharedState<C> {
    pub command: String,
    pub interval_ms: u64,
    pub inner: C,
}

impl<C> SharedState<C> {
    pub fn new(command: String, interval_ms: u64, inner: C) -> (s: SharedState<C>)
        ensures
            s.command == command,
            s.interval_ms == interval_ms,
            s.inner == inner,
    {
        SharedState { command, interval_ms, inner }
    }
}

impl<C: Component> Component for SharedState<C> {
    type Event = C::Event;

    type Output = C::Output;

    open spec fn handle_post(&self, event: Self::Event, out: Self::Output) -> bool {
        self.inner.handle_post(event, out)
    }

    fn handle(&self, event: Self::Event) -> (out: Self::Output) {
        self.inner.handle(event)
    }
}

/// The context as the `ExecuteCommand` state holds it.
pub type ExecuteContext = SharedState<PrintableCmdNotFound<CmdExecutor>>;

/// The context as the `Sleep` state holds it.
pub type SleepContext = SharedState<WaitSec>;

impl SharedState<PrintableCmdNotFound<CmdExecutor>> {
    /// The decorator and the executor report on the same command line that
    /// the context carries.
    pub open spec fn wf(self) -> bool {
        &&& self.inner.command@ == self.command@
        &&& self.inner.inner.command@ == self.command@
    }

    /// The `ExecuteCommand` → `Sleep` conversion: drop the command-specific
    /// wrapper, keep the command line and the interval.
    pub fn into_sleep(self) -> (s: SleepContext)
        ensures
            s.command == self.command,
            s.interval_ms == self.interval_ms,
            s.wf(),
    {
        SharedState {
            inner: WaitSec { interval_ms: self.interval_ms },
            command: self.command,
            interval_ms: self.interval_ms,
        }
    }
}

impl SharedState<WaitSec> {
    /// The sleeper waits exactly the interval that the context carries.
    pub open spec fn wf(self) -> bool {
        self.inner.interval_ms == self.interval_ms
    }

    /// The `Sleep` → `ExecuteCommand` conversion: rebuild the executor and
    /// its failure-annotation decorator from the retained command line.
    pub fn into_exec(self) -> (s: ExecuteContext)
        ensures
            s.command == self.command,
            s.interval_ms == self.interval_ms,
            s.wf(),
    {
        SharedState {
            inner: PrintableCmdNotFound {
                command: self.command.clone(),
                inner: CmdExecutor { command: self.command.clone() },
            },
            command: self.command,
            interval_ms: self.interval_ms,
        }
    }
}

} // verus!
