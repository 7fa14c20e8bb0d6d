//! The supervision cycle: a state machine that alternates between executing
//! the configured command and sleeping the configured interval, counts the
//! executions, and stops once an optional limit is reached.

use vstd::prelude::*;

use crate::components::ExecuteContext;
use crate::components::SleepContext;
use crate::components::SharedState;
use crate::components::PrintableCmdNotFound;
use crate::components::CmdExecutor;

verus! {

/// One component of the cycle. Activation is split from the outside world:
/// the driver performs the outside work (launching the child process) and
/// hands its outcome in as the event; the component computes its output from
/// that event alone.
pub trait Component {
    /// What the driver observed while performing this component's outside
    /// work.
    type Event;

    /// What one activation produces.
    type Output;

    /// How an activation's output relates to the event it was handed.
    spec fn handle_post(&self, event: Self::Event, out: Self::Output) -> bool;

    /// Performs one activation on the given event.
    fn handle(&self, event: Self::Event) -> (out: Self::Output)
        ensures
            self.handle_post(event, out),
    ;
}

/// What one step of a state machine yields: the machine in its next state, or
/// the terminal signal.
pub enum Transition<T> {
    Next(T),
    Done,
}

/// A machine that consumes its current value on every step and either
/// produces its successor or stops.
pub trait StateMachine: Sized {
    /// What a step demands of the current value.
    spec fn handle_req(self) -> bool;

    /// How the step's result relates to the value that was consumed.
    spec fn handle_post(self, t: Transition<Self>) -> bool;

    /// Performs one step.
    fn handle(self) -> (t: Transition<Self>)
        requires
            self.handle_req(),
        ensures
            self.handle_post(t),
    ;
}

/// The two states a running cycle alternates between, each carrying the
/// shared context around its own component.
pub enum AppState {
    ExecuteCommand(ExecuteContext),
    Sleep(SleepContext),
}

impl AppState {
    /// The command line the state's context carries.
    pub open spec fn command_view(self) -> Seq<char> {
        match self {
            AppState::ExecuteCommand(c) => c.command@,
            AppState::Sleep(c) => c.command@,
        }
    }

    /// The interval the state's context carries, in milliseconds.
    pub open spec fn interval_of(self) -> u64 {
        match self {
            AppState::ExecuteCommand(c) => c.interval_ms,
            AppState::Sleep(c) => c.interval_ms,
        }
    }

    /// The state's context agrees with itself on command and interval.
    pub open spec fn wf(self) -> bool {
        match self {
            AppState::ExecuteCommand(c) => c.wf(),
            AppState::Sleep(c) => c.wf(),
        }
    }
}

/// The supervision cycle: the current state, how many executions have been
/// performed, and the optional execution limit.
pub struct App {
    pub state: AppState,
    pub count: usize,
    pub limit: Option<usize>,
}

/// True when the transition out of the given position is the terminal one:
/// only a transition out of `ExecuteCommand` can stop the cycle, and only
/// when a limit is set and the execution it performs reaches that limit.
pub open spec fn stops(executing: bool, count: nat, limit: Option<nat>) -> bool {
    &&& executing
    &&& limit matches Some(l) && count + 1 >= l
}

/// The execution count after one transition out of the given position: a
/// transition out of `ExecuteCommand` performs one execution, a transition
/// out of `Sleep` performs none.
pub open spec fn count_after(executing: bool, count: nat) -> nat {
    if executing {
        count + 1
    } else {
        count
    }
}

/// The limit as a mathematical value.
pub open spec fn limit_view(limit: Option<usize>) -> Option<nat> {
    match limit {
        Some(l) => Some(l as nat),
        None => None,
    }
}

impl App {
    /// Every state of the cycle carries a self-consistent context.
    pub open spec fn wf(self) -> bool {
        self.state.wf()
    }

    /// A fresh cycle for the given configuration: `ExecuteCommand` state, no
    /// executions performed yet.
    pub fn new(command: String, limit: Option<usize>, interval_ms: u64) -> (app: App)
        ensures
            app.wf(),
            app.state is ExecuteCommand,
            app.count == 0,
            app.limit == limit,
            app.state.command_view() == command@,
            app.state.interval_of() == interval_ms,
    {
        App {
            state: AppState::ExecuteCommand(SharedState::new(
                command.clone(),
                interval_ms,
                PrintableCmdNotFound::new(command.clone(), CmdExecutor::new(command)),
            )),
            count: 0,
            limit,
        }
    }
}

impl StateMachine for App {
    /// The cycle is well-formed, and the execution counter can still grow if
    /// this step is to perform an execution.
    open spec fn handle_req(self) -> bool {
        &&& self.wf()
        &&& self.state is ExecuteCommand ==> self.count < usize::MAX
    }

    /// The transition rule. The step is terminal exactly when `stops` says
    /// so; otherwise the cycle moves to the other state, the counter advances
    /// by `count_after`, and the limit, the command line and the interval are
    /// carried forward unchanged.
    open spec fn handle_post(self, t: Transition<Self>) -> bool {
        &&& (t is Done <==> stops(
            self.state is ExecuteCommand,
            self.count as nat,
            limit_view(self.limit),
        ))
        &&& (t matches Transition::Next(next) ==> {
            &&& next.wf()
            &&& next.limit == self.limit
            &&& next.count as nat == count_after(self.state is ExecuteCommand, self.count as nat)
            &&& (next.state is Sleep <==> self.state is ExecuteCommand)
            &&& next.state.command_view() == self.state.command_view()
            &&& next.state.interval_of() == self.state.interval_of()
        })
    }

    /// One transition. The execution and the wait themselves are the driver's
    /// outside work, performed against the current state before it steps; the
    /// rule here neither consults their outcome nor may it fail, so a failed
    /// launch still counts and the cycle still advances.
    fn handle(self) -> (t: Transition<Self>) {
        let App { state, count, limit } = self;
        match state {
            AppState::ExecuteCommand(component) => {
                let next_count = count + 1;
                let reached_limit = match limit {
                    Some(l) => next_count >= l,
                    None => false,
                };
                if reached_limit {
                    Transition::Done
                } else {
                    Transition::Next(
                        App {
                            state: AppState::Sleep(component.into_sleep()),
                            count: next_count,
                            limit,
                        },
                    )
                }
            },
            AppState::Sleep(component) => {
                Transition::Next(
                    App { state: AppState::ExecuteCommand(component.into_exec()), count, limit },
                )
            },
        }
    }
}

/// Termination measure for a bounded run: how many transitions are left
/// before the cycle stops. Each sleep position is one transition away from
/// the execute position with the same count.
pub open spec fn transitions_measure(executing: bool, count: nat, limit: nat) -> int {
    if executing {
        2 * (limit - count) - 1
    } else {
        2 * (limit - count)
    }
}

/// How many command activations a run performs from the given position until
/// it stops, under the transition rule of `App::handle_post` with the limit
/// set: a transition out of `ExecuteCommand` performs one and either stops or
/// reaches `Sleep` with the counter advanced, and a transition out of `Sleep`
/// performs none.
pub open spec fn activations_until_done(executing: bool, count: nat, limit: nat) -> nat
    decreases transitions_measure(executing, count, limit),
{
    if executing {
        if stops(true, count, Some(limit)) {
            1
        } else {
            1 + activations_until_done(false, count_after(true, count), limit)
        }
    } else {
        if count >= limit {
            0
        } else {
            activations_until_done(true, count_after(false, count), limit)
        }
    }
}

/// Law: standing in `ExecuteCommand` with `count` executions already
/// performed and a limit of `limit` still ahead, the run performs exactly
/// `limit - count` further command activations before it stops.
pub proof fn lemma_executes_exactly_to_limit(count: nat, limit: nat)
    requires
        count < limit,
    ensures
        activations_until_done(true, count, limit) == limit - count,
    decreases limit - count,
{
    if count + 1 < limit {
        lemma_executes_exactly_to_limit(count + 1, limit);
        assert(activations_until_done(false, count + 1, limit) == activations_until_done(
            true,
            count + 1,
            limit,
        ));
    }
}

/// Law: a run that starts in `ExecuteCommand` with no executions performed
/// and `executionLimit = limit` performs exactly `limit` command activations
/// and terminates.
pub proof fn lemma_run_executes_exactly_limit(limit: nat)
    requires
        limit >= 1,
    ensures
        activations_until_done(true, 0, limit) == limit,
{
    lemma_executes_exactly_to_limit(0, limit);
}

/// Law: without a limit, no position's transition is terminal — the cycle
/// never stops on its own.
pub proof fn lemma_unbounded_never_stops(executing: bool, count: nat)
    ensures
        !stops(executing, count, None),
{
}

} // verus!
