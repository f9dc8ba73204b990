//! The callback dispatcher: when the worker that pumps the platform's
//! callbacks runs, when it sleeps, and when it ends.

use vstd::prelude::*;
use crate::interest::{count_after, counter_never_negative, InterestCounter, InterestOp};

verus! {

/// How long the dispatcher sleeps at most before it looks again, in
/// milliseconds. The bound makes up for a wake-up that was signalled just
/// before the dispatcher went to sleep.
pub const IDLE_TIMEOUT_MS: u64 = 100;

/// What the dispatcher is doing.
#[derive(Debug, Clone, Copy, PartialEq, Eq)]
pub enum DispatcherMode {
    /// Somebody waits for a result: the callbacks are pumped without pause.
    Running,
    /// Nobody waits: the worker sleeps until woken or until the timeout.
    Idle,
    /// The worker has ended.
    Retired,
}

/// What the worker does next.
#[derive(Debug, Clone, Copy, PartialEq, Eq)]
pub enum DispatcherAction {
    /// Pump the platform's callbacks once and ask again.
    Pump,
    /// Sleep until woken, at most this many milliseconds, and ask again.
    Park(u64),
    /// End the worker.
    Retire,
}

/// The decision of the dispatcher, from its mode, the interest it observes
/// and whether it is the last owner of the counter.
///
/// While anybody is interested it pumps. With nobody interested it goes to
/// sleep; when it has slept and still nobody is interested and no handle to
/// the counter is left but its own, it retires.
pub open spec fn spec_decide(mode: DispatcherMode, interest: int, last_owner: bool) -> (
    DispatcherMode,
    DispatcherAction,
) {
    if mode is Retired {
        (DispatcherMode::Retired, DispatcherAction::Retire)
    } else if interest > 0 {
        (DispatcherMode::Running, DispatcherAction::Pump)
    } else if mode is Idle && last_owner {
        (DispatcherMode::Retired, DispatcherAction::Retire)
    } else {
        (DispatcherMode::Idle, DispatcherAction::Park(IDLE_TIMEOUT_MS))
    }
}

/// The dispatcher of one session.
#[derive(Debug, Clone, PartialEq, Eq)]
pub struct Dispatcher {
    mode: DispatcherMode,
}

impl Dispatcher {
    /// What the dispatcher is doing.
    pub closed spec fn mode(&self) -> DispatcherMode {
        self.mode
    }

    /// A dispatcher that has just been started: it looks for interest first.
    pub fn new() -> (dispatcher: Self)
        ensures
            dispatcher.mode() == DispatcherMode::Running,
    {
        Dispatcher { mode: DispatcherMode::Running }
    }

    /// What the dispatcher is doing.
    pub fn current_mode(&self) -> (mode: DispatcherMode)
        ensures
            mode == self.mode(),
    {
        self.mode
    }

    /// Decides what the worker does next. `last_owner` says whether the
    /// worker's own handle to the counter is the only one left.
    pub fn step(&mut self, counter: &InterestCounter, last_owner: bool) -> (action:
        DispatcherAction)
        ensures
            (final(self).mode(), action) == spec_decide(
                old(self).mode(),
                counter.value(),
                last_owner,
            ),
    {
        let (mode, action) = match self.mode {
            DispatcherMode::Retired => (DispatcherMode::Retired, DispatcherAction::Retire),
            DispatcherMode::Running => if !counter.is_zero() {
                (DispatcherMode::Running, DispatcherAction::Pump)
            } else {
                (DispatcherMode::Idle, DispatcherAction::Park(IDLE_TIMEOUT_MS))
            },
            DispatcherMode::Idle => if !counter.is_zero() {
                (DispatcherMode::Running, DispatcherAction::Pump)
            } else if last_owner {
                (DispatcherMode::Retired, DispatcherAction::Retire)
            } else {
                (DispatcherMode::Idle, DispatcherAction::Park(IDLE_TIMEOUT_MS))
            },
        };
        proof {
            counter.lemma_value_in_range();
        }
        self.mode = mode;
        action
    }
}

/// After any changes of the counter, the next decision of a dispatcher that
/// has not ended makes it run exactly when somebody is interested: it pumps
/// if and only if the count is above zero, it never sleeps longer than the
/// idle timeout, and it retires only at zero, after a sleep, as last owner.
pub proof fn dispatcher_runs_exactly_while_interested(
    mode: DispatcherMode,
    ops: Seq<InterestOp>,
    last_owner: bool,
)
    requires
        !(mode is Retired),
    ensures
        ({
            let count = count_after(0, ops);
            let (next, action) = spec_decide(mode, count, last_owner);
            &&& count >= 0
            &&& next is Running <==> count > 0
            &&& action is Pump <==> count > 0
            &&& action is Park ==> action == DispatcherAction::Park(IDLE_TIMEOUT_MS) && next is Idle
            &&& action is Retire <==> count == 0 && mode is Idle && last_owner
            &&& action is Retire <==> next is Retired
        }),
{
    counter_never_negative(0, ops);
}

/// A dispatcher that has ended stays ended.
pub proof fn retired_dispatcher_stays_retired(interest: int, last_owner: bool)
    ensures
        spec_decide(DispatcherMode::Retired, interest, last_owner) == (
            DispatcherMode::Retired,
            DispatcherAction::Retire,
        ),
{
}

} // verus!
