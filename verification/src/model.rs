//! The mathematical model of one scheduled invocation.
//!
//! Time is counted in nanoseconds as a `nat`. The waiter is a small state
//! machine; an invocation is a waiter together with the value of the
//! cancellation flag it shares with its handle.

use vstd::prelude::*;

verus! {

/// Where a waiter stands in its life cycle.
#[derive(Clone, Copy, Debug, PartialEq, Eq, Structural)]
pub enum Phase {
    /// Created, background work not yet running.
    Armed,
    /// Waiting for the deadline.
    Sleeping,
    /// The callback was dispatched.
    Fired,
    /// Cancellation was observed after waking; the callback was dropped.
    Suppressed,
}

/// What the host reports to a waiter.
pub enum EventModel {
    /// The background work began to run, `elapsed` nanoseconds after the
    /// invocation was scheduled.
    Started { elapsed: nat },
    /// The sleep is over; `cancelled` is the value read from the flag.
    Woke { cancelled: bool },
}

/// What a waiter asks of the host.
pub enum ActionModel {
    /// Block for `remaining` nanoseconds, then report `Woke`.
    Sleep { remaining: nat },
    /// Run the callback once, on a context of its own.
    Dispatch,
    /// Finish without running the callback.
    Exit,
    /// The event does not apply in this phase; do nothing.
    Ignore,
}

/// A waiter: the requested delay and the current phase.
pub struct WaiterModel {
    pub wait: nat,
    pub phase: Phase,
}

impl WaiterModel {
    /// A waiter that has just been created for a delay of `wait`.
    pub open spec fn new(wait: nat) -> WaiterModel {
        WaiterModel { wait, phase: Phase::Armed }
    }

    /// The time left until the deadline once `elapsed` has passed, never
    /// negative.
    pub open spec fn remaining(self, elapsed: nat) -> nat {
        if elapsed >= self.wait {
            0
        } else {
            (self.wait - elapsed) as nat
        }
    }

    /// Whether the waiter has finished, one way or the other.
    pub open spec fn done(self) -> bool {
        self.phase == Phase::Fired || self.phase == Phase::Suppressed
    }

    /// The waiter after `event`.
    pub open spec fn next(self, event: EventModel) -> WaiterModel {
        match (self.phase, event) {
            (Phase::Armed, EventModel::Started { .. }) => WaiterModel {
                phase: Phase::Sleeping,
                ..self
            },
            (Phase::Sleeping, EventModel::Woke { cancelled }) => WaiterModel {
                phase: if cancelled {
                    Phase::Suppressed
                } else {
                    Phase::Fired
                },
                ..self
            },
            _ => self,
        }
    }

    /// What the waiter asks for in answer to `event`.
    pub open spec fn action(self, event: EventModel) -> ActionModel {
        match (self.phase, event) {
            (Phase::Armed, EventModel::Started { elapsed }) => ActionModel::Sleep {
                remaining: self.remaining(elapsed),
            },
            (Phase::Sleeping, EventModel::Woke { cancelled }) => if cancelled {
                ActionModel::Exit
            } else {
                ActionModel::Dispatch
            },
            _ => ActionModel::Ignore,
        }
    }
}

/// One thing that can happen to a scheduled invocation.
pub enum Transition {
    /// The cancellation handle is invoked.
    Cancel,
    /// The waiter begins to run, `elapsed` nanoseconds after scheduling.
    Start { elapsed: nat },
    /// The waiter's sleep ends and it reads the flag.
    Wake,
}

/// A scheduled invocation: the shared flag and the waiter that reads it.
pub struct InvocationModel {
    pub cancelled: bool,
    pub waiter: WaiterModel,
}

impl InvocationModel {
    /// The invocation as scheduling leaves it: flag unset, waiter armed.
    pub open spec fn scheduled(wait: nat) -> InvocationModel {
        InvocationModel { cancelled: false, waiter: WaiterModel::new(wait) }
    }

    /// The invocation after `t`. A `Cancel` sets the flag and leaves the
    /// waiter alone; a `Wake` shows the waiter the flag as it is then.
    pub open spec fn next(self, t: Transition) -> InvocationModel {
        match t {
            Transition::Cancel => InvocationModel { cancelled: true, ..self },
            Transition::Start { elapsed } => InvocationModel {
                waiter: self.waiter.next(EventModel::Started { elapsed }),
                ..self
            },
            Transition::Wake => InvocationModel {
                waiter: self.waiter.next(EventModel::Woke { cancelled: self.cancelled }),
                ..self
            },
        }
    }

    /// What the waiter asks of the host when `t` happens.
    pub open spec fn action(self, t: Transition) -> ActionModel {
        match t {
            Transition::Cancel => ActionModel::Ignore,
            Transition::Start { elapsed } => self.waiter.action(EventModel::Started { elapsed }),
            Transition::Wake => self.waiter.action(
                EventModel::Woke { cancelled: self.cancelled },
            ),
        }
    }

    /// The invocation after all of `ts`, in order.
    pub open spec fn run(self, ts: Seq<Transition>) -> InvocationModel
        decreases ts.len(),
    {
        if ts.len() == 0 {
            self
        } else {
            self.next(ts[0]).run(ts.drop_first())
        }
    }

    /// How many times the callback is dispatched in the course of `ts`.
    pub open spec fn dispatches(self, ts: Seq<Transition>) -> nat
        decreases ts.len(),
    {
        if ts.len() == 0 {
            0
        } else {
            let now: nat = if self.action(ts[0]) == ActionModel::Dispatch {
                1
            } else {
                0
            };
            now + self.next(ts[0]).dispatches(ts.drop_first())
        }
    }
}

/// Which of two invocations something happens to.
pub enum Side {
    First,
    Second,
}

/// Two invocations, scheduled one beside the other. Each has a flag and a
/// waiter of its own.
pub struct PairModel {
    pub first: InvocationModel,
    pub second: InvocationModel,
}

impl PairModel {
    /// The invocation on `side`.
    pub open spec fn get(self, side: Side) -> InvocationModel {
        match side {
            Side::First => self.first,
            Side::Second => self.second,
        }
    }

    /// The pair after `t` happens to the invocation on `side`.
    pub open spec fn next(self, side: Side, t: Transition) -> PairModel {
        match side {
            Side::First => PairModel { first: self.first.next(t), ..self },
            Side::Second => PairModel { second: self.second.next(t), ..self },
        }
    }

    /// The pair after all of `ts`, in order.
    pub open spec fn run(self, ts: Seq<(Side, Transition)>) -> PairModel
        decreases ts.len(),
    {
        if ts.len() == 0 {
            self
        } else {
            self.next(ts[0].0, ts[0].1).run(ts.drop_first())
        }
    }

    /// How many times the callback of the invocation on `side` is dispatched
    /// in the course of `ts`.
    pub open spec fn dispatches(self, side: Side, ts: Seq<(Side, Transition)>) -> nat
        decreases ts.len(),
    {
        if ts.len() == 0 {
            0
        } else {
            let now: nat = if ts[0].0 == side && self.get(side).action(ts[0].1)
                == ActionModel::Dispatch {
                1
            } else {
                0
            };
            now + self.next(ts[0].0, ts[0].1).dispatches(side, ts.drop_first())
        }
    }
}

/// The transitions of `ts` that happen on `side`, in their order.
pub open spec fn on_side(side: Side, ts: Seq<(Side, Transition)>) -> Seq<Transition>
    decreases ts.len(),
{
    if ts.len() == 0 {
        Seq::empty()
    } else if ts[0].0 == side {
        seq![ts[0].1] + on_side(side, ts.drop_first())
    } else {
        on_side(side, ts.drop_first())
    }
}

} // verus!
