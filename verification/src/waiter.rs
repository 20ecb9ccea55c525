//! The executable waiter.

use crate::flag::CancelFlag;
use crate::model::{ActionModel, EventModel, Phase, WaiterModel};
use crate::span::Span;
use vstd::prelude::*;

verus! {

/// What the host reports to a waiter.
#[derive(Clone, Copy, Debug, PartialEq, Eq)]
pub enum Event {
    /// The background work began to run, `elapsed` after the invocation
    /// was scheduled.
    Started { elapsed: Span },
    /// The sleep is over; `cancelled` is the value read from the flag.
    Woke { cancelled: bool },
}

impl View for Event {
    type V = EventModel;

    open spec fn view(&self) -> EventModel {
        match *self {
            Event::Started { elapsed } => EventModel::Started { elapsed: elapsed@ },
            Event::Woke { cancelled } => EventModel::Woke { cancelled },
        }
    }
}

/// What a waiter asks of the host.
#[derive(Clone, Copy, Debug, PartialEq, Eq)]
pub enum Action {
    /// Block for `remaining`, then report `Event::Woke`.
    Sleep { remaining: Span },
    /// Run the callback once, on a context of its own.
    Dispatch,
    /// Finish without running the callback.
    Exit,
    /// The event does not apply in this phase; do nothing.
    Ignore,
}

impl View for Action {
    type V = ActionModel;

    open spec fn view(&self) -> ActionModel {
        match *self {
            Action::Sleep { remaining } => ActionModel::Sleep { remaining: remaining@ },
            Action::Dispatch => ActionModel::Dispatch,
            Action::Exit => ActionModel::Exit,
            Action::Ignore => ActionModel::Ignore,
        }
    }
}

/// The decisions of one background waiter.
///
/// The host owns the thread, the clock and the flag; it reports what
/// happened with `step` and carries out the action it gets back.
#[derive(Clone, Copy, Debug, PartialEq, Eq)]
pub struct Waiter {
    pub wait: Span,
    pub phase: Phase,
}

impl View for Waiter {
    type V = WaiterModel;

    open spec fn view(&self) -> WaiterModel {
        WaiterModel { wait: self.wait@, phase: self.phase }
    }
}

impl Waiter {
    /// A waiter for a callback that is due `wait` after it was scheduled.
    pub fn new(wait: Span) -> (w: Waiter)
        ensures
            w@ == WaiterModel::new(wait@),
            w.wait == wait,
    {
        Waiter { wait, phase: Phase::Armed }
    }

    /// Takes `event` into account and says what the host has to do next.
    pub fn step(&mut self, event: Event) -> (action: Action)
        ensures
            final(self)@ == old(self)@.next(event@),
            action@ == old(self)@.action(event@),
            final(self).wait == old(self).wait,
    {
        match (self.phase, event) {
            (Phase::Armed, Event::Started { elapsed }) => {
                self.phase = Phase::Sleeping;
                Action::Sleep { remaining: self.wait.saturating_sub(elapsed) }
            },
            (Phase::Sleeping, Event::Woke { cancelled }) => {
                if cancelled {
                    self.phase = Phase::Suppressed;
                    Action::Exit
                } else {
                    self.phase = Phase::Fired;
                    Action::Dispatch
                }
            },
            _ => Action::Ignore,
        }
    }

    /// Reads `flag` now that the sleep is over and takes the matching
    /// `Event::Woke` into account. Which value the read yields is up to the
    /// other holders of the flag; the waiter behaves as `step` says for the
    /// value that was read.
    pub fn wake(&mut self, flag: &CancelFlag) -> (action: Action)
        ensures
            ({
                let seen = EventModel::Woke { cancelled: true };
                &&& final(self)@ == old(self)@.next(seen)
                &&& action@ == old(self)@.action(seen)
            }) || ({
                let unseen = EventModel::Woke { cancelled: false };
                &&& final(self)@ == old(self)@.next(unseen)
                &&& action@ == old(self)@.action(unseen)
            }),
            final(self).wait == old(self).wait,
    {
        let cancelled = flag.is_cancelled();
        self.step(Event::Woke { cancelled })
    }
}

} // verus!
