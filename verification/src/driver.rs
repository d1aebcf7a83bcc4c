//! The driver loop as a state machine: when a tick may start, when its frame
//! is shown, and when the loop ends.
//!
//! The machine decides and the caller acts. The caller reports what happened
//! as an event, the machine answers with the one action that is now due. A
//! request to stop is honoured between ticks only: a tick that has started is
//! finished and its frame is shown before the loop ends.

use vstd::prelude::*;

verus! {

/// Where the loop stands.
#[derive(Clone, Copy, PartialEq, Eq, Structural, Debug)]
pub enum Phase {
    /// Between ticks, waiting for the next one to fall due.
    Idle,
    /// A tick is in progress.
    Ticking,
    /// The loop has ended. No tick runs any more.
    Stopped,
}

/// What the caller reports to the machine.
#[derive(Clone, Copy, PartialEq, Eq, Structural, Debug)]
pub enum Event {
    /// The next tick is due.
    TickDue,
    /// The kernel has finished every column and the buffers are exchanged.
    TickFinished,
    /// The loop is asked to end.
    StopRequested,
}

/// What the caller is to do next.
#[derive(Clone, Copy, PartialEq, Eq, Structural, Debug)]
pub enum Action {
    /// Nothing is due.
    Nothing,
    /// Run one tick of the grid, then report `TickFinished`.
    RunTick,
    /// Hand the frame of the finished tick to the sink.
    Present,
    /// Release what the loop holds: it has ended.
    Release,
}

/// The state of the driver loop.
#[derive(Clone, Copy, PartialEq, Eq, Structural, Debug)]
pub struct Driver {
    /// Where the loop stands.
    pub phase: Phase,
    /// A stop was requested while a tick was in progress and has not been
    /// honoured yet.
    pub stop_pending: bool,
}

impl Driver {
    /// The state that follows on an event, and the action that is due.
    pub open spec fn next(self, event: Event) -> (Driver, Action) {
        match self.phase {
            Phase::Stopped => (self, Action::Nothing),
            Phase::Ticking => match event {
                Event::TickDue => (self, Action::Nothing),
                Event::TickFinished => (Driver { phase: Phase::Idle, ..self }, Action::Present),
                Event::StopRequested => (Driver { stop_pending: true, ..self }, Action::Nothing),
            },
            Phase::Idle => if self.stop_pending || event == Event::StopRequested {
                (Driver { phase: Phase::Stopped, stop_pending: false }, Action::Release)
            } else if event == Event::TickDue {
                (Driver { phase: Phase::Ticking, ..self }, Action::RunTick)
            } else {
                (self, Action::Nothing)
            },
        }
    }

    /// The state after a run of events.
    pub open spec fn after(self, events: Seq<Event>) -> Driver
        decreases events.len(),
    {
        if events.len() == 0 {
            self
        } else {
            self.after(events.drop_last()).next(events.last()).0
        }
    }

    /// The action that the last of a run of events brings.
    pub open spec fn last_action(self, events: Seq<Event>) -> Action
        recommends
            events.len() > 0,
    {
        self.after(events.drop_last()).next(events.last()).1
    }

    /// The loop is ending: it has stopped, or it will once the tick in
    /// progress is done.
    pub open spec fn halting(self) -> bool {
        self.phase == Phase::Stopped || self.stop_pending
    }

    /// A driver between ticks, with no stop requested.
    pub fn new() -> (d: Driver)
        ensures
            d == (Driver { phase: Phase::Idle, stop_pending: false }),
    {
        Driver { phase: Phase::Idle, stop_pending: false }
    }

    /// Where the loop stands.
    pub fn phase(&self) -> (p: Phase)
        ensures
            p == self.phase,
    {
        self.phase
    }

    /// Tells whether the loop has ended.
    pub fn is_stopped(&self) -> (r: bool)
        ensures
            r == (self.phase == Phase::Stopped),
    {
        self.phase == Phase::Stopped
    }

    /// Takes an event, moves to the state that follows and returns the action
    /// that is due.
    pub fn step(&mut self, event: Event) -> (action: Action)
        ensures
            (*final(self), action) == old(self).next(event),
    {
        match self.phase {
            Phase::Stopped => Action::Nothing,
            Phase::Ticking => match event {
                Event::TickDue => Action::Nothing,
                Event::TickFinished => {
                    self.phase = Phase::Idle;
                    Action::Present
                },
                Event::StopRequested => {
                    self.stop_pending = true;
                    Action::Nothing
                },
            },
            Phase::Idle => {
                if self.stop_pending || event == Event::StopRequested {
                    self.phase = Phase::Stopped;
                    self.stop_pending = false;
                    Action::Release
                } else if event == Event::TickDue {
                    self.phase = Phase::Ticking;
                    Action::RunTick
                } else {
                    Action::Nothing
                }
            },
        }
    }

    /// A stopped loop stays stopped and asks for nothing.
    pub proof fn lemma_stopped_for_good(self, event: Event)
        requires
            self.phase == Phase::Stopped,
        ensures
            self.next(event) == (self, Action::Nothing),
    {
    }

    /// A tick starts only between ticks, and a frame is shown only when a
    /// tick in progress has finished: no frame of an unfinished tick reaches
    /// the sink.
    pub proof fn lemma_whole_ticks_only(self, event: Event)
        ensures
            self.next(event).1 == Action::RunTick ==> self.phase == Phase::Idle && self.next(
                event,
            ).0.phase == Phase::Ticking,
            self.next(event).1 == Action::Present <==> self.phase == Phase::Ticking && event
                == Event::TickFinished,
            self.phase == Phase::Ticking ==> self.next(event).0.phase != Phase::Stopped,
    {
    }

    /// A request to stop sets the loop on its way to the end, and a loop on
    /// that way stays on it and starts no tick.
    pub proof fn lemma_halting_step(self, event: Event)
        ensures
            self.next(Event::StopRequested).0.halting(),
            self.halting() ==> self.next(event).0.halting() && self.next(event).1
                != Action::RunTick,
    {
    }

    /// Once a stop is requested no tick starts any more, whatever events
    /// follow.
    pub proof fn lemma_no_tick_after_stop(self, events: Seq<Event>, i: int)
        requires
            0 <= i < events.len() - 1,
            events[i] == Event::StopRequested,
        ensures
            self.after(events.drop_last()).halting(),
            self.last_action(events) != Action::RunTick,
        decreases events.len(),
    {
        let earlier = events.drop_last();
        if i == earlier.len() - 1 {
            assert(earlier.last() == Event::StopRequested);
            self.after(earlier.drop_last()).lemma_halting_step(Event::StopRequested);
        } else {
            self.lemma_no_tick_after_stop(earlier, i);
            self.after(earlier.drop_last()).lemma_halting_step(earlier.last());
        }
        self.after(earlier).lemma_halting_step(events.last());
    }
}

} // verus!
