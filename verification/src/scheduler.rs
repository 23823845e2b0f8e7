//! The scheduler: the order in which a running machine executes
//! instructions, takes key events, presents its display and serves its
//! timers.
//!
//! The scheduler decides and does nothing itself. Its caller asks it for the
//! next action, performs the action, and asks again. One round of the
//! machine is: execute one instruction, unless a key wait is in progress;
//! poll the key pad until the next timer tick is due; present the display if
//! it changed; serve the timers.

use vstd::prelude::*;
use crate::engine::Engine;
use crate::state::State;
use crate::state::TICK_RATE;

verus! {

/// The part of a round that comes next.
#[derive(Clone, Copy, Debug, PartialEq, Eq, Structural)]
pub enum Phase {
    /// The start of a round: the next instruction, if the machine executes
    /// instructions.
    Execute,
    /// The instruction itself, after the rest of its cycle has been waited
    /// for.
    Step,
    /// The key pad.
    Poll,
    /// The display.
    Present,
    /// The timers.
    Timers,
}

/// What the caller is to do next.
#[derive(Clone, Copy, Debug, PartialEq, Eq, Structural)]
pub enum Action {
    /// Stop: the machine does not run any more.
    Halt,
    /// Wait for the given number of nanoseconds.
    Pace(u128),
    /// Execute one instruction.
    Step,
    /// Poll the key pad for at most the given number of nanoseconds and hand
    /// the events to the machine.
    Poll(u128),
    /// Present the display and tell the machine that it was presented.
    Present,
    /// Let the timers tick.
    Tick,
}

/// The scheduler's state: the part of the round that comes next, and the
/// time at which the last instruction's cycle began, in nanoseconds.
#[derive(Clone, Copy, Debug, PartialEq, Eq, Structural)]
pub struct Scheduler {
    /// The part of the round that comes next.
    pub phase: Phase,
    /// The time at which the last instruction's cycle began.
    pub cycle_at: u128,
}

/// A decision: the action, and the scheduler's state after it.
pub struct Plan {
    /// What the caller is to do.
    pub action: Action,
    /// The scheduler afterwards.
    pub next: Scheduler,
}

impl Scheduler {
    /// The time since the last instruction's cycle began at time `now`.
    pub open spec fn since_cycle(self, now: u128) -> int {
        if now >= self.cycle_at {
            now - self.cycle_at
        } else {
            0
        }
    }

    /// The time that a poll at `now` may take: what is left until the next
    /// timer tick is due.
    pub open spec fn poll_time(s: State, now: u128) -> u128 {
        if s.tick_due(now) {
            0
        } else {
            (TICK_RATE - s.since_tick(now)) as u128
        }
    }

    /// The decision at the key pad: poll until the next tick is due; the
    /// display comes next.
    pub open spec fn plan_poll(self, s: State, now: u128) -> Plan {
        Plan {
            action: Action::Poll(Scheduler::poll_time(s, now)),
            next: Scheduler { phase: Phase::Present, ..self },
        }
    }

    /// The decision at the instruction: if the machine executes
    /// instructions, a new cycle begins now and one instruction is executed;
    /// else the key pad is next.
    pub open spec fn plan_step(self, s: State, now: u128) -> Plan {
        if s.can_step() {
            Plan { action: Action::Step, next: Scheduler { phase: Phase::Poll, cycle_at: now } }
        } else {
            self.plan_poll(s, now)
        }
    }

    /// The decision at the start of a round: a machine that does not run
    /// halts. One that executes instructions waits for the rest of the
    /// current cycle, if there is a rest, and executes one. During a key
    /// wait the key pad is next.
    pub open spec fn plan_execute(self, s: State, now: u128) -> Plan {
        if !s.running {
            Plan { action: Action::Halt, next: Scheduler { phase: Phase::Execute, ..self } }
        } else if s.can_step() && self.since_cycle(now) <= s.cycle {
            Plan {
                action: Action::Pace((s.cycle - self.since_cycle(now)) as u128),
                next: Scheduler { phase: Phase::Step, ..self },
            }
        } else {
            self.plan_step(s, now)
        }
    }

    /// The decision at the timers: a tick if one is due, and then the next
    /// round; else the next round at once.
    pub open spec fn plan_timers(self, s: State, now: u128) -> Plan {
        if s.tick_due(now) {
            Plan { action: Action::Tick, next: Scheduler { phase: Phase::Execute, ..self } }
        } else {
            self.plan_execute(s, now)
        }
    }

    /// The decision at the display: it is presented if it changed; else the
    /// timers are next.
    pub open spec fn plan_present(self, s: State, now: u128) -> Plan {
        if s.dirty {
            Plan { action: Action::Present, next: Scheduler { phase: Phase::Timers, ..self } }
        } else {
            self.plan_timers(s, now)
        }
    }

    /// The decision for a machine in state `s` at time `now`.
    pub open spec fn plan(self, s: State, now: u128) -> Plan {
        match self.phase {
            Phase::Execute => self.plan_execute(s, now),
            Phase::Step => self.plan_step(s, now),
            Phase::Poll => self.plan_poll(s, now),
            Phase::Present => self.plan_present(s, now),
            Phase::Timers => self.plan_timers(s, now),
        }
    }

    /// Builds a scheduler at the start of a round, at time `now`.
    pub fn new(now: u128) -> (scheduler: Self)
        ensures
            scheduler == (Scheduler { phase: Phase::Execute, cycle_at: now }),
    {
        Scheduler { phase: Phase::Execute, cycle_at: now }
    }

    /// Decides at the key pad.
    fn next_poll(&mut self, engine: &Engine, now: u128) -> (action: Action)
        ensures
            (Plan { action, next: *final(self) }) == old(self).plan_poll(engine@, now),
    {
        self.phase = Phase::Present;
        Action::Poll(engine.next_tick_left(now))
    }

    /// Decides at the instruction.
    fn next_step(&mut self, engine: &Engine, now: u128) -> (action: Action)
        ensures
            (Plan { action, next: *final(self) }) == old(self).plan_step(engine@, now),
    {
        if engine.can_step() {
            self.phase = Phase::Poll;
            self.cycle_at = now;
            Action::Step
        } else {
            self.next_poll(engine, now)
        }
    }

    /// Decides at the start of a round.
    fn next_execute(&mut self, engine: &Engine, now: u128) -> (action: Action)
        ensures
            (Plan { action, next: *final(self) }) == old(self).plan_execute(engine@, now),
    {
        if !engine.is_running() {
            self.phase = Phase::Execute;
            return Action::Halt;
        }
        let elapsed = if now >= self.cycle_at {
            now - self.cycle_at
        } else {
            0
        };
        if engine.can_step() && elapsed <= engine.cycle() {
            self.phase = Phase::Step;
            Action::Pace(engine.cycle_slack(elapsed))
        } else {
            self.next_step(engine, now)
        }
    }

    /// Decides at the timers.
    fn next_timers(&mut self, engine: &Engine, now: u128) -> (action: Action)
        ensures
            (Plan { action, next: *final(self) }) == old(self).plan_timers(engine@, now),
    {
        if engine.tick_due(now) {
            self.phase = Phase::Execute;
            Action::Tick
        } else {
            self.next_execute(engine, now)
        }
    }

    /// Decides at the display.
    fn next_present(&mut self, engine: &Engine, now: u128) -> (action: Action)
        ensures
            (Plan { action, next: *final(self) }) == old(self).plan_present(engine@, now),
    {
        if engine.is_display_dirty() {
            self.phase = Phase::Timers;
            Action::Present
        } else {
            self.next_timers(engine, now)
        }
    }

    /// Decides what the caller is to do next for the machine `engine` at
    /// time `now`, and moves on to the part of the round that follows.
    pub fn next(&mut self, engine: &Engine, now: u128) -> (action: Action)
        ensures
            (Plan { action, next: *final(self) }) == old(self).plan(engine@, now),
    {
        match self.phase {
            Phase::Execute => self.next_execute(engine, now),
            Phase::Step => self.next_step(engine, now),
            Phase::Poll => self.next_poll(engine, now),
            Phase::Present => self.next_present(engine, now),
            Phase::Timers => self.next_timers(engine, now),
        }
    }
}

/// The scheduler never has a machine execute an instruction, nor wait for
/// one, while a key wait is in progress.
pub proof fn law_no_step_during_key_wait(scheduler: Scheduler, s: State, now: u128)
    requires
        !s.can_step(),
    ensures
        !(scheduler.plan(s, now).action is Step),
        !(scheduler.plan(s, now).action is Pace),
{
}

/// The scheduler halts a machine only if it does not run, and a machine
/// that does not run is halted at the start of the next round.
pub proof fn law_halt_when_stopped(scheduler: Scheduler, s: State, now: u128)
    ensures
        scheduler.plan(s, now).action is Halt ==> !s.running,
        scheduler.phase is Execute && !s.running ==> scheduler.plan(s, now).action is Halt,
{
}

/// A poll never outlasts the tick interval: it ends when the next tick is
/// due, and takes no time if one is due already.
pub proof fn law_poll_ends_with_the_tick(scheduler: Scheduler, s: State, now: u128, timeout: u128)
    requires
        scheduler.plan(s, now).action == Action::Poll(timeout),
    ensures
        timeout <= TICK_RATE,
        s.tick_due(now) ==> timeout == 0,
        !s.tick_due(now) ==> s.since_tick(now) + timeout == TICK_RATE,
{
}

/// The display is presented only if it changed.
pub proof fn law_present_only_when_dirty(scheduler: Scheduler, s: State, now: u128)
    requires
        scheduler.plan(s, now).action is Present,
    ensures
        s.dirty,
{
}

/// The timers tick at their own pace: when the round reaches the timers and
/// a tick is due, the tick is next, whatever the machine's cycle time and
/// whether or not it executes instructions.
pub proof fn law_tick_when_due(scheduler: Scheduler, s: State, now: u128)
    requires
        scheduler.phase is Timers || (scheduler.phase is Present && !s.dirty),
        s.tick_due(now),
    ensures
        scheduler.plan(s, now).action is Tick,
{
}

/// A tick is planned only when it is due.
pub proof fn law_tick_only_when_due(scheduler: Scheduler, s: State, now: u128)
    requires
        scheduler.plan(s, now).action is Tick,
    ensures
        s.tick_due(now),
{
}

/// A wait before an instruction never outlasts the machine's cycle time.
pub proof fn law_pace_within_cycle(scheduler: Scheduler, s: State, now: u128, pause: u128)
    requires
        scheduler.plan(s, now).action == Action::Pace(pause),
    ensures
        pause <= s.cycle,
        pause + scheduler.since_cycle(now) == s.cycle,
{
}

/// The place of a phase in the round.
pub open spec fn place_in_round(phase: Phase) -> int {
    match phase {
        Phase::Execute => 0,
        Phase::Step => 1,
        Phase::Poll => 2,
        Phase::Present => 3,
        Phase::Timers => 4,
    }
}

/// No round ends with a due tick unserved: a decision that begins a new
/// round is the tick itself, or was taken when no tick was due. So a machine
/// that runs gets its ticks however many instructions it executes, and also
/// when it executes none.
pub proof fn law_no_round_skips_a_due_tick(scheduler: Scheduler, s: State, now: u128)
    requires
        !(scheduler.plan(s, now).action is Halt),
        place_in_round(scheduler.plan(s, now).next.phase) <= place_in_round(scheduler.phase),
    ensures
        scheduler.plan(s, now).action is Tick || !s.tick_due(now),
{
}

/// The round goes on: each decision other than a halt moves to a later part
/// of the round, or begins the next round.
pub proof fn law_round_goes_on(scheduler: Scheduler, s: State, now: u128)
    ensures
        ({
            let plan = scheduler.plan(s, now);
            match plan.action {
                Action::Halt => plan.next.phase is Execute,
                Action::Pace(_) => plan.next.phase is Step,
                Action::Step => plan.next.phase is Poll && plan.next.cycle_at == now,
                Action::Poll(_) => plan.next.phase is Present,
                Action::Present => plan.next.phase is Timers,
                Action::Tick => plan.next.phase is Execute,
            }
        }),
{
}

} // verus!
