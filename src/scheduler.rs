use crate::cpu::{Cpu, CpuState};
use crate::debug::DebugCommand;
use crate::display::Display;
use crate::memory::{loaded, Memory, MEM_SIZE, PROGRAM_START};
use std::collections::HashSet;
use vstd::prelude::*;

verus! {

broadcast use vstd::std_specs::hash::group_hash_axioms;

/// Rate in instructions per second that a new emulator starts with.
pub const DEFAULT_IPS: u32 = 10;

/// A message to the scheduler.
#[derive(Debug, Clone, Copy, PartialEq, Eq, Structural)]
pub enum EmulatorCommand {
    /// End the run loop.
    Stop,
    /// Apply a debug command.
    DebugCommand(DebugCommand),
}

/// Lifecycle of the run loop.
#[derive(Debug, Clone, Copy, PartialEq, Eq, Structural)]
pub enum EmulatorState {
    Running,
    Paused,
    Halted,
}

/// What the run loop does once a tick's command has been applied.
#[derive(Debug, Clone, Copy, PartialEq, Eq, Structural)]
pub enum TickOutcome {
    /// Leave the loop.
    Stop,
    /// Rebuild the pacing interval at the new rate and start the next tick
    /// at once.
    Rate(u32),
    /// Nothing ran: start the next tick at once.
    Skip,
    /// The processor was stepped: wait for the next paced tick.
    Ran,
}

/// The scheduler's state as mathematical values.
pub struct SchedulerState {
    pub ips: u32,
    pub state: EmulatorState,
    pub cpu: CpuState,
    pub breakpoints: Set<u16>,
}

/// The breakpoint set with `addr` flipped: removed if present, else added.
pub open spec fn toggle(b: Set<u16>, addr: u16) -> Set<u16> {
    if b.contains(addr) {
        b.remove(addr)
    } else {
        b.insert(addr)
    }
}

impl SchedulerState {
    /// The state on entry to a tick: paused if the program counter is on a
    /// breakpoint.
    pub open spec fn enter(self) -> SchedulerState {
        if self.breakpoints.contains(self.cpu.pc) {
            SchedulerState { state: EmulatorState::Paused, ..self }
        } else {
            self
        }
    }

    /// The state after a debug command, and whether the tick goes on to step
    /// the processor.
    pub open spec fn handle(self, cmd: DebugCommand) -> (SchedulerState, bool) {
        match cmd {
            DebugCommand::Step => (self, true),
            DebugCommand::Pause => (SchedulerState { state: EmulatorState::Paused, ..self }, false),
            DebugCommand::Continue => (
                SchedulerState { state: EmulatorState::Running, ..self },
                true,
            ),
            DebugCommand::Breakpoint { addr } => (
                SchedulerState { breakpoints: toggle(self.breakpoints, addr), ..self },
                false,
            ),
            DebugCommand::Reset => {
                let cpu = CpuState {
                    pc: PROGRAM_START,
                    sp: crate::cpu::STACK_START,
                    pixels: Seq::new(crate::display::DISPLAY_PIXELS as nat, |k: int| false),
                    ..self.cpu
                };
                (SchedulerState { cpu, state: EmulatorState::Paused, ..self }, false)
            },
            DebugCommand::SetPc { addr } => (
                SchedulerState { cpu: CpuState { pc: addr, ..self.cpu }, ..self },
                false,
            ),
            DebugCommand::IPS { .. } => (self, false),
        }
    }

    /// The state after one processor step. An instruction that would reach
    /// outside the address space is a fault: the processor is left as it is
    /// and the machine halts.
    pub open spec fn run_step(self) -> SchedulerState {
        if self.cpu.can_step() {
            let (cpu, halted) = self.cpu.step();
            SchedulerState {
                cpu,
                state: if halted { EmulatorState::Halted } else { self.state },
                ..self
            }
        } else {
            SchedulerState { state: EmulatorState::Halted, ..self }
        }
    }

    /// The rest of a tick once its command, if any, has been received.
    pub open spec fn finish(self, cmd: Option<EmulatorCommand>) -> (SchedulerState, TickOutcome) {
        match cmd {
            Some(EmulatorCommand::Stop) => (self, TickOutcome::Stop),
            Some(EmulatorCommand::DebugCommand(DebugCommand::IPS { ips })) => (
                SchedulerState { ips, ..self },
                TickOutcome::Rate(ips),
            ),
            Some(EmulatorCommand::DebugCommand(c)) => {
                let (t, go) = self.handle(c);
                if go {
                    (t.run_step(), TickOutcome::Ran)
                } else {
                    (t, TickOutcome::Skip)
                }
            },
            None => (self.run_step(), TickOutcome::Ran),
        }
    }
}

/// The machine the run loop drives: the processor with its memory and
/// display, the run state, the rate and the breakpoints. The loop itself,
/// with its command queue and pacing, belongs to the caller: each tick it
/// calls `begin_tick`, receives a command (blocking when told to), and hands
/// it to `finish_tick`.
pub struct Scheduler {
    pub ips: u32,
    pub state: EmulatorState,
    pub cpu: Cpu,
    pub breakpoints: HashSet<u16>,
}

impl View for Scheduler {
    type V = SchedulerState;

    open spec fn view(&self) -> SchedulerState {
        SchedulerState {
            ips: self.ips,
            state: self.state,
            cpu: self.cpu@,
            breakpoints: self.breakpoints@,
        }
    }
}

impl Scheduler {
    /// A paused machine at the default rate, with `rom` loaded at the program
    /// start and no breakpoints.
    pub fn new(rom: &[u8]) -> (r: Scheduler)
        requires
            rom@.len() <= MEM_SIZE - PROGRAM_START as int,
        ensures
            r.ips == DEFAULT_IPS,
            r.state == EmulatorState::Paused,
            r.breakpoints@ == Set::<u16>::empty(),
            r.cpu@ == CpuState::initial(
                loaded(rom@),
                Seq::new(crate::display::DISPLAY_PIXELS as nat, |k: int| false),
            ),
    {
        Scheduler {
            ips: DEFAULT_IPS,
            state: EmulatorState::Paused,
            cpu: Cpu::new(Memory::init(rom), Display::default()),
            breakpoints: HashSet::new(),
        }
    }

    /// Enters a tick: pauses if the program counter is on a breakpoint.
    /// Returns whether the tick's command is to be awaited (blocking) rather
    /// than polled, which is the case unless the machine is running.
    pub fn begin_tick(&mut self) -> (blocking: bool)
        ensures
            final(self)@ == old(self)@.enter(),
            blocking == (final(self).state != EmulatorState::Running),
    {
        if self.breakpoints.contains(&self.cpu.pc) {
            self.state = EmulatorState::Paused;
        }
        self.state != EmulatorState::Running
    }

    /// Applies a debug command; true iff the tick goes on to step.
    pub fn handle_debug_cmd(&mut self, cmd: DebugCommand) -> (go: bool)
        ensures
            (final(self)@, go) == old(self)@.handle(cmd),
    {
        match cmd {
            DebugCommand::Step => true,
            DebugCommand::Pause => {
                self.state = EmulatorState::Paused;
                false
            },
            DebugCommand::Continue => {
                self.state = EmulatorState::Running;
                true
            },
            DebugCommand::Breakpoint { addr } => {
                if self.breakpoints.contains(&addr) {
                    self.breakpoints.remove(&addr);
                } else {
                    self.breakpoints.insert(addr);
                }
                false
            },
            DebugCommand::Reset => {
                self.cpu.reset();
                self.state = EmulatorState::Paused;
                false
            },
            DebugCommand::SetPc { addr } => {
                self.cpu.pc = addr;
                false
            },
            DebugCommand::IPS { .. } => false,
        }
    }

    /// Steps the processor; halts on the halt signal or on a fault.
    fn run_step(&mut self)
        ensures
            final(self)@ == old(self)@.run_step(),
    {
        if !self.cpu.can_step() {
            self.state = EmulatorState::Halted;
        } else if self.cpu.step() {
            self.state = EmulatorState::Halted;
        }
    }

    /// Finishes a tick with the command received, if any: applies it and,
    /// unless it stops the loop, changes the rate or does not run, steps the
    /// processor once.
    pub fn finish_tick(&mut self, cmd: Option<EmulatorCommand>) -> (outcome: TickOutcome)
        ensures
            (final(self)@, outcome) == old(self)@.finish(cmd),
    {
        match cmd {
            Some(EmulatorCommand::Stop) => TickOutcome::Stop,
            Some(EmulatorCommand::DebugCommand(DebugCommand::IPS { ips })) => {
                self.ips = ips;
                TickOutcome::Rate(ips)
            },
            Some(EmulatorCommand::DebugCommand(c)) => {
                if self.handle_debug_cmd(c) {
                    self.run_step();
                    TickOutcome::Ran
                } else {
                    TickOutcome::Skip
                }
            },
            None => {
                self.run_step();
                TickOutcome::Ran
            },
        }
    }
}

/// Toggling a breakpoint twice leaves the breakpoint set as it was.
pub proof fn lemma_toggle_twice(s: SchedulerState, addr: u16)
    ensures
        toggle(toggle(s.breakpoints, addr), addr) == s.breakpoints,
        s.handle(DebugCommand::Breakpoint { addr }).0.handle(
            DebugCommand::Breakpoint { addr },
        ).0 == s,
{
    assert(toggle(toggle(s.breakpoints, addr), addr) =~= s.breakpoints);
}

/// On entry to a tick a running machine pauses exactly when its program
/// counter is on a breakpoint; nothing else changes.
pub proof fn lemma_breakpoint_pauses(s: SchedulerState)
    requires
        s.state == EmulatorState::Running,
    ensures
        (s.enter().state == EmulatorState::Paused) == s.breakpoints.contains(s.cpu.pc),
        s.enter().state != EmulatorState::Paused ==> s.enter().state == EmulatorState::Running,
        s.enter().cpu == s.cpu,
        s.enter().breakpoints == s.breakpoints,
{
}

} // verus!

