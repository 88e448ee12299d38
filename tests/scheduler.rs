use c8rs::memory::PROGRAM_START;
use c8rs::Register::{V0, V1, VF};
use c8rs::{Cpu, DebugCommand, Display, EmulatorCommand, EmulatorState, Memory, Scheduler, TickOutcome};

fn debug(cmd: DebugCommand) -> Option<EmulatorCommand> {
    Some(EmulatorCommand::DebugCommand(cmd))
}

#[test]
fn add_program_runs_to_eight() {
    let mut cpu = Cpu::new(Memory::init(&[0x60, 0x05, 0x61, 0x03, 0x80, 0x14]), Display::default());
    for _ in 0..3 {
        assert!(cpu.can_step());
        assert!(!cpu.step());
    }
    assert_eq!(cpu.registers[V0], 8);
    assert_eq!(cpu.registers[V1], 3);
    assert_eq!(cpu.registers[VF], 0);
    assert_eq!(cpu.pc, 0x206);
}

#[test]
fn add_program_runs_under_step_commands() {
    let mut s = Scheduler::new(&[0x60, 0x05, 0x61, 0x03, 0x80, 0x14]);
    for _ in 0..3 {
        assert!(s.begin_tick());
        assert_eq!(s.finish_tick(debug(DebugCommand::Step)), TickOutcome::Ran);
        assert_eq!(s.state, EmulatorState::Paused);
    }
    assert_eq!(s.cpu.registers[V0], 8);
    assert_eq!(s.cpu.registers[VF], 0);
    assert_eq!(s.cpu.pc, 0x206);
}

#[test]
fn reset_after_calls_and_jumps() {
    // call 0x206; at 0x206: I = 0x20E, draw one row at (V0, V0), jump to 0x200
    let rom = [0x22, 0x06, 0x00, 0x00, 0x00, 0x00, 0xA2, 0x0E, 0xD0, 0x01, 0x12, 0x00, 0x00, 0x00, 0xFF];
    let mut s = Scheduler::new(&rom);
    s.finish_tick(debug(DebugCommand::Continue));
    assert_eq!(s.cpu.pc, 0x206);
    for _ in 0..3 {
        assert!(!s.begin_tick());
        assert_eq!(s.finish_tick(None), TickOutcome::Ran);
    }
    assert_eq!(s.cpu.pc, 0x200);
    assert_ne!(s.cpu.sp, 0x1FE);
    assert!(s.cpu.display.get_pixels().iter().any(|p| *p));

    assert_eq!(s.finish_tick(debug(DebugCommand::Reset)), TickOutcome::Skip);
    assert_eq!(s.cpu.pc, 0x200);
    assert_eq!(s.cpu.sp, 0x1FE);
    assert!(s.cpu.display.get_pixels().iter().all(|p| !*p));
    assert_eq!(s.state, EmulatorState::Paused);
}

#[test]
fn jump_to_self_halts() {
    let mut cpu = Cpu::new(Memory::init(&[0x12, 0x00]), Display::default());
    assert!(cpu.step());
    assert_eq!(cpu.pc, 0x200);

    let mut s = Scheduler::new(&[0x12, 0x02, 0x12, 0x02]);
    s.finish_tick(debug(DebugCommand::Continue));
    assert_eq!(s.cpu.pc, 0x202);
    assert_eq!(s.state, EmulatorState::Running);
    assert!(!s.begin_tick());
    assert_eq!(s.finish_tick(None), TickOutcome::Ran);
    assert_eq!(s.state, EmulatorState::Halted);
    assert_eq!(s.cpu.pc, 0x202);
    assert!(s.begin_tick());
}

#[test]
fn new_scheduler_is_paused() {
    let s = Scheduler::new(&[]);
    assert_eq!(s.ips, 10);
    assert_eq!(s.state, EmulatorState::Paused);
    assert!(s.breakpoints.is_empty());
    assert_eq!(s.cpu.pc, PROGRAM_START);
    assert_eq!(s.cpu.sp, 0x1FE);
}

#[test]
fn breakpoint_toggles() {
    let mut s = Scheduler::new(&[]);
    assert_eq!(s.finish_tick(debug(DebugCommand::Breakpoint { addr: 0x204 })), TickOutcome::Skip);
    assert!(s.breakpoints.contains(&0x204));
    assert_eq!(s.finish_tick(debug(DebugCommand::Breakpoint { addr: 0x204 })), TickOutcome::Skip);
    assert!(s.breakpoints.is_empty());
}

#[test]
fn breakpoint_pauses_on_tick_entry() {
    let mut s = Scheduler::new(&[0x60, 0x01, 0x60, 0x02, 0x60, 0x03]);
    s.finish_tick(debug(DebugCommand::Breakpoint { addr: 0x204 }));
    s.finish_tick(debug(DebugCommand::Continue));
    assert_eq!(s.cpu.pc, 0x202);
    assert!(!s.begin_tick());
    assert_eq!(s.state, EmulatorState::Running);
    s.finish_tick(None);
    assert_eq!(s.cpu.pc, 0x204);
    assert!(s.begin_tick());
    assert_eq!(s.state, EmulatorState::Paused);
}

#[test]
fn pause_and_rate_commands() {
    let mut s = Scheduler::new(&[]);
    s.finish_tick(debug(DebugCommand::Continue));
    assert_eq!(s.finish_tick(debug(DebugCommand::Pause)), TickOutcome::Skip);
    assert_eq!(s.state, EmulatorState::Paused);
    assert_eq!(s.finish_tick(debug(DebugCommand::IPS { ips: 500 })), TickOutcome::Rate(500));
    assert_eq!(s.ips, 500);
    assert_eq!(s.finish_tick(Some(EmulatorCommand::Stop)), TickOutcome::Stop);
}

#[test]
fn set_pc_moves_the_counter() {
    let mut s = Scheduler::new(&[]);
    assert_eq!(s.finish_tick(debug(DebugCommand::SetPc { addr: 0x300 })), TickOutcome::Skip);
    assert_eq!(s.cpu.pc, 0x300);
}

#[test]
fn fetch_outside_memory_halts() {
    let mut s = Scheduler::new(&[]);
    s.finish_tick(debug(DebugCommand::SetPc { addr: 0xFFF }));
    assert!(!s.cpu.can_step());
    assert_eq!(s.finish_tick(debug(DebugCommand::Step)), TickOutcome::Ran);
    assert_eq!(s.state, EmulatorState::Halted);
    assert_eq!(s.cpu.pc, 0xFFF);
}
