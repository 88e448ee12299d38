use vstd::prelude::*;

verus! {

/// A command from the debug console, already parsed.
#[derive(Debug, Clone, Copy, PartialEq, Eq, Structural)]
pub enum DebugCommand {
    /// Execute exactly one instruction.
    Step,
    /// Stop executing until told to continue.
    Pause,
    /// Resume executing at the paced rate.
    Continue,
    /// Toggle a breakpoint at an address.
    Breakpoint { addr: u16 },
    /// Move the program counter.
    SetPc { addr: u16 },
    /// Restore the program counter and stack pointer and clear the screen.
    Reset,
    /// Change the rate in instructions per second.
    IPS { ips: u32 },
}

} // verus!
