use crate::cpu::{wrap16, CpuState, FLAG};
use crate::instructions::{Instruction, Register};
use crate::memory::MEM_SIZE;
use vstd::prelude::*;

verus! {

/// A jump to its own address halts and changes nothing; a jump elsewhere
/// continues at the target.
pub proof fn lemma_jmp(s: CpuState, addr: u16)
    ensures
        addr == s.pc ==> s.execute(Instruction::Jmp { addr }) == (s, None::<u16>),
        addr != s.pc ==> s.execute(Instruction::Jmp { addr }) == (
            CpuState { pc: addr, ..s },
            Some(addr),
        ),
{
}

/// Adding registers wraps modulo 256 and sets the flag exactly on overflow.
pub proof fn lemma_add_reg(s: CpuState, regx: Register, regy: Register)
    requires
        s.registers.len() == 16,
        regx != Register::VF,
    ensures
        ({
            let (a, b) = (s.reg(regx) as int, s.reg(regy) as int);
            let (t, next) = s.execute(Instruction::AddReg { regx, regy });
            &&& t.reg(regx) == (a + b) % 256
            &&& t.registers[FLAG as int] == if a + b >= 256 { 1u8 } else { 0u8 }
            &&& next == Some(wrap16(s.pc + 2))
        }),
{
}

/// Subtracting registers wraps modulo 256 and sets the flag exactly when the
/// minuend is strictly greater.
pub proof fn lemma_sub_reg(s: CpuState, regx: Register, regy: Register)
    requires
        s.registers.len() == 16,
        regx != Register::VF,
    ensures
        ({
            let (a, b) = (s.reg(regx) as int, s.reg(regy) as int);
            let (t, next) = s.execute(Instruction::SubReg { regx, regy });
            &&& t.reg(regx) == (a - b) % 256
            &&& t.registers[FLAG as int] == if a > b { 1u8 } else { 0u8 }
            &&& next == Some(wrap16(s.pc + 2))
        }),
{
}

/// Shifting right writes the source register shifted by one into the
/// destination and its original low bit into the flag, whatever the
/// destination held before.
pub proof fn lemma_shr(s: CpuState, regx: Register, regy: Register, v: u8)
    requires
        s.registers.len() == 16,
        regx != Register::VF,
    ensures
        ({
            let b = s.reg(regy);
            let t = s.execute(Instruction::Shr { regx, regy }).0;
            &&& t.reg(regx) == b >> 1
            &&& t.registers[FLAG as int] == b & 1
            &&& regx != regy ==> s.set_reg(regx, v).execute(Instruction::Shr { regx, regy }).0 == t
        }),
{
    let b = s.reg(regy);
    assert(b >> 1 == b / 2 && b & 1 == b % 2) by (bit_vector);
    let t = s.execute(Instruction::Shr { regx, regy }).0;
    if regx != regy {
        assert(s.set_reg(regx, v).execute(Instruction::Shr { regx, regy }).0.registers
            =~= t.registers);
    }
}

/// Storing registers `V0..=Vx` writes exactly those `x + 1` values at `I`,
/// in order, and nothing else; loading them back from `I` restores the
/// registers, and storing what was just loaded leaves memory unchanged.
pub proof fn lemma_store_load_regs(s: CpuState, reg: Register)
    requires
        s.registers.len() == 16,
        s.mem.len() == MEM_SIZE,
        s.i + reg.spec_index() < MEM_SIZE,
    ensures
        ({
            let n = reg.spec_index() as int + 1;
            let stored = s.execute(Instruction::StoreRegs { reg }).0;
            &&& stored.mem.subrange(s.i as int, s.i + n) == s.registers.subrange(0, n)
            &&& forall|a: int|
                0 <= a < MEM_SIZE && !(s.i <= a < s.i + n) ==> #[trigger] stored.mem[a]
                    == s.mem[a]
            &&& stored.execute(Instruction::LoadRegs { reg }).0.registers == s.registers
            &&& s.execute(Instruction::LoadRegs { reg }).0.execute(
                Instruction::StoreRegs { reg },
            ).0.mem == s.mem
        }),
{
    let n = reg.spec_index() as int + 1;
    let stored = s.execute(Instruction::StoreRegs { reg }).0;
    assert(stored.mem.subrange(s.i as int, s.i + n) =~= s.registers.subrange(0, n));
    assert(stored.execute(Instruction::LoadRegs { reg }).0.registers =~= s.registers);
    let loaded = s.execute(Instruction::LoadRegs { reg }).0;
    assert(loaded.execute(Instruction::StoreRegs { reg }).0.mem =~= s.mem);
}

} // verus!
