use crate::display::{draw, Display, DISPLAY_PIXELS};
use crate::instructions::{decode, Instruction, Register};
use crate::memory::{word, Memory, FONT_SPRITE_ADDR, MEM_SIZE, PROGRAM_START};
use vstd::prelude::*;

verus! {

/// The register file, indexed by register slot.
pub type Registers = [u8; 16];

/// Registers are addressed by name.
impl core::ops::Index<Register> for Registers {
    type Output = u8;

    fn index(&self, index: Register) -> (r: &u8)
        ensures
            *r == self@[index.spec_index() as int],
    {
        &self[index.index()]
    }
}

impl core::ops::IndexMut<Register> for Registers {
    fn index_mut(&mut self, index: Register) -> (r: &mut u8)
        ensures
            *r == old(self)@[index.spec_index() as int],
            final(self)@ == old(self)@.update(index.spec_index() as int, *final(r)),
    {
        &mut self[index.index()]
    }
}

/// Initial stack pointer: the stack grows downward below the program region.
pub const STACK_START: u16 = 0x1FE;

/// Slot of the flag register `VF`.
pub const FLAG: usize = 15;

/// The machine state as mathematical values.
pub struct CpuState {
    pub registers: Seq<u8>,
    pub delay_timer: u8,
    pub sound_timer: u8,
    pub pc: u16,
    pub sp: u16,
    pub i: u16,
    pub mem: Seq<u8>,
    pub pixels: Seq<bool>,
}

/// `v` reduced to a byte, wrapping.
pub open spec fn wrap8(v: int) -> u8 {
    (v % 256) as u8
}

/// `v` reduced to a word, wrapping.
pub open spec fn wrap16(v: int) -> u16 {
    (v % 0x10000) as u16
}

/// `v` clamped to the range of a word.
pub open spec fn sat16(v: int) -> u16 {
    if v > 0xFFFF {
        0xFFFF
    } else if v < 0 {
        0
    } else {
        v as u16
    }
}

impl CpuState {
    /// The state of a new processor over the given memory and pixels.
    pub open spec fn initial(mem: Seq<u8>, pixels: Seq<bool>) -> CpuState {
        CpuState {
            registers: Seq::new(16, |k: int| 0u8),
            delay_timer: 0,
            sound_timer: 0,
            pc: PROGRAM_START,
            sp: STACK_START,
            i: 0,
            mem,
            pixels,
        }
    }

    /// The value of a register.
    pub open spec fn reg(self, r: Register) -> u8 {
        self.registers[r.spec_index() as int]
    }

    /// The state with register `r` set to `v`.
    pub open spec fn set_reg(self, r: Register, v: u8) -> CpuState {
        CpuState { registers: self.registers.update(r.spec_index() as int, v), ..self }
    }

    /// The state with the flag register set to `v`.
    pub open spec fn set_flag(self, v: u8) -> CpuState {
        CpuState { registers: self.registers.update(FLAG as int, v), ..self }
    }

    /// The state with the program counter moved past one more instruction
    /// when `cond` holds.
    pub open spec fn skip_if(self, cond: bool) -> CpuState {
        if cond {
            CpuState { pc: wrap16(self.pc + 2), ..self }
        } else {
            self
        }
    }

    /// Whether every memory access of `instr` stays inside the address space
    /// and its jump target fits in a word.
    pub open spec fn can_execute(self, instr: Instruction) -> bool {
        match instr {
            Instruction::Ret => sat16(self.sp + 2) + 1 < MEM_SIZE,
            Instruction::Call { .. } => self.sp + 1 < MEM_SIZE,
            Instruction::JmpReg { addr } => addr + self.reg(Register::V0) <= 0xFFFF,
            Instruction::Drw { len, .. } => self.i + len <= MEM_SIZE,
            Instruction::Bcd { .. } => self.i + 2 < MEM_SIZE,
            Instruction::StoreRegs { reg } => self.i + reg.spec_index() < MEM_SIZE,
            Instruction::LoadRegs { reg } => self.i + reg.spec_index() < MEM_SIZE,
            _ => true,
        }
    }

    /// The state after executing `instr`, before the program counter moves
    /// on to the next instruction.
    pub open spec fn apply(self, instr: Instruction) -> CpuState {
        match instr {
            Instruction::Cls => CpuState {
                pixels: Seq::new(DISPLAY_PIXELS as nat, |k: int| false),
                ..self
            },
            Instruction::Ret => {
                let sp = sat16(self.sp + 2);
                CpuState { sp, pc: word(self.mem[sp as int], self.mem[sp + 1]), ..self }
            },
            Instruction::Jmp { addr } => CpuState { pc: addr, ..self },
            Instruction::Call { addr } => CpuState {
                mem: self.mem.update(self.sp as int, (self.pc / 256) as u8).update(
                    self.sp + 1,
                    (self.pc % 256) as u8,
                ),
                sp: sat16(self.sp - 2),
                pc: addr,
                ..self
            },
            Instruction::SkipEqImm { reg, byte } => self.skip_if(self.reg(reg) == byte),
            Instruction::SkipNEqImm { reg, byte } => self.skip_if(self.reg(reg) != byte),
            Instruction::SkipEqReg { regx, regy } => self.skip_if(self.reg(regx) == self.reg(regy)),
            Instruction::LdImm { reg, byte } => self.set_reg(reg, byte),
            Instruction::AddImm { reg, byte } => self.set_reg(reg, wrap8(self.reg(reg) + byte)),
            Instruction::LdReg { regx, regy } => self.set_reg(regx, self.reg(regy)),
            Instruction::Or { regx, regy } => self.set_reg(regx, self.reg(regx) | self.reg(regy)),
            Instruction::And { regx, regy } => self.set_reg(regx, self.reg(regx) & self.reg(regy)),
            Instruction::Xor { regx, regy } => self.set_reg(regx, self.reg(regx) ^ self.reg(regy)),
            Instruction::AddReg { regx, regy } => {
                let sum = self.reg(regx) + self.reg(regy);
                self.set_reg(regx, wrap8(sum)).set_flag(if sum >= 256 { 1 } else { 0 })
            },
            Instruction::SubReg { regx, regy } => {
                let (a, b) = (self.reg(regx), self.reg(regy));
                self.set_flag(if a > b { 1 } else { 0 }).set_reg(regx, wrap8(a - b + 256))
            },
            Instruction::Shr { regx, regy } => {
                let b = self.reg(regy);
                self.set_flag(b % 2).set_reg(regx, b / 2)
            },
            Instruction::SubN { regx, regy } => {
                let (a, b) = (self.reg(regx), self.reg(regy));
                self.set_flag(if b > a { 1 } else { 0 }).set_reg(regx, wrap8(b - a + 256))
            },
            Instruction::Shl { regx, regy } => {
                let b = self.reg(regy);
                self.set_flag(b / 128).set_reg(regx, wrap8(2 * b))
            },
            Instruction::SkipNEqReg { regx, regy } => if self.reg(regx) != self.reg(regy) {
                CpuState { pc: sat16(self.pc + 2), ..self }
            } else {
                self
            },
            Instruction::LdI { addr } => CpuState { i: addr, ..self },
            Instruction::JmpReg { addr } => CpuState {
                pc: (addr + self.reg(Register::V0)) as u16,
                ..self
            },
            Instruction::Drw { regx, regy, len } => {
                let sprite = self.mem.subrange(self.i as int, self.i + len);
                let (pixels, collision) = draw(self.pixels, self.reg(regx), self.reg(regy), sprite);
                CpuState { pixels, ..self }.set_flag(if collision { 1 } else { 0 })
            },
            Instruction::LdDelayTimer { reg } => self.set_reg(reg, self.delay_timer),
            Instruction::SetDelayTimer { reg } => CpuState { delay_timer: self.reg(reg), ..self },
            Instruction::SetSoundTimer { reg } => CpuState { sound_timer: self.reg(reg), ..self },
            Instruction::AddI { reg } => CpuState { i: wrap16(self.i + self.reg(reg)), ..self },
            Instruction::LdFont { reg } => CpuState {
                i: (FONT_SPRITE_ADDR + 5 * self.reg(reg)) as u16,
                ..self
            },
            Instruction::Bcd { reg } => {
                let v = self.reg(reg);
                CpuState {
                    mem: self.mem.update(self.i as int, v / 100).update(self.i + 1, (v / 10) % 10).update(
                        self.i + 2,
                        v % 10,
                    ),
                    ..self
                }
            },
            Instruction::StoreRegs { reg } => CpuState {
                mem: self.mem.update_subrange_with(
                    self.i as int,
                    self.registers.subrange(0, reg.spec_index() + 1int),
                ),
                ..self
            },
            Instruction::LoadRegs { reg } => CpuState {
                registers: self.registers.update_subrange_with(
                    0,
                    self.mem.subrange(self.i as int, self.i + reg.spec_index() + 1),
                ),
                ..self
            },
            _ => self,
        }
    }

    /// The state after executing `instr`, and the address of the next
    /// instruction, or `None` when the program halts on a jump to itself.
    pub open spec fn execute(self, instr: Instruction) -> (CpuState, Option<u16>) {
        match instr {
            Instruction::Jmp { addr } if addr == self.pc => (self, None),
            Instruction::Jmp { .. } | Instruction::Call { .. } | Instruction::JmpReg { .. } => {
                let s = self.apply(instr);
                (s, Some(s.pc))
            },
            _ => {
                let s = self.apply(instr);
                (s, Some(wrap16(s.pc + 2)))
            },
        }
    }
}

/// The processor: registers, program counter, stack pointer, index register
/// and timers, with the memory and framebuffer it owns.
pub struct Cpu {
    pub registers: Registers,
    pub delay_timer: u8,
    pub sound_timer: u8,
    pub pc: u16,
    pub sp: u16,
    pub i: u16,
    pub mem: Memory,
    pub display: Display,
}

impl View for Cpu {
    type V = CpuState;

    open spec fn view(&self) -> CpuState {
        CpuState {
            registers: self.registers@,
            delay_timer: self.delay_timer,
            sound_timer: self.sound_timer,
            pc: self.pc,
            sp: self.sp,
            i: self.i,
            mem: self.mem@,
            pixels: self.display@,
        }
    }
}

impl CpuState {
    /// The opcode at the program counter.
    pub open spec fn fetch(self) -> u16 {
        word(self.mem[self.pc as int], self.mem[self.pc + 1])
    }

    /// Whether the opcode at the program counter lies inside the address
    /// space and its instruction can execute.
    pub open spec fn can_step(self) -> bool {
        &&& self.pc + 1 < MEM_SIZE
        &&& self.can_execute(decode(self.fetch()))
    }

    /// The state after one fetch-decode-execute cycle, and whether it halted.
    pub open spec fn step(self) -> (CpuState, bool) {
        let (s, next) = self.execute(decode(self.fetch()));
        match next {
            Some(pc) => (CpuState { pc, ..s }, false),
            None => (s, true),
        }
    }
}

impl Cpu {
    /// A processor in its initial state over the given memory and display.
    pub fn new(mem: Memory, display: Display) -> (r: Cpu)
        ensures
            r@ == CpuState::initial(mem@, display@),
    {
        let r = Cpu {
            registers: [0u8; 16],
            delay_timer: 0,
            sound_timer: 0,
            pc: PROGRAM_START,
            sp: STACK_START,
            i: 0x000,
            mem,
            display,
        };
        assert(r.registers@ =~= Seq::new(16, |k: int| 0u8));
        r
    }

    /// Restores the program counter and stack pointer and clears the screen.
    pub fn reset(&mut self)
        ensures
            final(self)@ == (CpuState {
                pc: PROGRAM_START,
                sp: STACK_START,
                pixels: Seq::new(DISPLAY_PIXELS as nat, |k: int| false),
                ..old(self)@
            }),
    {
        self.pc = PROGRAM_START;
        self.sp = STACK_START;
        self.display.clear();
    }

    /// Whether the next `step` stays inside the address space.
    pub fn can_step(&self) -> (r: bool)
        ensures
            r == self@.can_step(),
    {
        if self.pc as usize + 1 >= MEM_SIZE {
            return false;
        }
        let instr = Instruction::parse(self.mem.read_u16(self.pc));
        let sp = self.sp.saturating_add(2);
        let i = self.i as usize;
        match instr {
            Instruction::Ret => (sp as usize) + 1 < MEM_SIZE,
            Instruction::Call { .. } => (self.sp as usize) + 1 < MEM_SIZE,
            Instruction::JmpReg { addr } => addr as usize + self.registers[0] as usize <= 0xFFFF,
            Instruction::Drw { len, .. } => i + len as usize <= MEM_SIZE,
            Instruction::Bcd { .. } => i + 2 < MEM_SIZE,
            Instruction::StoreRegs { reg } => i + reg.index() < MEM_SIZE,
            Instruction::LoadRegs { reg } => i + reg.index() < MEM_SIZE,
            _ => true,
        }
    }

    /// Fetches, decodes and executes one instruction; true iff it halted.
    pub fn step(&mut self) -> (halted: bool)
        requires
            old(self)@.can_step(),
        ensures
            (final(self)@, halted) == old(self)@.step(),
    {
        let instr = Instruction::parse(self.mem.read_u16(self.pc));
        match self.execute(instr) {
            Some(pc) => {
                self.pc = pc;
                false
            },
            None => true,
        }
    }

    /// Pushes an address onto the stack, which grows downward.
    pub fn push_stack(&mut self, addr: u16)
        requires
            old(self).sp + 1 < MEM_SIZE,
        ensures
            final(self)@ == (CpuState {
                mem: old(self)@.mem.update(old(self).sp as int, (addr / 256) as u8).update(
                    old(self).sp + 1,
                    (addr % 256) as u8,
                ),
                sp: sat16(old(self).sp - 2),
                ..old(self)@
            }),
    {
        self.mem.write_u16(self.sp, addr);
        self.sp = self.sp.saturating_sub(2);
    }

    /// Pops the address on top of the stack.
    pub fn pop_stack(&mut self) -> (r: u16)
        requires
            sat16(old(self).sp + 2) + 1 < MEM_SIZE,
        ensures
            final(self)@ == (CpuState { sp: sat16(old(self).sp + 2), ..old(self)@ }),
            r == word(
                final(self)@.mem[final(self).sp as int],
                final(self)@.mem[final(self).sp + 1],
            ),
    {
        self.sp = self.sp.saturating_add(2);
        self.mem.read_u16(self.sp)
    }
}

impl Cpu {
    /// Control flow: screen clear, return, call, skips and the indexed jump.
    #[verifier::spinoff_prover]
    fn apply_flow(&mut self, instr: Instruction)
        requires
            instr is Cls || instr is Ret || instr is Call || instr is SkipEqImm || instr is SkipNEqImm
                || instr is SkipEqReg || instr is SkipNEqReg || instr is JmpReg,
            old(self)@.can_execute(instr),
        ensures
            final(self)@ == old(self)@.apply(instr),
    {
        match instr {
            Instruction::Cls => self.display.clear(),
            Instruction::Ret => {
                self.pc = self.pop_stack();
            },
            Instruction::Call { addr } => {
                self.push_stack(self.pc);
                self.pc = addr;
            },
            Instruction::SkipEqImm { reg, byte } => {
                if self.registers[reg.index()] == byte {
                    self.pc = self.pc.wrapping_add(2);
                }
            },
            Instruction::SkipNEqImm { reg, byte } => {
                if self.registers[reg.index()] != byte {
                    self.pc = self.pc.wrapping_add(2);
                }
            },
            Instruction::SkipEqReg { regx, regy } => {
                if self.registers[regx.index()] == self.registers[regy.index()] {
                    self.pc = self.pc.wrapping_add(2);
                }
            },
            Instruction::SkipNEqReg { regx, regy } => {
                if self.registers[regx.index()] != self.registers[regy.index()] {
                    self.pc = self.pc.saturating_add(2);
                }
            },
            Instruction::JmpReg { addr } => {
                self.pc = addr + self.registers[0] as u16;
            },
            _ => {},
        }
    }

    /// Register loads and bitwise instructions.
    #[verifier::spinoff_prover]
    fn apply_bitwise(&mut self, instr: Instruction)
        requires
            instr is LdImm || instr is AddImm || instr is LdReg || instr is Or || instr is And
                || instr is Xor,
            old(self)@.can_execute(instr),
        ensures
            final(self)@ == old(self)@.apply(instr),
    {
        match instr {
            Instruction::LdImm { reg, byte } => self.registers[reg.index()] = byte,
            Instruction::AddImm { reg, byte } => {
                self.registers[reg.index()] = self.registers[reg.index()].wrapping_add(byte);
            },
            Instruction::LdReg { regx, regy } => {
                self.registers[regx.index()] = self.registers[regy.index()];
            },
            Instruction::Or { regx, regy } => {
                self.registers[regx.index()] = self.registers[regx.index()]
                    | self.registers[regy.index()];
            },
            Instruction::And { regx, regy } => {
                self.registers[regx.index()] = self.registers[regx.index()]
                    & self.registers[regy.index()];
            },
            Instruction::Xor { regx, regy } => {
                self.registers[regx.index()] = self.registers[regx.index()]
                    ^ self.registers[regy.index()];
            },
            _ => {},
        }
    }

    /// `Vx = Vx + Vy`, wrapping, then `VF` = 1 iff the sum overflowed.
    fn add_reg(&mut self, regx: Register, regy: Register)
        ensures
            final(self)@ == old(self)@.apply(Instruction::AddReg { regx, regy }),
    {
        let ghost s0 = self@;
        let a = self.registers[regx.index()];
        let b = self.registers[regy.index()];
        let carry = a as u16 + b as u16 >= 256;
        self.registers[regx.index()] = a.wrapping_add(b);
        self.registers[FLAG] = if carry { 1 } else { 0 };
        assert(a.wrapping_add(b) == wrap8(a + b));
        assert(self.registers@ =~= s0.apply(Instruction::AddReg { regx, regy }).registers);
    }

    /// `VF` = 1 iff `a > b`, then `Vx = a - b`, wrapping, where `a` and `b`
    /// are the minuend and subtrahend registers' values before the instruction.
    fn sub_into(&mut self, regx: Register, minuend: Register, subtrahend: Register)
        ensures
            final(self)@ == (CpuState {
                registers: old(self)@.registers.update(
                    FLAG as int,
                    if old(self)@.reg(minuend) > old(self)@.reg(subtrahend) { 1u8 } else { 0u8 },
                ).update(
                    regx.spec_index() as int,
                    wrap8(old(self)@.reg(minuend) - old(self)@.reg(subtrahend) + 256),
                ),
                ..old(self)@
            }),
    {
        let a = self.registers[minuend.index()];
        let b = self.registers[subtrahend.index()];
        self.registers[FLAG] = if a > b { 1 } else { 0 };
        self.registers[regx.index()] = a.wrapping_sub(b);
        assert(a.wrapping_sub(b) == wrap8(a - b + 256));
    }

    /// Shifts, with the bit shifted out in the flag register.
    #[verifier::spinoff_prover]
    fn apply_shift(&mut self, instr: Instruction)
        requires
            instr is Shr || instr is Shl,
            old(self)@.can_execute(instr),
        ensures
            final(self)@ == old(self)@.apply(instr),
    {
        let ghost s0 = self@;
        match instr {
            Instruction::Shr { regx, regy } => {
                let b = self.registers[regy.index()];
                self.registers[FLAG] = b & 0x01;
                self.registers[regx.index()] = b >> 1;
                assert(b & 0x01 == b % 2 && b >> 1 == b / 2) by (bit_vector);
                assert(self.registers@ =~= s0.apply(instr).registers);
            },
            Instruction::Shl { regx, regy } => {
                let b = self.registers[regy.index()];
                self.registers[FLAG] = b >> 7;
                self.registers[regx.index()] = b << 1;
                assert(b >> 7 == b / 128 && b << 1 == (2 * b) % 256) by (bit_vector);
                assert(self.registers@ =~= s0.apply(instr).registers);
            },
            _ => {},
        }
    }

    /// Index register, drawing, timers and decimal conversion.
    #[verifier::spinoff_prover]
    fn apply_misc(&mut self, instr: Instruction)
        requires
            instr is LdI || instr is Drw || instr is LdDelayTimer || instr is SetDelayTimer
                || instr is SetSoundTimer || instr is AddI || instr is LdFont || instr is Bcd,
            old(self)@.can_execute(instr),
        ensures
            final(self)@ == old(self)@.apply(instr),
    {
        match instr {
            Instruction::LdI { addr } => self.i = addr,
            Instruction::Drw { regx, regy, len } => {
                let x = self.registers[regx.index()];
                let y = self.registers[regy.index()];
                let sprite = self.mem.read(self.i, len as u16);
                let collision = self.display.draw_sprite(x, y, sprite);
                self.registers[FLAG] = if collision { 1 } else { 0 };
            },
            Instruction::LdDelayTimer { reg } => self.registers[reg.index()] = self.delay_timer,
            Instruction::SetDelayTimer { reg } => self.delay_timer = self.registers[reg.index()],
            Instruction::SetSoundTimer { reg } => self.sound_timer = self.registers[reg.index()],
            Instruction::AddI { reg } => {
                self.i = self.i.wrapping_add(self.registers[reg.index()] as u16);
            },
            Instruction::LdFont { reg } => {
                self.i = FONT_SPRITE_ADDR + self.registers[reg.index()] as u16 * 5;
            },
            Instruction::Bcd { reg } => {
                let val = self.registers[reg.index()];
                self.mem.write_u8(self.i, val / 100);
                self.mem.write_u8(self.i + 1, (val / 10) % 10);
                self.mem.write_u8(self.i + 2, val % 10);
            },
            _ => {},
        }
    }

    /// Block transfers between the registers and memory.
    #[verifier::spinoff_prover]
    fn apply_block(&mut self, instr: Instruction)
        requires
            instr is StoreRegs || instr is LoadRegs,
            old(self)@.can_execute(instr),
        ensures
            final(self)@ == old(self)@.apply(instr),
    {
        let ghost s0 = self@;
        match instr {
            Instruction::StoreRegs { reg } => {
                let last = reg.index();
                let mut k: usize = 0;
                proof {
                    Memory::lemma_len(&self.mem);
                    assert(s0.mem.update_subrange_with(s0.i as int, s0.registers.subrange(0, 0))
                        =~= s0.mem);
                }
                while k <= last
                    invariant
                        last < 16,
                        s0.mem.len() == MEM_SIZE,
                        s0.registers.len() == 16,
                        self.i == s0.i,
                        self.i + last < MEM_SIZE,
                        k <= last + 1,
                        self@ == (CpuState {
                            mem: s0.mem.update_subrange_with(
                                s0.i as int,
                                s0.registers.subrange(0, k as int),
                            ),
                            ..s0
                        }),
                    decreases last + 1 - k,
                {
                    self.mem.write_u8(self.i + k as u16, self.registers[k]);
                    k += 1;
                    assert(self.mem@ =~= s0.mem.update_subrange_with(
                        s0.i as int,
                        s0.registers.subrange(0, k as int),
                    ));
                }
            },
            Instruction::LoadRegs { reg } => {
                let last = reg.index();
                let mut k: usize = 0;
                proof {
                    Memory::lemma_len(&self.mem);
                    assert(s0.registers.update_subrange_with(0, s0.mem.subrange(s0.i as int, s0.i + 0))
                        =~= s0.registers);
                }
                while k <= last
                    invariant
                        last < 16,
                        s0.mem.len() == MEM_SIZE,
                        s0.registers.len() == 16,
                        self.i == s0.i,
                        self.i + last < MEM_SIZE,
                        k <= last + 1,
                        self@ == (CpuState {
                            registers: s0.registers.update_subrange_with(
                                0,
                                s0.mem.subrange(s0.i as int, s0.i + k),
                            ),
                            ..s0
                        }),
                    decreases last + 1 - k,
                {
                    self.registers[k] = self.mem.read_u8(self.i + k as u16);
                    k += 1;
                    assert(self.registers@ =~= s0.registers.update_subrange_with(
                        0,
                        s0.mem.subrange(s0.i as int, s0.i + k),
                    ));
                }
            },
            _ => {},
        }
    }

    /// Executes one decoded instruction. Returns the address of the next
    /// instruction, or `None` when a jump targets itself, which halts.
    pub fn execute(&mut self, instr: Instruction) -> (next: Option<u16>)
        requires
            old(self)@.can_execute(instr),
        ensures
            (final(self)@, next) == old(self)@.execute(instr),
    {
        match instr {
            Instruction::Jmp { addr } => {
                if addr == self.pc {
                    return None;
                }
                self.pc = addr;
                return Some(self.pc);
            },
            Instruction::Cls | Instruction::Ret | Instruction::Call { .. }
            | Instruction::SkipEqImm { .. } | Instruction::SkipNEqImm { .. }
            | Instruction::SkipEqReg { .. } | Instruction::SkipNEqReg { .. }
            | Instruction::JmpReg { .. } => self.apply_flow(instr),
            Instruction::LdImm { .. } | Instruction::AddImm { .. } | Instruction::LdReg { .. }
            | Instruction::Or { .. } | Instruction::And { .. } | Instruction::Xor { .. } => {
                self.apply_bitwise(instr)
            },
            Instruction::AddReg { regx, regy } => self.add_reg(regx, regy),
            Instruction::SubReg { regx, regy } => self.sub_into(regx, regx, regy),
            Instruction::SubN { regx, regy } => self.sub_into(regx, regy, regx),
            Instruction::Shr { .. } | Instruction::Shl { .. } => self.apply_shift(instr),
            Instruction::LdI { .. } | Instruction::Drw { .. } | Instruction::LdDelayTimer { .. }
            | Instruction::SetDelayTimer { .. } | Instruction::SetSoundTimer { .. }
            | Instruction::AddI { .. } | Instruction::LdFont { .. } | Instruction::Bcd { .. } => {
                self.apply_misc(instr)
            },
            Instruction::StoreRegs { .. } | Instruction::LoadRegs { .. } => self.apply_block(instr),
            _ => {},
        }
        match instr {
            Instruction::Call { .. } | Instruction::JmpReg { .. } => Some(self.pc),
            _ => Some(self.pc.wrapping_add(2)),
        }
    }
}

} // verus!
