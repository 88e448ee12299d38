use vstd::prelude::*;

verus! {

/// One of the sixteen general-purpose 8-bit registers. `VF` doubles as the
/// flag register.
#[derive(Debug, PartialEq, Eq, Clone, Copy, Structural)]
pub enum Register {
    V0,
    V1,
    V2,
    V3,
    V4,
    V5,
    V6,
    V7,
    V8,
    V9,
    VA,
    VB,
    VC,
    VD,
    VE,
    VF,
}

impl Register {
    /// The register's slot in the register file.
    pub open spec fn spec_index(self) -> nat {
        match self {
            Register::V0 => 0,
            Register::V1 => 1,
            Register::V2 => 2,
            Register::V3 => 3,
            Register::V4 => 4,
            Register::V5 => 5,
            Register::V6 => 6,
            Register::V7 => 7,
            Register::V8 => 8,
            Register::V9 => 9,
            Register::VA => 10,
            Register::VB => 11,
            Register::VC => 12,
            Register::VD => 13,
            Register::VE => 14,
            Register::VF => 15,
        }
    }

    /// The register whose slot is the low nibble `n`.
    pub open spec fn spec_from_nibble(n: u8) -> Register {
        match n {
            0 => Register::V0,
            1 => Register::V1,
            2 => Register::V2,
            3 => Register::V3,
            4 => Register::V4,
            5 => Register::V5,
            6 => Register::V6,
            7 => Register::V7,
            8 => Register::V8,
            9 => Register::V9,
            10 => Register::VA,
            11 => Register::VB,
            12 => Register::VC,
            13 => Register::VD,
            14 => Register::VE,
            _ => Register::VF,
        }
    }

    /// The register's slot in the register file.
    pub fn index(self) -> (r: usize)
        ensures
            r == self.spec_index(),
            r < 16,
    {
        match self {
            Register::V0 => 0,
            Register::V1 => 1,
            Register::V2 => 2,
            Register::V3 => 3,
            Register::V4 => 4,
            Register::V5 => 5,
            Register::V6 => 6,
            Register::V7 => 7,
            Register::V8 => 8,
            Register::V9 => 9,
            Register::VA => 10,
            Register::VB => 11,
            Register::VC => 12,
            Register::VD => 13,
            Register::VE => 14,
            Register::VF => 15,
        }
    }

    /// The register named by the nibble `n`.
    pub fn from_nibble(n: u8) -> (r: Register)
        requires
            n < 16,
        ensures
            r == Register::spec_from_nibble(n),
            r.spec_index() == n,
    {
        match n {
            0 => Register::V0,
            1 => Register::V1,
            2 => Register::V2,
            3 => Register::V3,
            4 => Register::V4,
            5 => Register::V5,
            6 => Register::V6,
            7 => Register::V7,
            8 => Register::V8,
            9 => Register::V9,
            10 => Register::VA,
            11 => Register::VB,
            12 => Register::VC,
            13 => Register::VD,
            14 => Register::VE,
            _ => Register::VF,
        }
    }

    pub proof fn lemma_from_index(r: Register)
        ensures
            Register::spec_from_nibble(r.spec_index() as u8) == r,
    {
    }
}

/// A decoded instruction. Each variant documents its opcode form, where `x`
/// and `y` are register nibbles, `kk` an immediate byte, `nnn` a 12-bit
/// address and `n` a 4-bit sprite length.
#[derive(Debug, PartialEq, Eq, Clone, Copy, Structural)]
pub enum Instruction {
    /// 00E0: clear the screen.
    Cls,
    /// 00EE: return from a subroutine.
    Ret,
    /// 1nnn: jump to `nnn`.
    Jmp { addr: u16 },
    /// 2nnn: call the subroutine at `nnn`.
    Call { addr: u16 },
    /// 3xkk: skip the next instruction if `Vx == kk`.
    SkipEqImm { reg: Register, byte: u8 },
    /// 4xkk: skip the next instruction if `Vx != kk`.
    SkipNEqImm { reg: Register, byte: u8 },
    /// 5xy0: skip the next instruction if `Vx == Vy`.
    SkipEqReg { regx: Register, regy: Register },
    /// 6xkk: `Vx = kk`.
    LdImm { reg: Register, byte: u8 },
    /// 7xkk: `Vx = Vx + kk`, wrapping, flag untouched.
    AddImm { reg: Register, byte: u8 },
    /// 8xy0: `Vx = Vy`.
    LdReg { regx: Register, regy: Register },
    /// 8xy1: `Vx = Vx | Vy`.
    Or { regx: Register, regy: Register },
    /// 8xy2: `Vx = Vx & Vy`.
    And { regx: Register, regy: Register },
    /// 8xy3: `Vx = Vx ^ Vy`.
    Xor { regx: Register, regy: Register },
    /// 8xy4: `Vx = Vx + Vy`, `VF` = carry.
    AddReg { regx: Register, regy: Register },
    /// 8xy5: `Vx = Vx - Vy`, `VF` = 1 iff `Vx > Vy`.
    SubReg { regx: Register, regy: Register },
    /// 8xy6: `Vx = Vy >> 1`, `VF` = low bit of `Vy` before the shift.
    Shr { regx: Register, regy: Register },
    /// 8xy7: `Vx = Vy - Vx`, `VF` = 1 iff `Vy > Vx`.
    SubN { regx: Register, regy: Register },
    /// 8xyE: `Vx = Vy << 1`, `VF` = high bit of `Vy` before the shift.
    Shl { regx: Register, regy: Register },
    /// 9xy0: skip the next instruction if `Vx != Vy`.
    SkipNEqReg { regx: Register, regy: Register },
    /// Annn: `I = nnn`.
    LdI { addr: u16 },
    /// Bnnn: jump to `nnn + V0`.
    JmpReg { addr: u16 },
    /// Cxkk: `Vx = random byte & kk` (inert here).
    Rnd { reg: Register, byte: u8 },
    /// Dxyn: draw the n-byte sprite at `I` at `(Vx, Vy)`, `VF` = collision.
    Drw { regx: Register, regy: Register, len: u8 },
    /// Ex9E: skip the next instruction if key `Vx` is pressed (inert here).
    SkipPressed { reg: Register },
    /// ExA1: skip the next instruction if key `Vx` is not pressed (inert here).
    SkipNotPressed { reg: Register },
    /// Fx07: `Vx = delay timer`.
    LdDelayTimer { reg: Register },
    /// Fx0A: wait for a key press into `Vx` (inert here).
    LdKey { reg: Register },
    /// Fx15: `delay timer = Vx`.
    SetDelayTimer { reg: Register },
    /// Fx18: `sound timer = Vx`.
    SetSoundTimer { reg: Register },
    /// Fx1E: `I = I + Vx`, wrapping.
    AddI { reg: Register },
    /// Fx29: `I` = address of the font glyph of digit `Vx`.
    LdFont { reg: Register },
    /// Fx33: hundreds, tens and ones of `Vx` to `I`, `I + 1`, `I + 2`.
    Bcd { reg: Register },
    /// Fx55: store `V0` through `Vx` at `I`.
    StoreRegs { reg: Register },
    /// Fx65: load `V0` through `Vx` from `I`.
    LoadRegs { reg: Register },
    /// Any other opcode.
    Unknown(u16),
}

/// The four nibbles of an opcode, most significant first.
pub open spec fn nibbles(op: u16) -> (u8, u8, u8, u8) {
    ((op / 4096) as u8, ((op / 256) % 16) as u8, ((op / 16) % 16) as u8, (op % 16) as u8)
}

/// The 12-bit address made of three nibbles.
pub open spec fn addr_of(a: u8, b: u8, c: u8) -> u16 {
    (a * 256 + b * 16 + c) as u16
}

/// The byte made of two nibbles.
pub open spec fn byte_of(a: u8, b: u8) -> u8 {
    (a * 16 + b) as u8
}

/// The instruction that an opcode stands for, by the opcode table: the first
/// nibble selects the group, the others give the operands or the form.
pub open spec fn decode(op: u16) -> Instruction {
    let (h, x, y, z) = nibbles(op);
    let r = |n: u8| Register::spec_from_nibble(n);
    if h == 0x0 {
        if op == 0x00E0 {
            Instruction::Cls
        } else if op == 0x00EE {
            Instruction::Ret
        } else {
            Instruction::Unknown(op)
        }
    } else if h == 0x1 {
        Instruction::Jmp { addr: addr_of(x, y, z) }
    } else if h == 0x2 {
        Instruction::Call { addr: addr_of(x, y, z) }
    } else if h == 0x3 {
        Instruction::SkipEqImm { reg: r(x), byte: byte_of(y, z) }
    } else if h == 0x4 {
        Instruction::SkipNEqImm { reg: r(x), byte: byte_of(y, z) }
    } else if h == 0x5 {
        if z == 0 {
            Instruction::SkipEqReg { regx: r(x), regy: r(y) }
        } else {
            Instruction::Unknown(op)
        }
    } else if h == 0x6 {
        Instruction::LdImm { reg: r(x), byte: byte_of(y, z) }
    } else if h == 0x7 {
        Instruction::AddImm { reg: r(x), byte: byte_of(y, z) }
    } else if h == 0x8 {
        decode_alu(op, r(x), r(y), z)
    } else if h == 0x9 {
        if z == 0 {
            Instruction::SkipNEqReg { regx: r(x), regy: r(y) }
        } else {
            Instruction::Unknown(op)
        }
    } else if h == 0xA {
        Instruction::LdI { addr: addr_of(x, y, z) }
    } else if h == 0xB {
        Instruction::JmpReg { addr: addr_of(x, y, z) }
    } else if h == 0xC {
        Instruction::Rnd { reg: r(x), byte: byte_of(y, z) }
    } else if h == 0xD {
        Instruction::Drw { regx: r(x), regy: r(y), len: z }
    } else if h == 0xE {
        if y == 0x9 && z == 0xE {
            Instruction::SkipPressed { reg: r(x) }
        } else if y == 0xA && z == 0x1 {
            Instruction::SkipNotPressed { reg: r(x) }
        } else {
            Instruction::Unknown(op)
        }
    } else {
        decode_misc(op, r(x), byte_of(y, z))
    }
}

/// The register-to-register group 8xyz, by its last nibble.
pub open spec fn decode_alu(op: u16, regx: Register, regy: Register, z: u8) -> Instruction {
    match z {
        0x0 => Instruction::LdReg { regx, regy },
        0x1 => Instruction::Or { regx, regy },
        0x2 => Instruction::And { regx, regy },
        0x3 => Instruction::Xor { regx, regy },
        0x4 => Instruction::AddReg { regx, regy },
        0x5 => Instruction::SubReg { regx, regy },
        0x6 => Instruction::Shr { regx, regy },
        0x7 => Instruction::SubN { regx, regy },
        0xE => Instruction::Shl { regx, regy },
        _ => Instruction::Unknown(op),
    }
}

/// The timer, index and memory group Fxkk, by its low byte.
pub open spec fn decode_misc(op: u16, reg: Register, kk: u8) -> Instruction {
    match kk {
        0x07 => Instruction::LdDelayTimer { reg },
        0x0A => Instruction::LdKey { reg },
        0x15 => Instruction::SetDelayTimer { reg },
        0x18 => Instruction::SetSoundTimer { reg },
        0x1E => Instruction::AddI { reg },
        0x29 => Instruction::LdFont { reg },
        0x33 => Instruction::Bcd { reg },
        0x55 => Instruction::StoreRegs { reg },
        0x65 => Instruction::LoadRegs { reg },
        _ => Instruction::Unknown(op),
    }
}

proof fn lemma_split(op: u16)
    ensures
        (op & 0xF000) >> 12 == op / 4096,
        (op & 0x0F00) >> 8 == (op / 256) % 16,
        (op & 0x00F0) >> 4 == (op / 16) % 16,
        op & 0x000F == op % 16,
{
    assert((op & 0xF000) >> 12 == op / 4096) by (bit_vector);
    assert((op & 0x0F00) >> 8 == (op / 256) % 16) by (bit_vector);
    assert((op & 0x00F0) >> 4 == (op / 16) % 16) by (bit_vector);
    assert(op & 0x000F == op % 16) by (bit_vector);
}

fn addr(a: u8, b: u8, c: u8) -> (r: u16)
    requires
        a < 16,
        b < 16,
        c < 16,
    ensures
        r == addr_of(a, b, c),
{
    let r = ((a as u16) << 8) | ((b as u16) << 4) | c as u16;
    assert(r == a * 256 + b * 16 + c) by (bit_vector)
        requires
            a < 16,
            b < 16,
            c < 16,
            r == ((a as u16) << 8) | ((b as u16) << 4) | c as u16,
    ;
    r
}

fn byte(a: u8, b: u8) -> (r: u8)
    requires
        a < 16,
        b < 16,
    ensures
        r == byte_of(a, b),
{
    let r = (a << 4) | b;
    assert(r == a * 16 + b) by (bit_vector)
        requires
            a < 16,
            b < 16,
            r == (a << 4) | b,
    ;
    r
}

impl Instruction {
    /// Decodes an opcode; patterns outside the table give `Unknown(op)`.
    pub fn parse(op: u16) -> (r: Instruction)
        ensures
            r == decode(op),
    {
        proof {
            lemma_split(op);
        }
        let op0 = ((op & 0xF000) >> 12) as u8;
        let op1 = ((op & 0x0F00) >> 8) as u8;
        let op2 = ((op & 0x00F0) >> 4) as u8;
        let op3 = (op & 0x000F) as u8;
        let r = |n: u8| -> (r: Register)
            requires
                n < 16,
            ensures
                r == Register::spec_from_nibble(n),
            { Register::from_nibble(n) };

        match (op0, op1, op2, op3) {
            (0x0, 0x0, 0xE, 0x0) => Instruction::Cls,
            (0x0, 0x0, 0xE, 0xE) => Instruction::Ret,
            (0x1, a, b, c) => Instruction::Jmp { addr: addr(a, b, c) },
            (0x2, a, b, c) => Instruction::Call { addr: addr(a, b, c) },
            (0x3, x, a, b) => Instruction::SkipEqImm { reg: r(x), byte: byte(a, b) },
            (0x4, x, a, b) => Instruction::SkipNEqImm { reg: r(x), byte: byte(a, b) },
            (0x5, x, y, 0x0) => Instruction::SkipEqReg { regx: r(x), regy: r(y) },
            (0x6, x, a, b) => Instruction::LdImm { reg: r(x), byte: byte(a, b) },
            (0x7, x, a, b) => Instruction::AddImm { reg: r(x), byte: byte(a, b) },
            (0x8, x, y, 0x0) => Instruction::LdReg { regx: r(x), regy: r(y) },
            (0x8, x, y, 0x1) => Instruction::Or { regx: r(x), regy: r(y) },
            (0x8, x, y, 0x2) => Instruction::And { regx: r(x), regy: r(y) },
            (0x8, x, y, 0x3) => Instruction::Xor { regx: r(x), regy: r(y) },
            (0x8, x, y, 0x4) => Instruction::AddReg { regx: r(x), regy: r(y) },
            (0x8, x, y, 0x5) => Instruction::SubReg { regx: r(x), regy: r(y) },
            (0x8, x, y, 0x6) => Instruction::Shr { regx: r(x), regy: r(y) },
            (0x8, x, y, 0x7) => Instruction::SubN { regx: r(x), regy: r(y) },
            (0x8, x, y, 0xE) => Instruction::Shl { regx: r(x), regy: r(y) },
            (0x9, x, y, 0x0) => Instruction::SkipNEqReg { regx: r(x), regy: r(y) },
            (0xA, a, b, c) => Instruction::LdI { addr: addr(a, b, c) },
            (0xB, a, b, c) => Instruction::JmpReg { addr: addr(a, b, c) },
            (0xC, x, a, b) => Instruction::Rnd { reg: r(x), byte: byte(a, b) },
            (0xD, x, y, n) => Instruction::Drw { regx: r(x), regy: r(y), len: n },
            (0xE, x, 0x9, 0xE) => Instruction::SkipPressed { reg: r(x) },
            (0xE, x, 0xA, 0x1) => Instruction::SkipNotPressed { reg: r(x) },
            (0xF, x, 0x0, 0x7) => Instruction::LdDelayTimer { reg: r(x) },
            (0xF, x, 0x0, 0xA) => Instruction::LdKey { reg: r(x) },
            (0xF, x, 0x1, 0x5) => Instruction::SetDelayTimer { reg: r(x) },
            (0xF, x, 0x1, 0x8) => Instruction::SetSoundTimer { reg: r(x) },
            (0xF, x, 0x1, 0xE) => Instruction::AddI { reg: r(x) },
            (0xF, x, 0x2, 0x9) => Instruction::LdFont { reg: r(x) },
            (0xF, x, 0x3, 0x3) => Instruction::Bcd { reg: r(x) },
            (0xF, x, 0x5, 0x5) => Instruction::StoreRegs { reg: r(x) },
            (0xF, x, 0x6, 0x5) => Instruction::LoadRegs { reg: r(x) },
            _ => Instruction::Unknown(op),
        }
    }
}

/// The opcode that the table gives for an instruction.
pub open spec fn encode(i: Instruction) -> u16 {
    let n = |r: Register| r.spec_index() as int;
    match i {
        Instruction::Cls => 0x00E0,
        Instruction::Ret => 0x00EE,
        Instruction::Jmp { addr } => (0x1000 + addr) as u16,
        Instruction::Call { addr } => (0x2000 + addr) as u16,
        Instruction::SkipEqImm { reg, byte } => (0x3000 + n(reg) * 256 + byte) as u16,
        Instruction::SkipNEqImm { reg, byte } => (0x4000 + n(reg) * 256 + byte) as u16,
        Instruction::SkipEqReg { regx, regy } => (0x5000 + n(regx) * 256 + n(regy) * 16) as u16,
        Instruction::LdImm { reg, byte } => (0x6000 + n(reg) * 256 + byte) as u16,
        Instruction::AddImm { reg, byte } => (0x7000 + n(reg) * 256 + byte) as u16,
        Instruction::LdReg { regx, regy } => (0x8000 + n(regx) * 256 + n(regy) * 16) as u16,
        Instruction::Or { regx, regy } => (0x8001 + n(regx) * 256 + n(regy) * 16) as u16,
        Instruction::And { regx, regy } => (0x8002 + n(regx) * 256 + n(regy) * 16) as u16,
        Instruction::Xor { regx, regy } => (0x8003 + n(regx) * 256 + n(regy) * 16) as u16,
        Instruction::AddReg { regx, regy } => (0x8004 + n(regx) * 256 + n(regy) * 16) as u16,
        Instruction::SubReg { regx, regy } => (0x8005 + n(regx) * 256 + n(regy) * 16) as u16,
        Instruction::Shr { regx, regy } => (0x8006 + n(regx) * 256 + n(regy) * 16) as u16,
        Instruction::SubN { regx, regy } => (0x8007 + n(regx) * 256 + n(regy) * 16) as u16,
        Instruction::Shl { regx, regy } => (0x800E + n(regx) * 256 + n(regy) * 16) as u16,
        Instruction::SkipNEqReg { regx, regy } => (0x9000 + n(regx) * 256 + n(regy) * 16) as u16,
        Instruction::LdI { addr } => (0xA000 + addr) as u16,
        Instruction::JmpReg { addr } => (0xB000 + addr) as u16,
        Instruction::Rnd { reg, byte } => (0xC000 + n(reg) * 256 + byte) as u16,
        Instruction::Drw { regx, regy, len } => (0xD000 + n(regx) * 256 + n(regy) * 16
            + len) as u16,
        Instruction::SkipPressed { reg } => (0xE09E + n(reg) * 256) as u16,
        Instruction::SkipNotPressed { reg } => (0xE0A1 + n(reg) * 256) as u16,
        Instruction::LdDelayTimer { reg } => (0xF007 + n(reg) * 256) as u16,
        Instruction::LdKey { reg } => (0xF00A + n(reg) * 256) as u16,
        Instruction::SetDelayTimer { reg } => (0xF015 + n(reg) * 256) as u16,
        Instruction::SetSoundTimer { reg } => (0xF018 + n(reg) * 256) as u16,
        Instruction::AddI { reg } => (0xF01E + n(reg) * 256) as u16,
        Instruction::LdFont { reg } => (0xF029 + n(reg) * 256) as u16,
        Instruction::Bcd { reg } => (0xF033 + n(reg) * 256) as u16,
        Instruction::StoreRegs { reg } => (0xF055 + n(reg) * 256) as u16,
        Instruction::LoadRegs { reg } => (0xF065 + n(reg) * 256) as u16,
        Instruction::Unknown(op) => op,
    }
}

/// Whether an instruction is one of the documented forms with operands that
/// fit their fields: a 12-bit address, a 4-bit sprite length.
pub open spec fn is_documented(i: Instruction) -> bool {
    match i {
        Instruction::Jmp { addr } => addr < 0x1000,
        Instruction::Call { addr } => addr < 0x1000,
        Instruction::LdI { addr } => addr < 0x1000,
        Instruction::JmpReg { addr } => addr < 0x1000,
        Instruction::Drw { len, .. } => len < 16,
        Instruction::Unknown(_) => false,
        _ => true,
    }
}

proof fn lemma_nibbles(h: u16, x: u16, y: u16, z: u16)
    requires
        h < 16,
        x < 16,
        y < 16,
        z < 16,
    ensures
        nibbles((h * 4096 + x * 256 + y * 16 + z) as u16) == (h as u8, x as u8, y as u8, z as u8),
{
    let op = (h * 4096 + x * 256 + y * 16 + z) as u16;
    assert(op / 4096 == h && (op / 256) % 16 == x && (op / 16) % 16 == y && op % 16 == z)
        by (bit_vector)
        requires
            h < 16,
            x < 16,
            y < 16,
            z < 16,
            op == (h * 4096 + x * 256 + y * 16 + z) as u16,
    ;
}

proof fn lemma_split_addr(a: u16)
    requires
        a < 0x1000,
    ensures
        a == addr_of((a / 256) as u8, ((a / 16) % 16) as u8, (a % 16) as u8),
        a == (a / 256) * 256 + ((a / 16) % 16) * 16 + a % 16,
{
}

proof fn lemma_split_byte(b: u8)
    ensures
        b == byte_of(b / 16, b % 16),
        b == (b / 16) * 16 + b % 16,
{
}

#[verifier::spinoff_prover]
#[verifier::rlimit(30)]
proof fn lemma_round_trip_addr(i: Instruction)
    requires
        is_documented(i),
        i is Jmp || i is Call || i is LdI || i is JmpReg,
    ensures
        decode(encode(i)) == i,
{
    match i {
        Instruction::Jmp { addr } => {
            lemma_split_addr(addr);
            lemma_nibbles(0x1, addr / 256, (addr / 16) % 16, addr % 16);
        },
        Instruction::Call { addr } => {
            lemma_split_addr(addr);
            lemma_nibbles(0x2, addr / 256, (addr / 16) % 16, addr % 16);
        },
        Instruction::LdI { addr } => {
            lemma_split_addr(addr);
            lemma_nibbles(0xA, addr / 256, (addr / 16) % 16, addr % 16);
        },
        Instruction::JmpReg { addr } => {
            lemma_split_addr(addr);
            lemma_nibbles(0xB, addr / 256, (addr / 16) % 16, addr % 16);
        },
        _ => {},
    }
}

#[verifier::spinoff_prover]
#[verifier::rlimit(30)]
proof fn lemma_round_trip_imm(i: Instruction)
    requires
        i is SkipEqImm || i is SkipNEqImm || i is LdImm || i is AddImm || i is Rnd,
    ensures
        decode(encode(i)) == i,
{
    match i {
        Instruction::SkipEqImm { reg, byte } => {
            Register::lemma_from_index(reg);
            lemma_split_byte(byte);
            lemma_nibbles(0x3, reg.spec_index() as u16, (byte / 16) as u16, (byte % 16) as u16);
        },
        Instruction::SkipNEqImm { reg, byte } => {
            Register::lemma_from_index(reg);
            lemma_split_byte(byte);
            lemma_nibbles(0x4, reg.spec_index() as u16, (byte / 16) as u16, (byte % 16) as u16);
        },
        Instruction::LdImm { reg, byte } => {
            Register::lemma_from_index(reg);
            lemma_split_byte(byte);
            lemma_nibbles(0x6, reg.spec_index() as u16, (byte / 16) as u16, (byte % 16) as u16);
        },
        Instruction::AddImm { reg, byte } => {
            Register::lemma_from_index(reg);
            lemma_split_byte(byte);
            lemma_nibbles(0x7, reg.spec_index() as u16, (byte / 16) as u16, (byte % 16) as u16);
        },
        Instruction::Rnd { reg, byte } => {
            Register::lemma_from_index(reg);
            lemma_split_byte(byte);
            lemma_nibbles(0xC, reg.spec_index() as u16, (byte / 16) as u16, (byte % 16) as u16);
        },
        _ => {},
    }
}

#[verifier::spinoff_prover]
#[verifier::rlimit(30)]
proof fn lemma_round_trip_alu(i: Instruction)
    requires
        i is LdReg || i is Or || i is And || i is Xor || i is AddReg || i is SubReg || i is Shr
            || i is SubN || i is Shl,
    ensures
        decode(encode(i)) == i,
{
    match i {
        Instruction::LdReg { regx, regy } => {
            Register::lemma_from_index(regx);
            Register::lemma_from_index(regy);
            lemma_nibbles(0x8, regx.spec_index() as u16, regy.spec_index() as u16, 0x0);
        },
        Instruction::Or { regx, regy } => {
            Register::lemma_from_index(regx);
            Register::lemma_from_index(regy);
            lemma_nibbles(0x8, regx.spec_index() as u16, regy.spec_index() as u16, 0x1);
        },
        Instruction::And { regx, regy } => {
            Register::lemma_from_index(regx);
            Register::lemma_from_index(regy);
            lemma_nibbles(0x8, regx.spec_index() as u16, regy.spec_index() as u16, 0x2);
        },
        Instruction::Xor { regx, regy } => {
            Register::lemma_from_index(regx);
            Register::lemma_from_index(regy);
            lemma_nibbles(0x8, regx.spec_index() as u16, regy.spec_index() as u16, 0x3);
        },
        Instruction::AddReg { regx, regy } => {
            Register::lemma_from_index(regx);
            Register::lemma_from_index(regy);
            lemma_nibbles(0x8, regx.spec_index() as u16, regy.spec_index() as u16, 0x4);
        },
        Instruction::SubReg { regx, regy } => {
            Register::lemma_from_index(regx);
            Register::lemma_from_index(regy);
            lemma_nibbles(0x8, regx.spec_index() as u16, regy.spec_index() as u16, 0x5);
        },
        Instruction::Shr { regx, regy } => {
            Register::lemma_from_index(regx);
            Register::lemma_from_index(regy);
            lemma_nibbles(0x8, regx.spec_index() as u16, regy.spec_index() as u16, 0x6);
        },
        Instruction::SubN { regx, regy } => {
            Register::lemma_from_index(regx);
            Register::lemma_from_index(regy);
            lemma_nibbles(0x8, regx.spec_index() as u16, regy.spec_index() as u16, 0x7);
        },
        Instruction::Shl { regx, regy } => {
            Register::lemma_from_index(regx);
            Register::lemma_from_index(regy);
            lemma_nibbles(0x8, regx.spec_index() as u16, regy.spec_index() as u16, 0xE);
        },
        _ => {},
    }
}

#[verifier::spinoff_prover]
#[verifier::rlimit(30)]
proof fn lemma_round_trip_pair(i: Instruction)
    requires
        i is SkipEqReg || i is SkipNEqReg || i is Drw,
        is_documented(i),
    ensures
        decode(encode(i)) == i,
{
    match i {
        Instruction::SkipEqReg { regx, regy } => {
            Register::lemma_from_index(regx);
            Register::lemma_from_index(regy);
            lemma_nibbles(0x5, regx.spec_index() as u16, regy.spec_index() as u16, 0x0);
        },
        Instruction::SkipNEqReg { regx, regy } => {
            Register::lemma_from_index(regx);
            Register::lemma_from_index(regy);
            lemma_nibbles(0x9, regx.spec_index() as u16, regy.spec_index() as u16, 0x0);
        },
        Instruction::Drw { regx, regy, len } => {
            Register::lemma_from_index(regx);
            Register::lemma_from_index(regy);
            lemma_nibbles(0xD, regx.spec_index() as u16, regy.spec_index() as u16, len as u16);
        },
        _ => {},
    }
}

#[verifier::spinoff_prover]
#[verifier::rlimit(30)]
proof fn lemma_round_trip_single(i: Instruction)
    requires
        i is SkipPressed || i is SkipNotPressed || i is LdDelayTimer || i is LdKey
            || i is SetDelayTimer || i is SetSoundTimer || i is AddI || i is LdFont || i is Bcd
            || i is StoreRegs || i is LoadRegs,
    ensures
        decode(encode(i)) == i,
{
    match i {
        Instruction::SkipPressed { reg } => {
            Register::lemma_from_index(reg);
            lemma_nibbles(0xE, reg.spec_index() as u16, 0x9, 0xE);
        },
        Instruction::SkipNotPressed { reg } => {
            Register::lemma_from_index(reg);
            lemma_nibbles(0xE, reg.spec_index() as u16, 0xA, 0x1);
        },
        Instruction::LdDelayTimer { reg } => {
            Register::lemma_from_index(reg);
            lemma_nibbles(0xF, reg.spec_index() as u16, 0x0, 0x7);
        },
        Instruction::LdKey { reg } => {
            Register::lemma_from_index(reg);
            lemma_nibbles(0xF, reg.spec_index() as u16, 0x0, 0xA);
        },
        Instruction::SetDelayTimer { reg } => {
            Register::lemma_from_index(reg);
            lemma_nibbles(0xF, reg.spec_index() as u16, 0x1, 0x5);
        },
        Instruction::SetSoundTimer { reg } => {
            Register::lemma_from_index(reg);
            lemma_nibbles(0xF, reg.spec_index() as u16, 0x1, 0x8);
        },
        Instruction::AddI { reg } => {
            Register::lemma_from_index(reg);
            lemma_nibbles(0xF, reg.spec_index() as u16, 0x1, 0xE);
        },
        Instruction::LdFont { reg } => {
            Register::lemma_from_index(reg);
            lemma_nibbles(0xF, reg.spec_index() as u16, 0x2, 0x9);
        },
        Instruction::Bcd { reg } => {
            Register::lemma_from_index(reg);
            lemma_nibbles(0xF, reg.spec_index() as u16, 0x3, 0x3);
        },
        Instruction::StoreRegs { reg } => {
            Register::lemma_from_index(reg);
            lemma_nibbles(0xF, reg.spec_index() as u16, 0x5, 0x5);
        },
        Instruction::LoadRegs { reg } => {
            Register::lemma_from_index(reg);
            lemma_nibbles(0xF, reg.spec_index() as u16, 0x6, 0x5);
        },
        _ => {},
    }
}

/// Decoding the opcode of a documented instruction gives that instruction
/// back, with the same operands.
pub proof fn lemma_decode_encode(i: Instruction)
    requires
        is_documented(i),
    ensures
        decode(encode(i)) == i,
{
    if i is Jmp || i is Call || i is LdI || i is JmpReg {
        lemma_round_trip_addr(i);
    } else if i is SkipEqImm || i is SkipNEqImm || i is LdImm || i is AddImm || i is Rnd {
        lemma_round_trip_imm(i);
    } else if i is SkipPressed || i is SkipNotPressed || i is LdDelayTimer || i is LdKey
        || i is SetDelayTimer || i is SetSoundTimer || i is AddI || i is LdFont || i is Bcd
        || i is StoreRegs || i is LoadRegs {
        lemma_round_trip_single(i);
    } else if i is Cls || i is Ret {
        assert(nibbles(0x00E0) == (0u8, 0u8, 0xEu8, 0u8));
        assert(nibbles(0x00EE) == (0u8, 0u8, 0xEu8, 0xEu8));
    } else if i is SkipEqReg || i is SkipNEqReg || i is Drw {
        lemma_round_trip_pair(i);
    } else {
        lemma_round_trip_alu(i);
    }
}


proof fn lemma_join(op: u16)
    ensures
        op == (op / 4096) * 4096 + ((op / 256) % 16) * 256 + ((op / 16) % 16) * 16 + op % 16,
        op / 4096 < 16,
{
    assert(op == (op / 4096) * 4096 + ((op / 256) % 16) * 256 + ((op / 16) % 16) * 16 + op % 16
        && op / 4096 < 16) by (bit_vector);
}

/// Every opcode that decodes to a documented instruction is the encoding of
/// that instruction.
#[verifier::spinoff_prover]
#[verifier::rlimit(30)]
pub proof fn lemma_encode_decode(op: u16)
    requires
        !(decode(op) is Unknown),
    ensures
        is_documented(decode(op)),
        encode(decode(op)) == op,
{
    lemma_join(op);
    let (h, x, y, z) = nibbles(op);
    Register::lemma_from_index(Register::spec_from_nibble(x));
    assert(Register::spec_from_nibble(x).spec_index() == x);
    assert(Register::spec_from_nibble(y).spec_index() == y);
}

} // verus!
