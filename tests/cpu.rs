use c8rs::cpu::Cpu;
use c8rs::memory::FONT_SPRITE_ADDR;
use c8rs::Instruction::{
    AddI, AddImm, AddReg, And, Bcd, Call, Cls, Drw, Jmp, JmpReg, LdDelayTimer, LdFont, LdI, LdImm,
    LdReg, LoadRegs, Or, Ret, SetDelayTimer, SetSoundTimer, Shl, Shr, SkipEqImm, SkipEqReg,
    SkipNEqImm, SkipNEqReg, StoreRegs, SubN, SubReg, Xor,
};
use c8rs::Register::{V0, V1, V2, V3, V4, V5, V8, V9, VA, VB, VD, VE, VF};
use c8rs::{Display, Instruction, Memory, Register};

fn fresh_cpu() -> Cpu {
    Cpu::new(Memory::init(&[]), Display::default())
}

fn run(instr: Instruction, regs: &[(Register, u8)]) -> (Cpu, Option<u16>) {
    let mut cpu = fresh_cpu();
    for &(r, v) in regs {
        cpu.registers[r] = v;
    }
    let pc = cpu.execute(instr);
    (cpu, pc)
}

fn run_with_i(instr: Instruction, i: u16, regs: &[(Register, u8)]) -> (Cpu, Option<u16>) {
    let mut cpu = fresh_cpu();
    cpu.i = i;
    for &(r, v) in regs {
        cpu.registers[r] = v;
    }
    let pc = cpu.execute(instr);
    (cpu, pc)
}

fn run_with_delay_timer(instr: Instruction, value: u8) -> (Cpu, Option<u16>) {
    let mut cpu = fresh_cpu();
    cpu.delay_timer = value;
    let pc = cpu.execute(instr);
    (cpu, pc)
}

#[test]
fn test_cls() {
    let mut display = Display::default();
    display.draw_sprite(10, 10, &[0xF0, 0xA0, 0xBF]);

    let mut cpu = Cpu::new(Memory::init(&[]), display);
    cpu.execute(Cls);

    assert_eq!(cpu.display.get_pixels(), Display::default().get_pixels());
}

#[test]
fn test_ret() {
    let mut cpu = fresh_cpu();
    cpu.push_stack(0x2A8);

    let pc = cpu.execute(Ret);
    assert_eq!(pc, Some(0x2AA))
}

#[test]
fn test_jmp() {
    let (_, pc) = run(Jmp { addr: 0x3FA }, &[]);
    assert_eq!(pc, Some(0x3FA));
}

#[test]
fn test_call() {
    let (mut cpu, pc) = run(Call { addr: 0x123 }, &[]);
    assert_eq!(pc, Some(0x123));
    assert_eq!(cpu.pop_stack(), 0x200);
}

#[test]
fn test_skip_eq_imm() {
    let (_, pc) = run(SkipEqImm { reg: VA, byte: 0xAB }, &[(VA, 0xAB)]);
    assert_eq!(pc, Some(0x204));

    let (_, pc) = run(SkipEqImm { reg: VA, byte: 0xAF }, &[(VA, 0xAB)]);
    assert_eq!(pc, Some(0x202));
}

#[test]
fn test_skip_neq_imm() {
    let (_, pc) = run(SkipNEqImm { reg: VA, byte: 0xAF }, &[(VA, 0xAB)]);
    assert_eq!(pc, Some(0x204));

    let (_, pc) = run(SkipNEqImm { reg: VA, byte: 0xAB }, &[(VA, 0xAB)]);
    assert_eq!(pc, Some(0x202));
}

#[test]
fn test_skip_eq_reg() {
    let (_, pc) = run(SkipEqReg { regx: V2, regy: V5 }, &[(V2, 0x21), (V5, 0x21)]);
    assert_eq!(pc, Some(0x204));

    let (_, pc) = run(SkipEqReg { regx: V2, regy: V5 }, &[(V2, 0x21), (V5, 0x22)]);
    assert_eq!(pc, Some(0x202));
}

#[test]
fn test_ld_imm() {
    let (cpu, pc) = run(LdImm { reg: VD, byte: 0xFA }, &[]);
    assert_eq!(cpu.registers[VD], 0xFA);
    assert_eq!(pc, Some(0x202));
}

#[test]
fn test_add_imm() {
    let (cpu, pc) = run(AddImm { reg: V1, byte: 0x2 }, &[(V1, 0x7)]);
    assert_eq!(cpu.registers[V1], 0x9);
    assert_eq!(pc, Some(0x202));
}

#[test]
fn test_ld_reg() {
    let (cpu, pc) = run(LdReg { regx: V3, regy: V4 }, &[(V3, 0x12), (V4, 0x34)]);
    assert_eq!(cpu.registers[V3], 0x34);
    assert_eq!(pc, Some(0x202));
}

#[test]
fn test_or() {
    let (cpu, pc) = run(Or { regx: V0, regy: V1 }, &[(V0, 0b00101001), (V1, 0b11010010)]);
    assert_eq!(cpu.registers[V0], 0b11111011);
    assert_eq!(cpu.registers[V1], 0b11010010);
    assert_eq!(pc, Some(0x202));
}

#[test]
fn test_and() {
    let (cpu, pc) = run(And { regx: V2, regy: V3 }, &[(V2, 0b01101101), (V3, 0b00101010)]);
    assert_eq!(cpu.registers[V2], 0b00101000);
    assert_eq!(cpu.registers[V3], 0b00101010);
    assert_eq!(pc, Some(0x202));
}

#[test]
fn test_xor() {
    let (cpu, pc) = run(Xor { regx: VA, regy: VB }, &[(VA, 0b11001010), (VB, 0b10100100)]);
    assert_eq!(cpu.registers[VA], 0b01101110);
    assert_eq!(cpu.registers[VB], 0b10100100);
    assert_eq!(pc, Some(0x202));
}

#[test]
fn test_add_reg() {
    let (cpu, pc) = run(AddReg { regx: V8, regy: V9 }, &[(V8, 0x40), (V9, 0x14), (VF, 0x12)]);
    assert_eq!(cpu.registers[V8], 0x54);
    assert_eq!(cpu.registers[V9], 0x14);
    assert_eq!(cpu.registers[VF], 0x00);
    assert_eq!(pc, Some(0x202));

    let (cpu, pc) = run(AddReg { regx: V8, regy: V9 }, &[(V8, 0xF0), (V9, 0x10)]);
    assert_eq!(cpu.registers[V8], 0x00);
    assert_eq!(cpu.registers[V9], 0x10);
    assert_eq!(cpu.registers[VF], 0x01);
    assert_eq!(pc, Some(0x202));
}

#[test]
fn test_sub_reg() {
    let (cpu, pc) = run(SubReg { regx: V1, regy: V2 }, &[(V1, 0x12), (V2, 0x0F)]);
    assert_eq!(cpu.registers[V1], 0x03);
    assert_eq!(cpu.registers[V2], 0x0F);
    assert_eq!(cpu.registers[VF], 0x01);
    assert_eq!(pc, Some(0x202));

    let (cpu, pc) = run(SubReg { regx: V1, regy: V2 }, &[(V1, 0x12), (V2, 0x1F)]);
    assert_eq!(cpu.registers[V1], 0xF3);
    assert_eq!(cpu.registers[V2], 0x1F);
    assert_eq!(cpu.registers[VF], 0x00);
    assert_eq!(pc, Some(0x202));
}

#[test]
fn test_shift_right() {
    let (cpu, pc) = run(Shr { regx: V0, regy: V1 }, &[(V1, 0b00100101)]);
    assert_eq!(cpu.registers[V0], 0b00010010);
    assert_eq!(cpu.registers[V1], 0b00100101);
    assert_eq!(cpu.registers[VF], 0x01);
    assert_eq!(pc, Some(0x202));

    let (cpu, pc) = run(Shr { regx: V0, regy: V1 }, &[(V1, 0b00100100), (VF, 0x12)]);
    assert_eq!(cpu.registers[V0], 0b00010010);
    assert_eq!(cpu.registers[V1], 0b00100100);
    assert_eq!(cpu.registers[VF], 0x00);
    assert_eq!(pc, Some(0x202));
}

#[test]
fn test_sub_n() {
    let (cpu, pc) = run(SubN { regx: V1, regy: V2 }, &[(V1, 0x0F), (V2, 0x12)]);
    assert_eq!(cpu.registers[V1], 0x03);
    assert_eq!(cpu.registers[V2], 0x12);
    assert_eq!(cpu.registers[VF], 0x01);
    assert_eq!(pc, Some(0x202));

    let (cpu, pc) = run(SubN { regx: V1, regy: V2 }, &[(V1, 0x1F), (V2, 0x12)]);
    assert_eq!(cpu.registers[V1], 0xF3);
    assert_eq!(cpu.registers[V2], 0x12);
    assert_eq!(cpu.registers[VF], 0x00);
    assert_eq!(pc, Some(0x202));
}

#[test]
fn test_ld_i() {
    let (cpu, pc) = run(LdI { addr: 0x2AB }, &[]);
    assert_eq!(cpu.i, 0x2AB);
    assert_eq!(pc, Some(0x202));
}

#[test]
fn test_jmp_reg() {
    let (_, pc) = run(JmpReg { addr: 0x342 }, &[(V0, 0x12)]);
    assert_eq!(pc, Some(0x354));
}

#[test]
fn test_ld_delay_timer() {
    let (cpu, pc) = run_with_delay_timer(LdDelayTimer { reg: V2 }, 0x1F);
    assert_eq!(cpu.registers[V2], 0x1F);
    assert_eq!(pc, Some(0x202));
}

#[test]
fn test_set_delay_timer() {
    let (cpu, pc) = run(SetDelayTimer { reg: V5 }, &[(V5, 0x12)]);
    assert_eq!(cpu.delay_timer, 0x12);
    assert_eq!(pc, Some(0x202));
}

#[test]
fn test_set_sound_timer() {
    let (cpu, pc) = run(SetSoundTimer { reg: VA }, &[(VA, 0x42)]);
    assert_eq!(cpu.sound_timer, 0x42);
    assert_eq!(pc, Some(0x202));
}

#[test]
fn test_add_i() {
    let (cpu, pc) = run_with_i(AddI { reg: V0 }, 0x20F, &[(V0, 0x2)]);
    assert_eq!(cpu.i, 0x211);
    assert_eq!(pc, Some(0x202));
}

#[test]
fn test_ld_font() {
    let (cpu, pc) = run(LdFont { reg: V1 }, &[(V1, 0x0A)]);
    assert_eq!(cpu.i, FONT_SPRITE_ADDR + (0x0A * 5));
    assert_eq!(pc, Some(0x202));
}

#[test]
fn test_bcd() {
    let (cpu, pc) = run_with_i(Bcd { reg: VE }, 0x300, &[(VE, 123)]);
    assert_eq!(cpu.mem.read_u8(0x300), 1);
    assert_eq!(cpu.mem.read_u8(0x301), 2);
    assert_eq!(cpu.mem.read_u8(0x302), 3);
    assert_eq!(pc, Some(0x202));
}

#[test]
fn test_store_regs() {
    let (cpu, pc) = run_with_i(
        StoreRegs { reg: V5 },
        0x300,
        &[(V0, 0x01), (V1, 0x23), (V2, 0x45), (V3, 0x67), (V4, 0x89), (V5, 0xAB)],
    );
    assert_eq!(cpu.mem.read(0x300, 6), [0x01, 0x23, 0x45, 0x67, 0x89, 0xAB]);
    assert_eq!(pc, Some(0x202));
}

#[test]
fn test_load_regs() {
    let mem = Memory::init(&[0xAB, 0xCD, 0xEF]);
    let mut cpu = Cpu::new(mem, Display::default());
    cpu.i = 0x200;
    cpu.registers[V3] = 0x12;

    let pc = cpu.execute(LoadRegs { reg: V3 });

    assert_eq!(cpu.registers[V0], 0xAB);
    assert_eq!(cpu.registers[V1], 0xCD);
    assert_eq!(cpu.registers[V2], 0xEF);
    assert_eq!(cpu.registers[V3], 0x00);
    assert_eq!(pc, Some(0x202));
}

#[test]
fn shift_left_reports_the_high_bit() {
    let (cpu, pc) = run(Shl { regx: V0, regy: V1 }, &[(V1, 0b1000_0001)]);
    assert_eq!(cpu.registers[V0], 0b0000_0010);
    assert_eq!(cpu.registers[VF], 0x01);
    assert_eq!(pc, Some(0x202));

    let (cpu, _) = run(Shl { regx: V0, regy: V1 }, &[(V1, 0b0100_0000), (VF, 0x12)]);
    assert_eq!(cpu.registers[V0], 0b1000_0000);
    assert_eq!(cpu.registers[VF], 0x00);
}

#[test]
fn shift_right_ignores_the_destination() {
    let (a, _) = run(Shr { regx: V0, regy: V1 }, &[(V0, 0x00), (V1, 0x0F)]);
    let (b, _) = run(Shr { regx: V0, regy: V1 }, &[(V0, 0xFF), (V1, 0x0F)]);
    assert_eq!(a.registers, b.registers);
    assert_eq!(a.registers[V0], 0x07);
    assert_eq!(a.registers[VF], 0x01);
}

#[test]
fn sub_reg_equal_operands_clear_the_flag() {
    let (cpu, _) = run(SubReg { regx: V1, regy: V2 }, &[(V1, 0x12), (V2, 0x12), (VF, 0x07)]);
    assert_eq!(cpu.registers[V1], 0x00);
    assert_eq!(cpu.registers[VF], 0x00);
}

#[test]
fn add_reg_at_exactly_256_carries() {
    let (cpu, _) = run(AddReg { regx: V0, regy: V1 }, &[(V0, 0xFF), (V1, 0x01)]);
    assert_eq!(cpu.registers[V0], 0x00);
    assert_eq!(cpu.registers[VF], 0x01);
}

#[test]
fn jmp_to_itself_halts() {
    let (cpu, pc) = run(Jmp { addr: 0x200 }, &[]);
    assert_eq!(pc, None);
    assert_eq!(cpu.pc, 0x200);
}

#[test]
fn store_then_load_restores_registers() {
    let regs = [(V0, 0x11), (V1, 0x22), (V2, 0x33), (V3, 0x44), (V4, 0x55)];
    let (mut cpu, _) = run_with_i(StoreRegs { reg: V3 }, 0x400, &regs);
    assert_eq!(cpu.mem.read(0x400, 5), [0x11, 0x22, 0x33, 0x44, 0x00]);
    let saved = cpu.registers;
    for r in [V0, V1, V2, V3] {
        cpu.registers[r] = 0;
    }
    cpu.execute(LoadRegs { reg: V3 });
    assert_eq!(cpu.registers, saved);
}

#[test]
fn skip_not_equal_registers() {
    let (_, pc) = run(SkipNEqReg { regx: V2, regy: V5 }, &[(V2, 0x21), (V5, 0x22)]);
    assert_eq!(pc, Some(0x204));
    let (_, pc) = run(SkipNEqReg { regx: V2, regy: V5 }, &[(V2, 0x21), (V5, 0x21)]);
    assert_eq!(pc, Some(0x202));
}

#[test]
fn draw_reports_collision_in_the_flag() {
    let (mut cpu, pc) = run_with_i(Drw { regx: V0, regy: V1, len: 1 }, FONT_SPRITE_ADDR, &[(V0, 3), (V1, 4)]);
    assert_eq!(pc, Some(0x202));
    assert_eq!(cpu.registers[VF], 0);
    let lit: Vec<usize> = (0..2048).filter(|i| cpu.display.get_pixels()[*i]).collect();
    assert_eq!(lit, vec![4 * 64 + 3, 4 * 64 + 4, 4 * 64 + 5, 4 * 64 + 6]);
    cpu.execute(Drw { regx: V0, regy: V1, len: 1 });
    assert_eq!(cpu.registers[VF], 1);
    assert!(cpu.display.get_pixels().iter().all(|p| !*p));
}

#[test]
fn reset_restores_counters_and_clears_screen() {
    let (mut cpu, _) = run(Call { addr: 0x300 }, &[]);
    cpu.display.draw_sprite(0, 0, &[0xFF]);
    cpu.reset();
    assert_eq!(cpu.pc, 0x200);
    assert_eq!(cpu.sp, 0x1FE);
    assert!(cpu.display.get_pixels().iter().all(|p| !*p));
}
