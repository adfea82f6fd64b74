use rvemu::cpu::Cpu;
use rvemu::inst::{ArithIInst, BInst, IInst, Inst, LoadIInst, RInst};
use rvemu::inst_format::{BFormat, IFormat, JFormat, RFormat, SFormat, UFormat};
use rvemu::memory::{Memory, Size, MEM_SIZE};
use rvemu::pc::ProgramCounter;
use rvemu::regs::Registers;

#[test]
fn register_zero_ignores_writes() {
    let mut regs = Registers::new();
    regs.write(0, 0xdead_beef);
    assert_eq!(regs.read(0), 0);
    regs.write(31, 5);
    assert_eq!(regs.read(31), 5);
}

#[test]
fn register_zero_stays_zero_when_executed_into() {
    let mut cpu = Cpu::new(false);
    let inst = Inst::I(
        IInst::Arith(ArithIInst::ADDI),
        IFormat { rd: 0, funct3: 0, rs1: 0, imm: 42 },
    );
    inst.execute(&mut cpu);
    assert_eq!(cpu.regs.read(0), 0);
}

#[test]
fn word_round_trip() {
    let mut mem = Memory::new();
    mem.write(0x40, Size::Word, 0xcafe_babe);
    assert_eq!(mem.read(0x40, Size::Word, true), 0xcafe_babe);
    mem.write((MEM_SIZE - 4) as u32, Size::Word, 0x8000_0001);
    assert_eq!(mem.read((MEM_SIZE - 4) as u32, Size::Word, false), 0x8000_0001);
}

#[test]
fn byte_round_trip() {
    let mut mem = Memory::new();
    mem.write((MEM_SIZE - 1) as u32, Size::Byte, 0x1234_56f0);
    assert_eq!(mem.read((MEM_SIZE - 1) as u32, Size::Byte, true), 0xf0);
    assert_eq!(mem.read((MEM_SIZE - 1) as u32, Size::Byte, false), 0xffff_fff0);
    mem.write(7, Size::Byte, 0x7f);
    assert_eq!(mem.read(7, Size::Byte, false), 0x7f);
}

#[test]
fn halfword_extension() {
    let mut mem = Memory::new();
    mem.write(10, Size::HalfWord, 0xabcd_8001);
    assert_eq!(mem.read(10, Size::HalfWord, true), 0x8001);
    assert_eq!(mem.read(10, Size::HalfWord, false), 0xffff_8001);
    assert_eq!(mem.read(12, Size::Byte, true), 0);
}

#[test]
fn little_endian_layout() {
    let mut mem = Memory::new();
    mem.write(0x21, Size::Word, 0x12345678);
    assert_eq!(mem.read(0x21, Size::Byte, true), 0x78);
    assert_eq!(mem.read(0x22, Size::Byte, true), 0x56);
    assert_eq!(mem.read(0x23, Size::Byte, true), 0x34);
    assert_eq!(mem.read(0x24, Size::Byte, true), 0x12);
}

#[test]
fn load_program_zeroes_the_rest() {
    let mut mem = Memory::new();
    mem.write(8, Size::Word, 0xffff_ffff);
    mem.load_program(vec![1, 2, 3]);
    assert_eq!(mem.read(0, Size::Word, true), 0x0003_0201);
    assert_eq!(mem.read(8, Size::Word, true), 0);
}

#[test]
fn shift_amount_is_masked() {
    for op in [RInst::SLL, RInst::SRL, RInst::SRA] {
        for s in [0u32, 1, 5, 31, 32, 33, 63, 0xffff_ffe1] {
            assert_eq!(op.op(0x8000_00f1, s), op.op(0x8000_00f1, s & 0x1f));
        }
    }
    assert_eq!(RInst::SLL.op(1, 33), 2);
    assert_eq!(RInst::SRL.op(0x8000_0000, 33), 0x4000_0000);
    assert_eq!(RInst::SRA.op(0x8000_0000, 33), 0xc000_0000);
    assert_eq!(RInst::SRA.op(0x4000_0000, 1), 0x2000_0000);
}

#[test]
fn alu_results() {
    assert_eq!(RInst::SUB.op(3, 5), 0xffff_fffe);
    assert_eq!(RInst::XOR.op(0b1100, 0b1010), 0b0110);
    assert_eq!(RInst::OR.op(0b1100, 0b1010), 0b1110);
    assert_eq!(RInst::AND.op(0b1100, 0b1010), 0b1000);
    assert_eq!(RInst::SLT.op(0xffff_ffff, 1), 1);
    assert_eq!(RInst::SLT.op(1, 0xffff_ffff), 0);
    assert_eq!(RInst::SLTU.op(0xffff_ffff, 1), 0);
    assert_eq!(RInst::SLTU.op(1, 0xffff_ffff), 1);
}

#[test]
fn add_wraps_on_overflow() {
    assert_eq!(RInst::ADD.op(0xffff_ffff, 2), 1);
    let mut cpu = Cpu::new(false);
    cpu.regs.write(5, 0x8000_0000);
    cpu.regs.write(6, 0x8000_0003);
    Inst::R(RInst::ADD, RFormat { rd: 7, funct3: 0, rs1: 5, rs2: 6, funct7: 0 }).execute(&mut cpu);
    assert_eq!(cpu.regs.read(7), 3);
    Inst::I(
        IInst::Arith(ArithIInst::ADDI),
        IFormat { rd: 8, funct3: 0, rs1: 6, imm: 0x7fff_fffe },
    )
    .execute(&mut cpu);
    assert_eq!(cpu.regs.read(8), 1);
}

#[test]
fn branch_taken_and_not_taken() {
    // BEQ x1, x2, 16 at address 0x20; the pc is already past it
    let beq = BFormat::new(0x0020_8863);
    assert_eq!(beq.imm, 16);
    assert_eq!((beq.rs1, beq.rs2, beq.funct3), (1, 2, 0));

    let mut cpu = Cpu::new(false);
    cpu.regs.write(1, 5);
    cpu.regs.write(2, 6);
    cpu.pc.set(0x24);
    Inst::B(BInst::BEQ, beq).execute(&mut cpu);
    assert_eq!(cpu.pc.get(), 0x24);

    cpu.regs.write(2, 5);
    Inst::B(BInst::BEQ, beq).execute(&mut cpu);
    assert_eq!(cpu.pc.get(), 0x20 + 16);
}

#[test]
fn signed_and_unsigned_branches() {
    let f = BFormat { funct3: 0, rs1: 1, rs2: 2, imm: 8 };
    let mut cpu = Cpu::new(false);
    cpu.regs.write(1, 0xffff_ffff);
    cpu.regs.write(2, 1);
    cpu.pc.set(0x104);
    Inst::B(BInst::BLT, f).execute(&mut cpu);
    assert_eq!(cpu.pc.get(), 0x108);
    Inst::B(BInst::BLTU, f).execute(&mut cpu);
    assert_eq!(cpu.pc.get(), 0x108);
    Inst::B(BInst::BGEU, f).execute(&mut cpu);
    assert_eq!(cpu.pc.get(), 0x10c);
    Inst::B(BInst::BGE, f).execute(&mut cpu);
    assert_eq!(cpu.pc.get(), 0x10c);
    Inst::B(BInst::BNE, f).execute(&mut cpu);
    assert_eq!(cpu.pc.get(), 0x110);
}

#[test]
fn load_sign_and_zero_extension() {
    let mut cpu = Cpu::new(false);
    cpu.mem.write(0x100, Size::Byte, 0xff);
    let f = IFormat { rd: 5, funct3: 0, rs1: 0, imm: 0x100 };
    Inst::I(IInst::Mem(LoadIInst::LB), f).execute(&mut cpu);
    assert_eq!(cpu.regs.read(5), 0xffff_ffff);
    Inst::I(IInst::Mem(LoadIInst::LBU), f).execute(&mut cpu);
    assert_eq!(cpu.regs.read(5), 0x0000_00ff);
    Inst::I(IInst::Mem(LoadIInst::LH), f).execute(&mut cpu);
    assert_eq!(cpu.regs.read(5), 0x0000_00ff);
}

#[test]
fn immediates_are_reconstructed() {
    // addi x1, x2, -1
    let i = IFormat::new(0xfff1_0093);
    assert_eq!((i.rd, i.rs1, i.funct3, i.imm), (1, 2, 0, 0xffff_ffff));
    // sw x5, -4(x2)
    let s = SFormat::new(0xfe51_2e23);
    assert_eq!((s.rs1, s.rs2, s.funct3, s.imm), (2, 5, 2, 0xffff_fffc));
    // jal x0, -12
    let j = JFormat::new(0xff5f_f06f);
    assert_eq!((j.rd, j.imm), (0, 0xffff_fff4));
    // lui x5, 0x80000
    let u = UFormat::new(0x8000_02b7);
    assert_eq!((u.rd, u.imm), (5, 0xfff8_0000));
    // sub x3, x1, x2
    let r = RFormat::new(0x4020_81b3);
    assert_eq!((r.rd, r.rs1, r.rs2, r.funct3, r.funct7), (3, 1, 2, 0, 0x20));
}

#[test]
fn pc_increment_checks_bounds() {
    let mut pc = ProgramCounter::new();
    pc.set((MEM_SIZE - 4) as u32);
    assert!(matches!(pc.inc(), Ok(x) if x == (MEM_SIZE - 4) as u32));
    assert_eq!(pc.get(), MEM_SIZE as u32);
    assert!(pc.inc().is_err());
    assert_eq!(pc.get(), MEM_SIZE as u32 + 4);
    pc.set(0xffff_fffe);
    assert!(pc.inc().is_err());
    assert_eq!(pc.get(), 2);
}
