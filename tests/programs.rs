use rvemu::cpu::{Cpu, ProgState};
use rvemu::error::{Error, FormatError};
use rvemu::memory::MEM_SIZE;

fn image(words: &[u32]) -> Vec<u8> {
    let mut bytes = Vec::new();
    for w in words {
        bytes.extend_from_slice(&w.to_le_bytes());
    }
    bytes
}

fn addi(rd: u32, rs1: u32, imm: i32) -> u32 {
    (((imm as u32) & 0xfff) << 20) | (rs1 << 15) | (rd << 7) | 0x13
}

fn add(rd: u32, rs1: u32, rs2: u32) -> u32 {
    (rs2 << 20) | (rs1 << 15) | (rd << 7) | 0x33
}

const ECALL: u32 = 0x0000_0073;

#[test]
fn exit_with_code() {
    let mut cpu = Cpu::new(false);
    let r = cpu.run(image(&[addi(17, 0, 93), addi(10, 0, 7), ECALL]));
    assert!(matches!(r, Ok(7)));
}

#[test]
fn arithmetic_program() {
    let mut cpu = Cpu::new(false);
    let program = image(&[
        addi(5, 0, 10),
        addi(6, 0, -3),
        add(7, 5, 6),
        addi(17, 0, 93),
        add(10, 0, 7),
        ECALL,
    ]);
    let r = cpu.run(program);
    assert!(matches!(r, Ok(7)));
    assert_eq!(cpu.regs.read(7), 7);
    assert_eq!(cpu.regs.read(6), 0xffff_fffd);
}

#[test]
fn exit_code_is_low_byte() {
    let mut cpu = Cpu::new(false);
    let r = cpu.run(image(&[addi(17, 0, 93), addi(10, 0, 0x7ff), add(10, 10, 10), ECALL]));
    assert!(matches!(r, Ok(0xfe)));
}

#[test]
fn other_syscall_and_fence_are_nops() {
    let mut cpu = Cpu::new(false);
    let fence = 0x0ff0_000f;
    let r = cpu.run(image(&[ECALL, fence, addi(17, 0, 93), addi(10, 0, 3), ECALL]));
    assert!(matches!(r, Ok(3)));
}

#[test]
fn empty_program_ends() {
    let mut cpu = Cpu::new(false);
    let r = cpu.run(Vec::new());
    assert!(matches!(r, Err(Error::EndOfInstructions)));
    assert_eq!(cpu.pc.get(), 4);
}

#[test]
fn unknown_opcode() {
    let mut cpu = Cpu::new(false);
    let r = cpu.run(image(&[0x0000_007f]));
    assert!(matches!(r, Err(Error::InvalidOpcode(0x7f))));
}

#[test]
fn unknown_r_funct7() {
    let mut cpu = Cpu::new(false);
    // mul x0, x0, x0: funct7 = 1 belongs to an extension
    let r = cpu.run(image(&[0x0200_0033]));
    match r {
        Err(Error::InvalidInstFormat(FormatError::R(f))) => {
            assert_eq!(f.funct7, 1);
            assert_eq!(f.funct3, 0);
        },
        _ => panic!("expected an R format error"),
    }
}

#[test]
fn unknown_load_funct3() {
    let mut cpu = Cpu::new(false);
    let r = cpu.run(image(&[0x0000_7003]));
    assert!(matches!(r, Err(Error::InvalidInstFormat(FormatError::I(f))) if f.funct3 == 7));
}

#[test]
fn jalr_with_nonzero_funct3() {
    let mut cpu = Cpu::new(false);
    let r = cpu.run(image(&[0x0000_1067]));
    assert!(matches!(r, Err(Error::InvalidInstFormat(FormatError::I(f))) if f.funct3 == 1));
}

#[test]
fn unknown_store_and_branch_funct3() {
    let mut cpu = Cpu::new(false);
    let r = cpu.run(image(&[0x0000_3023]));
    assert!(matches!(r, Err(Error::InvalidInstFormat(FormatError::S(f))) if f.funct3 == 3));
    let mut cpu = Cpu::new(false);
    let r = cpu.run(image(&[0x0000_2063]));
    assert!(matches!(r, Err(Error::InvalidInstFormat(FormatError::B(f))) if f.funct3 == 2));
}

#[test]
fn jump_past_memory() {
    let mut cpu = Cpu::new(false);
    // lui x5, 0x20; jalr x0, x5, 0
    let r = cpu.run(image(&[0x0002_02b7, 0x0002_8067]));
    assert!(matches!(r, Err(Error::InvalidPC(0x20000, MEM_SIZE))));
}

#[test]
fn load_past_memory() {
    let mut cpu = Cpu::new(false);
    // lui x5, 0x20; lw x6, 0(x5)
    let r = cpu.run(image(&[0x0002_02b7, 0x0002_a303]));
    assert!(matches!(r, Err(Error::InvalidAddress(0x20000, MEM_SIZE))));
}

#[test]
fn cycle_advances_pc_by_four() {
    let mut cpu = Cpu::new(false);
    cpu.mem.load_program(image(&[addi(5, 0, 1), addi(6, 0, 2)]));
    assert!(matches!(cpu.emulate_cycle(), Ok(ProgState::Continue)));
    assert_eq!(cpu.pc.get(), 4);
    assert!(matches!(cpu.emulate_cycle(), Ok(ProgState::Continue)));
    assert_eq!(cpu.pc.get(), 8);
    assert_eq!(cpu.regs.read(5), 1);
    assert_eq!(cpu.regs.read(6), 2);
}

#[test]
fn jal_jumps_relative_to_itself() {
    let mut cpu = Cpu::new(false);
    // 0: jal x1, 12   4: addi x10, x0, 1   8: ecall   12: addi x17, x0, 93   16: jal x0, -12
    let jal_12 = (6 << 21) | (1 << 7) | 0x6f;
    let jal_back = 0xff5f_f06f;
    let r = cpu.run(image(&[jal_12, addi(10, 0, 1), ECALL, addi(17, 0, 93), jal_back]));
    assert!(matches!(r, Ok(1)));
    assert_eq!(cpu.regs.read(1), 4);
}

#[test]
fn stack_pointer_starts_at_top() {
    let cpu = Cpu::new(true);
    assert_eq!(cpu.regs.read(2), MEM_SIZE as u32);
    assert_eq!(cpu.pc.get(), 0);
    assert!(cpu.print_debug);
}
