use rvemu::cpu::Cpu;
use rvemu::inst::{IInst, Inst, SInst, UInst};
use rvemu::inst_format::{IFormat, SFormat, UFormat};
use rvemu::memory::Size;

#[test]
fn store_byte() {
    let mut cpu = Cpu::new(false);
    cpu.regs.write(28, 12);
    // mem[0 + 3] = 12[0:7]
    let inst = Inst::S(
        SInst::SB,
        SFormat {
            funct3: 0x0,
            rs1: 0,
            rs2: 28,
            imm: 3,
        },
    );
    inst.execute(&mut cpu);
    assert_eq!(cpu.mem.read(3, Size::Byte, true), 12)
}

#[test]
fn lui() {
    let mut cpu = Cpu::new(false);

    let inst = Inst::U(UInst::LUI, UFormat { rd: 10, imm: 1 });
    inst.execute(&mut cpu);
    assert_eq!(cpu.regs.read(10), 4096);

    let inst = Inst::U(UInst::LUI, UFormat { rd: 10, imm: 3 });
    inst.execute(&mut cpu);
    assert_eq!(cpu.regs.read(10), 12288);

    let inst = Inst::U(UInst::LUI, UFormat { rd: 10, imm: 0x100 });
    inst.execute(&mut cpu);
    assert_eq!(cpu.regs.read(10), 1048576);
}

#[test]
fn lui_max() {
    let mut cpu = Cpu::new(false);
    let inst = Inst::U(
        UInst::LUI,
        UFormat {
            rd: 10,
            imm: 0b1111_1111_1111_1111,
        },
    );
    inst.execute(&mut cpu);
    assert_eq!(cpu.regs.read(10), 0b1111_1111_1111_1111_0000_0000_0000);
}

#[test]
fn long_jump() {
    // auipc x5, 0x03000
    // jalr x10, x5, -0x400
    let mut cpu = Cpu::new(false);
    cpu.pc.set(0x40000004);
    let auipc_inst = Inst::U(UInst::AUIPC, UFormat { rd: 5, imm: 0x3000 });
    // rd = pc - 4 + (imm << 12) = 0x40000000 + 0x3000000
    auipc_inst.execute(&mut cpu);
    assert_eq!(cpu.regs.read(5), 0x43000000);

    // no fetch here, so advance the pc by hand
    cpu.pc.set(cpu.pc.get() + 4);

    // rd = pc; pc = rs1 + imm
    let jalr_inst = Inst::I(
        IInst::Jalr,
        IFormat {
            rd: 10,
            funct3: 0,
            rs1: 5,
            imm: -0x400i32 as u32,
        },
    );
    jalr_inst.execute(&mut cpu);
    assert_eq!(cpu.regs.read(10), 0x40000008);
    assert_eq!(cpu.pc.get(), 0x42fffc00);
}
