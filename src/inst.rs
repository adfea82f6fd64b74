//! Typed instructions and their execution.
use vstd::prelude::*;

use crate::cpu::{Cpu, CpuState};
use crate::inst_format::{BFormat, IFormat, JFormat, RFormat, SFormat, UFormat};
use crate::memory::{read_spec, write_spec, Memory, Size, MEM_SIZE};
use crate::pc::{add_wrapping, sub_wrapping, wadd, wsub};
use crate::regs::{reg, Registers};

verus! {

/// A decoded instruction: the operation kind and its field layout.
#[derive(Clone, Copy, Debug)]
pub enum Inst {
    /// Register-register operations.
    R(RInst, RFormat),
    /// Operations with an immediate, loads and JALR.
    I(IInst, IFormat),
    /// Stores.
    S(SInst, SFormat),
    /// Conditional branches.
    B(BInst, BFormat),
    /// JAL.
    J(JFormat),
    /// LUI and AUIPC.
    U(UInst, UFormat),
    /// An environment call or a fence.
    SysCall(SysCall),
}

/// The effect of an environment call: only exit is observable.
#[derive(Clone, Copy, Debug)]
pub enum SysCall {
    Exit(u8),
    Nop,
}

/// The value of the two's-complement word `a`.
pub open spec fn signed(a: u32) -> int {
    if a < 0x8000_0000 {
        a as int
    } else {
        a - 0x1_0000_0000
    }
}

/// Whether `a < b` as signed words.
pub fn lt_signed(a: u32, b: u32) -> (r: bool)
    ensures
        r == (signed(a) < signed(b)),
{
    if (a < 0x8000_0000) == (b < 0x8000_0000) {
        a < b
    } else {
        b < 0x8000_0000
    }
}

/// Arithmetic right shift of `a` by `s`: the sign bit fills the vacated bits.
pub open spec fn sra(a: u32, s: u32) -> u32 {
    if a >> 31u32 == 0 {
        a >> s
    } else {
        !((!a) >> s)
    }
}

proof fn lemma_shift_amount(b: u32)
    ensures
        b & 0x1f < 32,
{
    assert(b & 0x1f < 32) by (bit_vector);
}

/// A shift by `s` equals the shift by the low five bits of `s`.
pub proof fn lemma_shift_masking(op: RInst, a: u32, s: u32)
    requires
        op is SLL || op is SRL || op is SRA,
    ensures
        op.spec_op(a, s) == op.spec_op(a, s & 0x1f),
{
    assert((s & 0x1f) & 0x1f == s & 0x1f) by (bit_vector);
}

/// Register-register operations; the same operations serve the
/// immediate forms.
#[derive(Clone, Copy, Debug)]
pub enum RInst {
    ADD,
    SUB,
    XOR,
    OR,
    AND,
    SLL,
    SRL,
    SRA,
    SLT,
    SLTU,
}

impl RInst {
    /// The result of the operation on `a` and `b`. Shifts use only the low
    /// five bits of `b`.
    pub open spec fn spec_op(self, a: u32, b: u32) -> u32 {
        match self {
            RInst::ADD => wadd(a, b),
            RInst::SUB => wsub(a, b),
            RInst::XOR => a ^ b,
            RInst::OR => a | b,
            RInst::AND => a & b,
            RInst::SLL => a << (b & 0x1f),
            RInst::SRL => a >> (b & 0x1f),
            RInst::SRA => sra(a, b & 0x1f),
            RInst::SLT => if signed(a) < signed(b) {
                1
            } else {
                0
            },
            RInst::SLTU => if a < b {
                1
            } else {
                0
            },
        }
    }

    pub fn op(self, rs1: u32, rs2: u32) -> (r: u32)
        ensures
            r == self.spec_op(rs1, rs2),
    {
        proof {
            lemma_shift_amount(rs2);
        }
        match self {
            RInst::ADD => add_wrapping(rs1, rs2),
            RInst::SUB => sub_wrapping(rs1, rs2),
            RInst::XOR => rs1 ^ rs2,
            RInst::OR => rs1 | rs2,
            RInst::AND => rs1 & rs2,
            RInst::SLL => rs1 << (rs2 & 0x1f),
            RInst::SRL => rs1 >> (rs2 & 0x1f),
            RInst::SRA => {
                let amount = rs2 & 0x1f;
                if rs1 >> 31u32 == 0 {
                    rs1 >> amount
                } else {
                    !((!rs1) >> amount)
                }
            },
            RInst::SLT => if lt_signed(rs1, rs2) {
                1
            } else {
                0
            },
            RInst::SLTU => if rs1 < rs2 {
                1
            } else {
                0
            },
        }
    }

    /// The operation that funct3 / funct7 select under the R opcode.
    pub open spec fn spec_decode(funct3: usize, funct7: usize) -> Option<RInst> {
        if funct3 == 0 && funct7 == 0 {
            Some(RInst::ADD)
        } else if funct3 == 0 && funct7 == 0x20 {
            Some(RInst::SUB)
        } else if funct3 == 4 && funct7 == 0 {
            Some(RInst::XOR)
        } else if funct3 == 6 && funct7 == 0 {
            Some(RInst::OR)
        } else if funct3 == 7 && funct7 == 0 {
            Some(RInst::AND)
        } else if funct3 == 1 && funct7 == 0 {
            Some(RInst::SLL)
        } else if funct3 == 5 && funct7 == 0 {
            Some(RInst::SRL)
        } else if funct3 == 5 && funct7 == 0x20 {
            Some(RInst::SRA)
        } else if funct3 == 2 && funct7 == 0 {
            Some(RInst::SLT)
        } else if funct3 == 3 && funct7 == 0 {
            Some(RInst::SLTU)
        } else {
            None
        }
    }

    pub fn decode(funct3: usize, funct7: usize) -> (r: Option<RInst>)
        ensures
            r == Self::spec_decode(funct3, funct7),
    {
        match (funct3, funct7) {
            (0, 0) => Some(RInst::ADD),
            (0, 0x20) => Some(RInst::SUB),
            (4, 0) => Some(RInst::XOR),
            (6, 0) => Some(RInst::OR),
            (7, 0) => Some(RInst::AND),
            (1, 0) => Some(RInst::SLL),
            (5, 0) => Some(RInst::SRL),
            (5, 0x20) => Some(RInst::SRA),
            (2, 0) => Some(RInst::SLT),
            (3, 0) => Some(RInst::SLTU),
            _ => None,
        }
    }
}

/// Arithmetic with an immediate: the R operation of the same name, with the
/// immediate as second operand.
#[derive(Clone, Copy, Debug)]
pub enum ArithIInst {
    ADDI,
    XORI,
    ORI,
    ANDI,
    SLLI,
    SRLI,
    SRAI,
    SLTI,
    SLTIU,
}

impl ArithIInst {
    pub open spec fn spec_rinst(self) -> RInst {
        match self {
            ArithIInst::ADDI => RInst::ADD,
            ArithIInst::XORI => RInst::XOR,
            ArithIInst::ORI => RInst::OR,
            ArithIInst::ANDI => RInst::AND,
            ArithIInst::SLLI => RInst::SLL,
            ArithIInst::SRLI => RInst::SRL,
            ArithIInst::SRAI => RInst::SRA,
            ArithIInst::SLTI => RInst::SLT,
            ArithIInst::SLTIU => RInst::SLTU,
        }
    }

    /// The register-register operation this one performs.
    pub fn rinst(self) -> (r: RInst)
        ensures
            r == self.spec_rinst(),
    {
        match self {
            ArithIInst::ADDI => RInst::ADD,
            ArithIInst::XORI => RInst::XOR,
            ArithIInst::ORI => RInst::OR,
            ArithIInst::ANDI => RInst::AND,
            ArithIInst::SLLI => RInst::SLL,
            ArithIInst::SRLI => RInst::SRL,
            ArithIInst::SRAI => RInst::SRA,
            ArithIInst::SLTI => RInst::SLT,
            ArithIInst::SLTIU => RInst::SLTU,
        }
    }

    /// The operation that funct3 and bits 5..=11 of the immediate select.
    pub open spec fn spec_decode(funct3: usize, upper_imm: u32) -> Option<ArithIInst> {
        if funct3 == 0 {
            Some(ArithIInst::ADDI)
        } else if funct3 == 4 {
            Some(ArithIInst::XORI)
        } else if funct3 == 6 {
            Some(ArithIInst::ORI)
        } else if funct3 == 7 {
            Some(ArithIInst::ANDI)
        } else if funct3 == 1 && upper_imm == 0 {
            Some(ArithIInst::SLLI)
        } else if funct3 == 5 && upper_imm == 0 {
            Some(ArithIInst::SRLI)
        } else if funct3 == 5 && upper_imm == 0x20 {
            Some(ArithIInst::SRAI)
        } else if funct3 == 2 {
            Some(ArithIInst::SLTI)
        } else if funct3 == 3 {
            Some(ArithIInst::SLTIU)
        } else {
            None
        }
    }

    pub fn decode(funct3: usize, upper_imm: u32) -> (r: Option<ArithIInst>)
        ensures
            r == Self::spec_decode(funct3, upper_imm),
    {
        match (funct3, upper_imm) {
            (0, _) => Some(ArithIInst::ADDI),
            (4, _) => Some(ArithIInst::XORI),
            (6, _) => Some(ArithIInst::ORI),
            (7, _) => Some(ArithIInst::ANDI),
            (1, 0) => Some(ArithIInst::SLLI),
            (5, 0) => Some(ArithIInst::SRLI),
            (5, 0x20) => Some(ArithIInst::SRAI),
            (2, _) => Some(ArithIInst::SLTI),
            (3, _) => Some(ArithIInst::SLTIU),
            _ => None,
        }
    }
}

/// Loads.
#[derive(Clone, Copy, Debug)]
pub enum LoadIInst {
    LB,
    LH,
    LW,
    LBU,
    LHU,
}

impl LoadIInst {
    pub open spec fn spec_is_unsigned(self) -> bool {
        self is LBU || self is LHU
    }

    pub open spec fn spec_size(self) -> Size {
        match self {
            LoadIInst::LB | LoadIInst::LBU => Size::Byte,
            LoadIInst::LH | LoadIInst::LHU => Size::HalfWord,
            LoadIInst::LW => Size::Word,
        }
    }

    /// Whether the loaded value is zero-extended rather than sign-extended.
    pub fn is_unsigned(&self) -> (r: bool)
        ensures
            r == self.spec_is_unsigned(),
    {
        matches!(self, LoadIInst::LBU | LoadIInst::LHU)
    }

    pub fn size(&self) -> (r: Size)
        ensures
            r == self.spec_size(),
    {
        match self {
            LoadIInst::LB | LoadIInst::LBU => Size::Byte,
            LoadIInst::LH | LoadIInst::LHU => Size::HalfWord,
            LoadIInst::LW => Size::Word,
        }
    }

    /// Loads from address `rs1 + imm` (wrapping).
    pub fn op(self, mem: &Memory, rs1: u32, imm: u32) -> (r: u32)
        requires
            mem.wf(),
            wadd(rs1, imm) + self.spec_size().spec_len() <= MEM_SIZE,
        ensures
            r == read_spec(mem@, wadd(rs1, imm) as int, self.spec_size(), self.spec_is_unsigned()),
    {
        let from = add_wrapping(rs1, imm);
        let is_unsigned = self.is_unsigned();
        let size = self.size();
        mem.read(from, size, is_unsigned)
    }

    pub open spec fn spec_decode(funct3: usize) -> Option<LoadIInst> {
        if funct3 == 0 {
            Some(LoadIInst::LB)
        } else if funct3 == 1 {
            Some(LoadIInst::LH)
        } else if funct3 == 2 {
            Some(LoadIInst::LW)
        } else if funct3 == 4 {
            Some(LoadIInst::LBU)
        } else if funct3 == 5 {
            Some(LoadIInst::LHU)
        } else {
            None
        }
    }

    pub fn decode(funct3: usize) -> (r: Option<LoadIInst>)
        ensures
            r == Self::spec_decode(funct3),
    {
        match funct3 {
            0 => Some(LoadIInst::LB),
            1 => Some(LoadIInst::LH),
            2 => Some(LoadIInst::LW),
            4 => Some(LoadIInst::LBU),
            5 => Some(LoadIInst::LHU),
            _ => None,
        }
    }
}

/// The operations of the I layout.
#[derive(Clone, Copy, Debug)]
pub enum IInst {
    Arith(ArithIInst),
    Mem(LoadIInst),
    /// Jump and link register: `rd = pc; pc = rs1 + imm`.
    Jalr,
}

impl IInst {
    /// The value an I instruction writes to `rd`, in state `s`, given the
    /// value of `rs1` and the immediate.
    pub open spec fn spec_value(self, s: CpuState, rs1: u32, imm: u32) -> u32 {
        match self {
            IInst::Arith(op) => op.spec_rinst().spec_op(rs1, imm),
            IInst::Mem(op) => read_spec(
                s.mem,
                wadd(rs1, imm) as int,
                op.spec_size(),
                op.spec_is_unsigned(),
            ),
            IInst::Jalr => s.pc,
        }
    }

    /// Computes the value for `rd`; JALR also sets the program counter.
    pub fn op(self, cpu: &mut Cpu, rs1: u32, imm: u32) -> (r: u32)
        requires
            old(cpu).wf(),
            self matches IInst::Mem(op) ==> wadd(rs1, imm) + op.spec_size().spec_len() <= MEM_SIZE,
        ensures
            final(cpu).wf(),
            r == self.spec_value(old(cpu)@, rs1, imm),
            final(cpu)@ == (if self is Jalr {
                old(cpu)@.with_pc(wadd(rs1, imm))
            } else {
                old(cpu)@
            }),
    {
        match self {
            IInst::Arith(inst) => inst.rinst().op(rs1, imm),
            IInst::Mem(inst) => inst.op(&cpu.mem, rs1, imm),
            IInst::Jalr => {
                let original_pc = cpu.pc.get();
                cpu.pc.set(add_wrapping(rs1, imm));
                original_pc
            },
        }
    }
}

/// Stores.
#[derive(Clone, Copy, Debug)]
pub enum SInst {
    SB,
    SH,
    SW,
}

impl SInst {
    pub open spec fn spec_size(self) -> Size {
        match self {
            SInst::SB => Size::Byte,
            SInst::SH => Size::HalfWord,
            SInst::SW => Size::Word,
        }
    }

    pub fn size(&self) -> (r: Size)
        ensures
            r == self.spec_size(),
    {
        match self {
            SInst::SB => Size::Byte,
            SInst::SH => Size::HalfWord,
            SInst::SW => Size::Word,
        }
    }

    /// Stores the low bytes of `rs2` at `rs1 + imm` (wrapping).
    pub fn op(self, mem: &mut Memory, rs1: u32, rs2: u32, imm: u32)
        requires
            old(mem).wf(),
            wadd(rs1, imm) + self.spec_size().spec_len() <= MEM_SIZE,
        ensures
            final(mem).wf(),
            final(mem)@ == write_spec(old(mem)@, wadd(rs1, imm) as int, self.spec_size(), rs2),
    {
        let from = add_wrapping(rs1, imm);
        let size = self.size();
        mem.write(from, size, rs2)
    }

    pub open spec fn spec_decode(funct3: usize) -> Option<SInst> {
        if funct3 == 0 {
            Some(SInst::SB)
        } else if funct3 == 1 {
            Some(SInst::SH)
        } else if funct3 == 2 {
            Some(SInst::SW)
        } else {
            None
        }
    }

    pub fn decode(funct3: usize) -> (r: Option<SInst>)
        ensures
            r == Self::spec_decode(funct3),
    {
        match funct3 {
            0 => Some(SInst::SB),
            1 => Some(SInst::SH),
            2 => Some(SInst::SW),
            _ => None,
        }
    }
}

/// Conditional branches.
#[derive(Clone, Copy, Debug)]
pub enum BInst {
    BEQ,
    BNE,
    BLT,
    BLTU,
    BGE,
    BGEU,
}

impl BInst {
    /// Whether the branch is taken for operands `a` and `b`.
    pub open spec fn spec_taken(self, a: u32, b: u32) -> bool {
        match self {
            BInst::BEQ => a == b,
            BInst::BNE => a != b,
            BInst::BLT => signed(a) < signed(b),
            BInst::BLTU => a < b,
            BInst::BGE => signed(a) >= signed(b),
            BInst::BGEU => a >= b,
        }
    }

    pub fn taken(&self, a: u32, b: u32) -> (r: bool)
        ensures
            r == self.spec_taken(a, b),
    {
        match self {
            BInst::BEQ => a == b,
            BInst::BNE => a != b,
            BInst::BLT => lt_signed(a, b),
            BInst::BLTU => a < b,
            BInst::BGE => !lt_signed(a, b),
            BInst::BGEU => a >= b,
        }
    }

    pub open spec fn spec_decode(funct3: usize) -> Option<BInst> {
        if funct3 == 0 {
            Some(BInst::BEQ)
        } else if funct3 == 1 {
            Some(BInst::BNE)
        } else if funct3 == 4 {
            Some(BInst::BLT)
        } else if funct3 == 5 {
            Some(BInst::BGE)
        } else if funct3 == 6 {
            Some(BInst::BLTU)
        } else if funct3 == 7 {
            Some(BInst::BGEU)
        } else {
            None
        }
    }

    pub fn decode(funct3: usize) -> (r: Option<BInst>)
        ensures
            r == Self::spec_decode(funct3),
    {
        match funct3 {
            0 => Some(BInst::BEQ),
            1 => Some(BInst::BNE),
            4 => Some(BInst::BLT),
            5 => Some(BInst::BGE),
            6 => Some(BInst::BLTU),
            7 => Some(BInst::BGEU),
            _ => None,
        }
    }
}

/// Upper-immediate operations.
#[derive(Clone, Copy, Debug)]
pub enum UInst {
    /// `rd = imm << 12`.
    LUI,
    /// `rd = (pc - 4) + (imm << 12)`, where `pc` has already been advanced
    /// past the instruction.
    AUIPC,
}

impl UInst {
    pub open spec fn spec_op(self, pc: u32, imm: u32) -> u32 {
        match self {
            UInst::LUI => imm << 12u32,
            UInst::AUIPC => wadd(wsub(pc, 4), imm << 12u32),
        }
    }

    pub fn op(self, pc: u32, imm: u32) -> (r: u32)
        ensures
            r == self.spec_op(pc, imm),
    {
        match self {
            UInst::LUI => imm << 12u32,
            UInst::AUIPC => add_wrapping(sub_wrapping(pc, 4), imm << 12u32),
        }
    }
}

/// The address and width of the memory access that `inst` makes with the
/// registers `regs`, if it makes one.
pub open spec fn spec_mem_access(inst: Inst, regs: Seq<u32>) -> Option<(u32, Size)> {
    match inst {
        Inst::I(IInst::Mem(op), f) => Some((wadd(reg(regs, f.rs1 as int), f.imm), op.spec_size())),
        Inst::S(op, f) => Some((wadd(reg(regs, f.rs1 as int), f.imm), op.spec_size())),
        _ => None,
    }
}

/// Whether the memory access of `inst`, if any, lies inside memory.
pub open spec fn access_in_bounds(inst: Inst, regs: Seq<u32>) -> bool {
    match spec_mem_access(inst, regs) {
        Some((addr, size)) => addr + size.spec_len() <= MEM_SIZE,
        None => true,
    }
}

/// The state after executing `inst` in state `s`, whose program counter
/// already points past the instruction.
pub open spec fn execute_spec(inst: Inst, s: CpuState) -> CpuState {
    match inst {
        Inst::R(op, f) => s.with_reg(
            f.rd,
            op.spec_op(reg(s.regs, f.rs1 as int), reg(s.regs, f.rs2 as int)),
        ),
        Inst::I(op, f) => {
            let rs1 = reg(s.regs, f.rs1 as int);
            let s1 = if op is Jalr {
                s.with_pc(wadd(rs1, f.imm))
            } else {
                s
            };
            s1.with_reg(f.rd, op.spec_value(s, rs1, f.imm))
        },
        Inst::S(op, f) => s.with_mem(
            write_spec(
                s.mem,
                wadd(reg(s.regs, f.rs1 as int), f.imm) as int,
                op.spec_size(),
                reg(s.regs, f.rs2 as int),
            ),
        ),
        Inst::B(op, f) => if op.spec_taken(reg(s.regs, f.rs1 as int), reg(s.regs, f.rs2 as int)) {
            s.with_pc(wadd(s.pc, wsub(f.imm, 4)))
        } else {
            s
        },
        Inst::J(f) => s.with_reg(f.rd, s.pc).with_pc(wadd(s.pc, wsub(f.imm, 4))),
        Inst::U(op, f) => s.with_reg(f.rd, op.spec_op(s.pc, f.imm)),
        Inst::SysCall(_) => s,
    }
}

/// ADD and ADDI write the sum of their operands modulo 2^32, which is the
/// sum less 2^32 when it overflows.
pub proof fn lemma_add_wraps(s: CpuState, add: Inst)
    requires
        add matches Inst::R(RInst::ADD, _) || add matches Inst::I(IInst::Arith(ArithIInst::ADDI), _),
        add.wf(),
        s.regs.len() == 32,
    ensures
        ({
            let (rd, a, b) = match add {
                Inst::R(_, f) => (f.rd, reg(s.regs, f.rs1 as int), reg(s.regs, f.rs2 as int)),
                Inst::I(_, f) => (f.rd, reg(s.regs, f.rs1 as int), f.imm),
                _ => (0, 0, 0),
            };
            let sum = reg(execute_spec(add, s).regs, rd as int);
            &&& rd != 0 ==> sum == (a + b) % 0x1_0000_0000
            &&& rd != 0 && a + b > u32::MAX ==> sum == a + b - 0x1_0000_0000
        }),
{
}

impl Inst {
    /// Every register index the instruction names is below 32.
    pub open spec fn wf(self) -> bool {
        match self {
            Inst::R(_, f) => f.wf(),
            Inst::I(_, f) => f.wf(),
            Inst::S(_, f) => f.wf(),
            Inst::B(_, f) => f.wf(),
            Inst::J(f) => f.wf(),
            Inst::U(_, f) => f.wf(),
            Inst::SysCall(_) => true,
        }
    }

    /// The address and width of the memory access the instruction would make.
    pub fn mem_access(&self, regs: &Registers) -> (r: Option<(u32, Size)>)
        requires
            self.wf(),
            regs.wf(),
        ensures
            r == spec_mem_access(*self, regs@),
    {
        match self {
            Inst::I(IInst::Mem(op), f) => Some((add_wrapping(regs.read(f.rs1), f.imm), op.size())),
            Inst::S(op, f) => Some((add_wrapping(regs.read(f.rs1), f.imm), op.size())),
            _ => None,
        }
    }

    /// Executes the instruction. The program counter has already been
    /// advanced past it, which branches, JAL and AUIPC compensate for.
    pub fn execute(self, cpu: &mut Cpu)
        requires
            old(cpu).wf(),
            self.wf(),
            access_in_bounds(self, old(cpu).regs@),
        ensures
            final(cpu).wf(),
            final(cpu)@ == execute_spec(self, old(cpu)@),
    {
        match self {
            Inst::R(inst, format) => {
                let rs1 = cpu.regs.read(format.rs1);
                let rs2 = cpu.regs.read(format.rs2);
                let result = inst.op(rs1, rs2);
                cpu.regs.write(format.rd, result)
            },
            Inst::I(inst, format) => {
                let rs1 = cpu.regs.read(format.rs1);
                let result = inst.op(cpu, rs1, format.imm);
                cpu.regs.write(format.rd, result);
            },
            Inst::S(inst, format) => {
                let rs1 = cpu.regs.read(format.rs1);
                let rs2 = cpu.regs.read(format.rs2);
                inst.op(&mut cpu.mem, rs1, rs2, format.imm);
            },
            Inst::B(inst, format) => {
                let rs1 = cpu.regs.read(format.rs1);
                let rs2 = cpu.regs.read(format.rs2);
                if inst.taken(rs1, rs2) {
                    let target = add_wrapping(cpu.pc.get(), sub_wrapping(format.imm, 4));
                    cpu.pc.set(target);
                }
            },
            Inst::J(format) => {
                let pc = cpu.pc.get();
                cpu.regs.write(format.rd, pc);
                cpu.pc.set(add_wrapping(pc, sub_wrapping(format.imm, 4)));
            },
            Inst::U(inst, format) => {
                let result = inst.op(cpu.pc.get(), format.imm);
                cpu.regs.write(format.rd, result);
            },
            Inst::SysCall(..) => {},
        }
    }
}

} // verus!
