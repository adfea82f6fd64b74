//! The processor: fetch, decode, execute, and the run loop.
use vstd::prelude::*;

use crate::error::{Error, FormatError};
use crate::inst::{
    access_in_bounds, execute_spec, spec_mem_access, ArithIInst, BInst, IInst, Inst, LoadIInst,
    RInst, SInst, SysCall, UInst,
};
use crate::inst_format::{lemma_field_bounds, BFormat, IFormat, JFormat, RFormat, SFormat, UFormat};
use crate::memory::{loaded_spec, read_spec, Memory, Size, MEM_SIZE};
use crate::pc::{last_fetch_addr, wadd, ProgramCounter};
use crate::regs::{reg, set_reg, Registers};

verus! {

/// Syscall number of exit, in register 17.
pub const EXIT_SYSCALL: u32 = 93;

/// How many cycles a run may take before it is stopped.
pub const MAX_CYCLES: u64 = 0xffff_ffff_ffff_ffff;

/// The architectural state as a mathematical value.
pub struct CpuState {
    pub pc: u32,
    pub regs: Seq<u32>,
    pub mem: Seq<u8>,
}

impl CpuState {
    pub open spec fn with_pc(self, pc: u32) -> CpuState {
        CpuState { pc, regs: self.regs, mem: self.mem }
    }

    pub open spec fn with_reg(self, i: usize, v: u32) -> CpuState {
        CpuState { pc: self.pc, regs: set_reg(self.regs, i as int, v), mem: self.mem }
    }

    pub open spec fn with_mem(self, mem: Seq<u8>) -> CpuState {
        CpuState { pc: self.pc, regs: self.regs, mem }
    }
}

/// What decoding the word `w` gives, when register 17 holds `x17` and
/// register 10 holds `x10`.
pub open spec fn decode_spec(w: u32, x17: u32, x10: u32) -> Result<Inst, Error> {
    let opcode = w & 0x7f;
    if opcode == 0x33 {
        let f = RFormat::spec_new(w);
        match RInst::spec_decode(f.funct3, f.funct7) {
            Some(op) => Ok(Inst::R(op, f)),
            None => Err(Error::InvalidInstFormat(FormatError::R(f))),
        }
    } else if opcode == 0x13 {
        let f = IFormat::spec_new(w);
        match ArithIInst::spec_decode(f.funct3, (f.imm >> 5u32) & 0x7f) {
            Some(op) => Ok(Inst::I(IInst::Arith(op), f)),
            None => Err(Error::InvalidInstFormat(FormatError::I(f))),
        }
    } else if opcode == 0x03 {
        let f = IFormat::spec_new(w);
        match LoadIInst::spec_decode(f.funct3) {
            Some(op) => Ok(Inst::I(IInst::Mem(op), f)),
            None => Err(Error::InvalidInstFormat(FormatError::I(f))),
        }
    } else if opcode == 0x67 {
        let f = IFormat::spec_new(w);
        if f.funct3 == 0 {
            Ok(Inst::I(IInst::Jalr, f))
        } else {
            Err(Error::InvalidInstFormat(FormatError::I(f)))
        }
    } else if opcode == 0x23 {
        let f = SFormat::spec_new(w);
        match SInst::spec_decode(f.funct3) {
            Some(op) => Ok(Inst::S(op, f)),
            None => Err(Error::InvalidInstFormat(FormatError::S(f))),
        }
    } else if opcode == 0x63 {
        let f = BFormat::spec_new(w);
        match BInst::spec_decode(f.funct3) {
            Some(op) => Ok(Inst::B(op, f)),
            None => Err(Error::InvalidInstFormat(FormatError::B(f))),
        }
    } else if opcode == 0x6f {
        Ok(Inst::J(JFormat::spec_new(w)))
    } else if opcode == 0x37 {
        Ok(Inst::U(UInst::LUI, UFormat::spec_new(w)))
    } else if opcode == 0x17 {
        Ok(Inst::U(UInst::AUIPC, UFormat::spec_new(w)))
    } else if opcode == 0x73 {
        if x17 == EXIT_SYSCALL {
            Ok(Inst::SysCall(SysCall::Exit((x10 & 0xff) as u8)))
        } else {
            Ok(Inst::SysCall(SysCall::Nop))
        }
    } else if opcode == 0x0f {
        Ok(Inst::SysCall(SysCall::Nop))
    } else {
        Err(Error::InvalidOpcode(opcode as usize))
    }
}

/// The word fetched at the program counter, or why it cannot be fetched.
pub open spec fn fetch_spec(s: CpuState) -> Result<u32, Error> {
    if s.pc <= last_fetch_addr() {
        Ok(read_spec(s.mem, s.pc as int, Size::Word, true))
    } else {
        Err(Error::InvalidPC(s.pc, MEM_SIZE))
    }
}

/// The instruction one cycle from `s` decodes, or the error that stops it
/// before that.
pub open spec fn cycle_inst(s: CpuState) -> Result<Inst, Error> {
    match fetch_spec(s) {
        Ok(w) => if w == 0 {
            Err(Error::EndOfInstructions)
        } else {
            decode_spec(w, reg(s.regs, 17), reg(s.regs, 10))
        },
        Err(e) => Err(e),
    }
}

/// How one cycle from `s` ends: go on, exit with a code, or fail.
pub open spec fn cycle_result(s: CpuState) -> Result<ProgState, Error> {
    match cycle_inst(s) {
        Ok(inst) => match inst {
            Inst::SysCall(SysCall::Exit(code)) => Ok(ProgState::Exit(code)),
            _ => if access_in_bounds(inst, s.regs) {
                Ok(ProgState::Continue)
            } else {
                Err(Error::InvalidAddress(spec_mem_access(inst, s.regs)->Some_0.0, MEM_SIZE))
            },
        },
        Err(e) => Err(e),
    }
}

/// The state after one cycle from `s`: the program counter is advanced by 4
/// first, and the instruction is executed only when the cycle goes on.
pub open spec fn cycle_state(s: CpuState) -> CpuState {
    let fetched = s.with_pc(wadd(s.pc, 4));
    if cycle_result(s) == Ok::<ProgState, Error>(ProgState::Continue) {
        execute_spec(cycle_inst(s)->Ok_0, fetched)
    } else {
        fetched
    }
}

/// How a run from `s` ends within `fuel` cycles, or `None` if it does not.
pub open spec fn run_spec(s: CpuState, fuel: nat) -> Option<Result<u8, Error>>
    decreases fuel,
{
    if fuel == 0 {
        None
    } else {
        match cycle_result(s) {
            Ok(ProgState::Continue) => run_spec(cycle_state(s), (fuel - 1) as nat),
            Ok(ProgState::Exit(code)) => Some(Ok(code)),
            Err(e) => Some(Err(e)),
        }
    }
}

/// The state in which a run from `s` stops within `fuel` cycles, or the
/// state after `fuel` cycles if it has not stopped by then.
pub open spec fn run_state(s: CpuState, fuel: nat) -> CpuState
    decreases fuel,
{
    if fuel == 0 {
        s
    } else if cycle_result(s) == Ok::<ProgState, Error>(ProgState::Continue) {
        run_state(cycle_state(s), (fuel - 1) as nat)
    } else {
        cycle_state(s)
    }
}

/// The result of a run from `s`: its exit code or error, or `CycleLimit`
/// when it goes on for `MAX_CYCLES` cycles.
pub open spec fn run_result(s: CpuState) -> Result<u8, Error> {
    match run_spec(s, MAX_CYCLES as nat) {
        Some(r) => r,
        None => Err(Error::CycleLimit),
    }
}

/// Every instruction the decoder produces names registers below 32.
pub proof fn lemma_decode_wf(w: u32, x17: u32, x10: u32)
    ensures
        decode_spec(w, x17, x10) matches Ok(inst) ==> inst.wf(),
{
    lemma_field_bounds(w);
}

/// No cycle changes the slot of register 0, so register 0 reads 0 in every
/// state a run reaches.
pub proof fn lemma_cycle_keeps_x0(s: CpuState)
    requires
        s.regs.len() == 32,
        s.regs[0] == 0,
    ensures
        cycle_state(s).regs.len() == 32,
        cycle_state(s).regs[0] == 0,
        reg(cycle_state(s).regs, 0) == 0,
{
    if let Ok(w) = fetch_spec(s) {
        lemma_decode_wf(w, reg(s.regs, 17), reg(s.regs, 10));
    }
}

/// A cycle that goes on executes its instruction on the state whose program
/// counter is already 4 past the fetch address. Only branches, JAL and JALR
/// move it further; every other instruction leaves it there.
pub proof fn lemma_cycle_advances_pc(s: CpuState)
    requires
        cycle_result(s) == Ok::<ProgState, Error>(ProgState::Continue),
    ensures
        s.pc + 4 <= MEM_SIZE,
        cycle_state(s) == execute_spec(cycle_inst(s)->Ok_0, s.with_pc((s.pc + 4) as u32)),
        !(cycle_inst(s)->Ok_0 is B || cycle_inst(s)->Ok_0 is J || cycle_inst(s)->Ok_0 matches Inst::I(
            IInst::Jalr,
            _,
        )) ==> cycle_state(s).pc == s.pc + 4,
{
}

/// How a single cycle ended when it did not fail.
#[derive(Clone, Copy, Debug)]
pub enum ProgState {
    Continue,
    Exit(u8),
}

/// The emulated processor.
pub struct Cpu {
    pub pc: ProgramCounter,
    pub regs: Registers,
    pub mem: Memory,
    /// Whether the caller wants the state dumped after every cycle.
    pub print_debug: bool,
}

impl View for Cpu {
    type V = CpuState;

    open spec fn view(&self) -> CpuState {
        CpuState { pc: self.pc@, regs: self.regs@, mem: self.mem@ }
    }
}

impl Cpu {
    pub open spec fn wf(&self) -> bool {
        self.regs.wf() && self.mem.wf()
    }

    /// PC 0, all registers 0 but the stack pointer (register 2) at
    /// `MEM_SIZE`, memory zeroed.
    pub fn new(print_debug: bool) -> (r: Self)
        ensures
            r.wf(),
            r@.pc == 0,
            r@.regs == Seq::new(32, |i: int| 0u32).update(2, MEM_SIZE as u32),
            r@.mem == Seq::new(MEM_SIZE as nat, |i: int| 0u8),
            r.print_debug == print_debug,
    {
        Cpu {
            pc: ProgramCounter::new(),
            regs: Registers::new(),
            mem: Memory::new(),
            print_debug,
        }
    }

    /// Loads `program` at address 0 and runs until an exit call or an error.
    pub fn run(&mut self, program: Vec<u8>) -> (r: Result<u8, Error>)
        requires
            old(self).wf(),
            program@.len() <= MEM_SIZE,
        ensures
            final(self).wf(),
            r == run_result(old(self)@.with_mem(loaded_spec(program@))),
            final(self)@ == run_state(old(self)@.with_mem(loaded_spec(program@)), MAX_CYCLES as nat),
    {
        let ghost start = old(self)@.with_mem(loaded_spec(program@));
        self.mem.load_program(program);
        assert(self@ == start);
        let mut fuel: u64 = MAX_CYCLES;
        while fuel > 0
            invariant
                self.wf(),
                run_spec(self@, fuel as nat) == run_spec(start, MAX_CYCLES as nat),
                run_state(self@, fuel as nat) == run_state(start, MAX_CYCLES as nat),
                start == old(self)@.with_mem(loaded_spec(program@)),
            decreases fuel,
        {
            match self.emulate_cycle() {
                Ok(ProgState::Exit(code)) => {
                    return Ok(code);
                },
                Err(e) => {
                    return Err(e);
                },
                Ok(ProgState::Continue) => {},
            }
            fuel = fuel - 1;
        }
        Err(Error::CycleLimit)
    }

    /// Reads the word at the program counter and advances the counter by 4.
    pub fn fetch(&mut self) -> (r: Result<u32, Error>)
        requires
            old(self).wf(),
        ensures
            final(self).wf(),
            final(self)@ == old(self)@.with_pc(wadd(old(self)@.pc, 4)),
            r == fetch_spec(old(self)@),
    {
        let pc = match self.pc.inc() {
            Ok(pc) => pc,
            Err(e) => {
                return Err(e);
            },
        };
        Ok(self.mem.read(pc, Size::Word, true))
    }

    /// Decodes a raw instruction word into a typed instruction.
    pub fn decode(&self, raw_inst: u32) -> (r: Result<Inst, Error>)
        requires
            self.wf(),
        ensures
            r == decode_spec(raw_inst, reg(self@.regs, 17), reg(self@.regs, 10)),
            r matches Ok(inst) ==> inst.wf(),
    {
        let opcode = raw_inst & 0x7f;
        if opcode == 0x33 {
            let r_format = RFormat::new(raw_inst);
            match RInst::decode(r_format.funct3, r_format.funct7) {
                Some(inst) => Ok(Inst::R(inst, r_format)),
                None => Err(Error::InvalidInstFormat(FormatError::R(r_format))),
            }
        } else if opcode == 0x13 {
            let i_format = IFormat::new(raw_inst);
            let upper_imm = (i_format.imm >> 5u32) & 0x7f;
            match ArithIInst::decode(i_format.funct3, upper_imm) {
                Some(inst) => Ok(Inst::I(IInst::Arith(inst), i_format)),
                None => Err(Error::InvalidInstFormat(FormatError::I(i_format))),
            }
        } else if opcode == 0x03 {
            let i_format = IFormat::new(raw_inst);
            match LoadIInst::decode(i_format.funct3) {
                Some(inst) => Ok(Inst::I(IInst::Mem(inst), i_format)),
                None => Err(Error::InvalidInstFormat(FormatError::I(i_format))),
            }
        } else if opcode == 0x67 {
            let i_format = IFormat::new(raw_inst);
            if i_format.funct3 == 0 {
                Ok(Inst::I(IInst::Jalr, i_format))
            } else {
                Err(Error::InvalidInstFormat(FormatError::I(i_format)))
            }
        } else if opcode == 0x23 {
            let s_format = SFormat::new(raw_inst);
            match SInst::decode(s_format.funct3) {
                Some(inst) => Ok(Inst::S(inst, s_format)),
                None => Err(Error::InvalidInstFormat(FormatError::S(s_format))),
            }
        } else if opcode == 0x63 {
            let b_format = BFormat::new(raw_inst);
            match BInst::decode(b_format.funct3) {
                Some(inst) => Ok(Inst::B(inst, b_format)),
                None => Err(Error::InvalidInstFormat(FormatError::B(b_format))),
            }
        } else if opcode == 0x6f {
            Ok(Inst::J(JFormat::new(raw_inst)))
        } else if opcode == 0x37 {
            Ok(Inst::U(UInst::LUI, UFormat::new(raw_inst)))
        } else if opcode == 0x17 {
            Ok(Inst::U(UInst::AUIPC, UFormat::new(raw_inst)))
        } else if opcode == 0x73 {
            if self.regs.read(17) == EXIT_SYSCALL {
                let code = self.regs.read(10) & 0xff;
                proof {
                    let x = self.regs@[10];
                    assert(x & 0xff <= 0xff) by (bit_vector);
                }
                Ok(Inst::SysCall(SysCall::Exit(code as u8)))
            } else {
                Ok(Inst::SysCall(SysCall::Nop))
            }
        } else if opcode == 0x0f {
            Ok(Inst::SysCall(SysCall::Nop))
        } else {
            Err(Error::InvalidOpcode(opcode as usize))
        }
    }

    /// One fetch-decode-execute cycle. The program counter is advanced
    /// before the instruction executes.
    pub fn emulate_cycle(&mut self) -> (r: Result<ProgState, Error>)
        requires
            old(self).wf(),
        ensures
            final(self).wf(),
            r == cycle_result(old(self)@),
            final(self)@ == cycle_state(old(self)@),
    {
        let raw_inst = match self.fetch() {
            Ok(w) => w,
            Err(e) => {
                return Err(e);
            },
        };
        if raw_inst == 0 {
            return Err(Error::EndOfInstructions);
        }
        let inst = match self.decode(raw_inst) {
            Ok(inst) => inst,
            Err(e) => {
                return Err(e);
            },
        };
        if let Inst::SysCall(SysCall::Exit(code)) = inst {
            return Ok(ProgState::Exit(code));
        }
        if let Some((addr, size)) = inst.mem_access(&self.regs) {
            if addr as u64 + size.len() as u64 > MEM_SIZE as u64 {
                return Err(Error::InvalidAddress(addr, MEM_SIZE));
            }
        }
        inst.execute(self);
        Ok(ProgState::Continue)
    }
}

} // verus!
