//! The six instruction layouts and the reconstruction of their immediates.
//! Immediates are stored as final 32-bit patterns: sign-extended and, for B
//! and J, already shifted left by one. The U immediate is kept unshifted.
use vstd::prelude::*;

use crate::memory::{sext, sign_extend};

verus! {

/// Bits 7..=11: destination register.
pub open spec fn rd_of(w: u32) -> u32 {
    (w >> 7u32) & 0x1f
}

/// Bits 12..=14.
pub open spec fn funct3_of(w: u32) -> u32 {
    (w >> 12u32) & 0x7
}

/// Bits 15..=19: first source register.
pub open spec fn rs1_of(w: u32) -> u32 {
    (w >> 15u32) & 0x1f
}

/// Bits 20..=24: second source register.
pub open spec fn rs2_of(w: u32) -> u32 {
    (w >> 20u32) & 0x1f
}

/// Bits 25..=31.
pub open spec fn funct7_of(w: u32) -> u32 {
    (w >> 25u32) & 0x7f
}

/// I immediate: bits 20..=31, sign-extended from 12 bits.
pub open spec fn imm_i(w: u32) -> u32 {
    sext(w >> 20u32, 12)
}

/// S immediate: bits 25..=31 above bits 7..=11, sign-extended from 12 bits.
pub open spec fn imm_s(w: u32) -> u32 {
    sext((((w >> 25u32) & 0x7f) << 5u32) | ((w >> 7u32) & 0x1f), 12)
}

/// B immediate: bit 31 at 12, bit 7 at 11, bits 25..=30 at 5, bits 8..=11
/// at 1, sign-extended from 13 bits.
pub open spec fn imm_b(w: u32) -> u32 {
    sext(
        (((w >> 31u32) & 1) << 12u32) | (((w >> 7u32) & 1) << 11u32) | (((w >> 25u32) & 0x3f)
            << 5u32) | (((w >> 8u32) & 0xf) << 1u32),
        13,
    )
}

/// U immediate: bits 12..=31, sign-extended from 20 bits, not shifted.
pub open spec fn imm_u(w: u32) -> u32 {
    sext(w >> 12u32, 20)
}

/// J immediate: bit 31 at 20, bits 12..=19 at 12, bit 20 at 11, bits
/// 21..=30 at 1, sign-extended from 21 bits.
pub open spec fn imm_j(w: u32) -> u32 {
    sext(
        (((w >> 31u32) & 1) << 20u32) | (((w >> 12u32) & 0xff) << 12u32) | (((w >> 20u32) & 1)
            << 11u32) | (((w >> 21u32) & 0x3ff) << 1u32),
        21,
    )
}

/// Every register field is below 32.
pub proof fn lemma_field_bounds(w: u32)
    ensures
        rd_of(w) < 32,
        funct3_of(w) < 8,
        rs1_of(w) < 32,
        rs2_of(w) < 32,
        funct7_of(w) < 128,
{
    assert((w >> 7u32) & 0x1f < 32) by (bit_vector);
    assert((w >> 12u32) & 0x7 < 8) by (bit_vector);
    assert((w >> 15u32) & 0x1f < 32) by (bit_vector);
    assert((w >> 20u32) & 0x1f < 32) by (bit_vector);
    assert((w >> 25u32) & 0x7f < 128) by (bit_vector);
}

/// Register-register layout.
#[derive(Clone, Copy, Debug)]
pub struct RFormat {
    pub rd: usize,
    pub funct3: usize,
    pub rs1: usize,
    pub rs2: usize,
    pub funct7: usize,
}

impl RFormat {
    pub open spec fn wf(self) -> bool {
        self.rd < 32 && self.rs1 < 32 && self.rs2 < 32
    }

    pub open spec fn spec_new(w: u32) -> RFormat {
        RFormat {
            rd: rd_of(w) as usize,
            funct3: funct3_of(w) as usize,
            rs1: rs1_of(w) as usize,
            rs2: rs2_of(w) as usize,
            funct7: funct7_of(w) as usize,
        }
    }

    pub fn new(raw_inst: u32) -> (r: Self)
        ensures
            r == Self::spec_new(raw_inst),
            r.wf(),
    {
        proof {
            lemma_field_bounds(raw_inst);
        }
        RFormat {
            rd: ((raw_inst >> 7u32) & 0x1f) as usize,
            funct3: ((raw_inst >> 12u32) & 0x7) as usize,
            rs1: ((raw_inst >> 15u32) & 0x1f) as usize,
            rs2: ((raw_inst >> 20u32) & 0x1f) as usize,
            funct7: ((raw_inst >> 25u32) & 0x7f) as usize,
        }
    }
}

/// Immediate layout, used by arithmetic with an immediate, loads and JALR.
#[derive(Clone, Copy, Debug)]
pub struct IFormat {
    pub rd: usize,
    pub funct3: usize,
    pub rs1: usize,
    pub imm: u32,
}

impl IFormat {
    pub open spec fn wf(self) -> bool {
        self.rd < 32 && self.rs1 < 32
    }

    pub open spec fn spec_new(w: u32) -> IFormat {
        IFormat {
            rd: rd_of(w) as usize,
            funct3: funct3_of(w) as usize,
            rs1: rs1_of(w) as usize,
            imm: imm_i(w),
        }
    }

    pub fn new(raw_inst: u32) -> (r: Self)
        ensures
            r == Self::spec_new(raw_inst),
            r.wf(),
    {
        proof {
            lemma_field_bounds(raw_inst);
        }
        IFormat {
            rd: ((raw_inst >> 7u32) & 0x1f) as usize,
            funct3: ((raw_inst >> 12u32) & 0x7) as usize,
            rs1: ((raw_inst >> 15u32) & 0x1f) as usize,
            imm: sign_extend(raw_inst >> 20u32, 12),
        }
    }
}

/// Store layout.
#[derive(Clone, Copy, Debug)]
pub struct SFormat {
    pub funct3: usize,
    pub rs1: usize,
    pub rs2: usize,
    pub imm: u32,
}

impl SFormat {
    pub open spec fn wf(self) -> bool {
        self.rs1 < 32 && self.rs2 < 32
    }

    pub open spec fn spec_new(w: u32) -> SFormat {
        SFormat {
            funct3: funct3_of(w) as usize,
            rs1: rs1_of(w) as usize,
            rs2: rs2_of(w) as usize,
            imm: imm_s(w),
        }
    }

    pub fn new(raw_inst: u32) -> (r: Self)
        ensures
            r == Self::spec_new(raw_inst),
            r.wf(),
    {
        proof {
            lemma_field_bounds(raw_inst);
        }
        let imm_lo = (raw_inst >> 7u32) & 0x1f;
        let imm_hi = (raw_inst >> 25u32) & 0x7f;
        SFormat {
            funct3: ((raw_inst >> 12u32) & 0x7) as usize,
            rs1: ((raw_inst >> 15u32) & 0x1f) as usize,
            rs2: ((raw_inst >> 20u32) & 0x1f) as usize,
            imm: sign_extend((imm_hi << 5u32) | imm_lo, 12),
        }
    }
}

/// Branch layout.
#[derive(Clone, Copy, Debug)]
pub struct BFormat {
    pub funct3: usize,
    pub rs1: usize,
    pub rs2: usize,
    pub imm: u32,
}

impl BFormat {
    pub open spec fn wf(self) -> bool {
        self.rs1 < 32 && self.rs2 < 32
    }

    pub open spec fn spec_new(w: u32) -> BFormat {
        BFormat {
            funct3: funct3_of(w) as usize,
            rs1: rs1_of(w) as usize,
            rs2: rs2_of(w) as usize,
            imm: imm_b(w),
        }
    }

    /// The branch offset is always even.
    pub fn new(raw_inst: u32) -> (r: Self)
        ensures
            r == Self::spec_new(raw_inst),
            r.wf(),
            r.imm & 1 == 0,
    {
        proof {
            lemma_field_bounds(raw_inst);
            let w = raw_inst;
            assert(imm_b(w) & 1 == 0) by (bit_vector);
        }
        let imm_11th_bit = (raw_inst >> 7u32) & 1;
        let imm_lo = (raw_inst >> 8u32) & 0xf;
        let imm_hi = (raw_inst >> 25u32) & 0x3f;
        let imm_12th_bit = (raw_inst >> 31u32) & 1;
        let imm = sign_extend(
            (imm_12th_bit << 12u32) | (imm_11th_bit << 11u32) | (imm_hi << 5u32) | (imm_lo << 1u32),
            13,
        );
        BFormat {
            funct3: ((raw_inst >> 12u32) & 0x7) as usize,
            rs1: ((raw_inst >> 15u32) & 0x1f) as usize,
            rs2: ((raw_inst >> 20u32) & 0x1f) as usize,
            imm,
        }
    }
}

/// Jump layout (JAL).
#[derive(Clone, Copy, Debug)]
pub struct JFormat {
    pub rd: usize,
    pub imm: u32,
}

impl JFormat {
    pub open spec fn wf(self) -> bool {
        self.rd < 32
    }

    pub open spec fn spec_new(w: u32) -> JFormat {
        JFormat { rd: rd_of(w) as usize, imm: imm_j(w) }
    }

    /// The jump offset is always even.
    pub fn new(raw_inst: u32) -> (r: Self)
        ensures
            r == Self::spec_new(raw_inst),
            r.wf(),
            r.imm & 1 == 0,
    {
        proof {
            lemma_field_bounds(raw_inst);
            let w = raw_inst;
            assert(imm_j(w) & 1 == 0) by (bit_vector);
        }
        let imm_hi = (raw_inst >> 12u32) & 0xff;
        let imm_11th_bit = (raw_inst >> 20u32) & 1;
        let imm_lo = (raw_inst >> 21u32) & 0x3ff;
        let imm_20th_bit = (raw_inst >> 31u32) & 1;
        let imm = sign_extend(
            (imm_20th_bit << 20u32) | (imm_hi << 12u32) | (imm_11th_bit << 11u32) | (imm_lo
                << 1u32),
            21,
        );
        JFormat { rd: ((raw_inst >> 7u32) & 0x1f) as usize, imm }
    }
}

/// Upper-immediate layout (LUI, AUIPC).
#[derive(Clone, Copy, Debug)]
pub struct UFormat {
    pub rd: usize,
    pub imm: u32,
}

impl UFormat {
    pub open spec fn wf(self) -> bool {
        self.rd < 32
    }

    pub open spec fn spec_new(w: u32) -> UFormat {
        UFormat { rd: rd_of(w) as usize, imm: imm_u(w) }
    }

    pub fn new(raw_inst: u32) -> (r: Self)
        ensures
            r == Self::spec_new(raw_inst),
            r.wf(),
    {
        proof {
            lemma_field_bounds(raw_inst);
        }
        UFormat { rd: ((raw_inst >> 7u32) & 0x1f) as usize, imm: sign_extend(raw_inst >> 12u32, 20) }
    }
}

} // verus!
