use vstd::prelude::*;

verus! {

/// Size of the simulated RAM in bytes (128 KiB).
pub const MEM_SIZE: usize = 131072;

/// Width of one memory access.
#[derive(Clone, Copy, Debug)]
pub enum Size {
    /// 8 bits.
    Byte,
    /// 16 bits.
    HalfWord,
    /// 32 bits.
    Word,
}

impl Size {
    /// Number of bytes the access covers.
    pub open spec fn spec_len(self) -> nat {
        match self {
            Size::Byte => 1,
            Size::HalfWord => 2,
            Size::Word => 4,
        }
    }

    pub fn len(&self) -> (r: u32)
        ensures
            r == self.spec_len(),
    {
        match self {
            Size::Byte => 1,
            Size::HalfWord => 2,
            Size::Word => 4,
        }
    }
}

/// Sign-extends the low `width` bits of `v` to a full word: bit `width - 1`
/// is copied into every higher bit.
pub open spec fn sext(v: u32, width: u32) -> u32
    recommends
        1 <= width <= 31,
{
    if (v >> ((width - 1) as u32)) & 1u32 == 1u32 {
        v | (0xffff_ffffu32 << width)
    } else {
        v
    }
}

/// Executable sign extension of the low `width` bits of `v`.
pub fn sign_extend(v: u32, width: u32) -> (r: u32)
    requires
        1 <= width <= 31,
    ensures
        r == sext(v, width),
{
    if (v >> (width - 1)) & 1 == 1 {
        v | (0xffff_ffffu32 << width)
    } else {
        v
    }
}

/// Byte `i` of `v` in little-endian order (byte 0 is the least significant).
pub open spec fn byte_of(v: u32, i: int) -> u8 {
    if i == 0 {
        (v & 0xff) as u8
    } else if i == 1 {
        ((v >> 8u32) & 0xff) as u8
    } else if i == 2 {
        ((v >> 16u32) & 0xff) as u8
    } else {
        ((v >> 24u32) & 0xff) as u8
    }
}

/// The unsigned little-endian value of the `n` bytes of `mem` at `addr`.
pub open spec fn le_value(mem: Seq<u8>, addr: int, n: nat) -> u32 {
    if n == 1 {
        mem[addr] as u32
    } else if n == 2 {
        (mem[addr] as u32) | ((mem[addr + 1] as u32) << 8u32)
    } else {
        (mem[addr] as u32) | ((mem[addr + 1] as u32) << 8u32) | ((mem[addr + 2] as u32) << 16u32)
            | ((mem[addr + 3] as u32) << 24u32)
    }
}

/// What a read of `size` bytes at `addr` returns: the little-endian value,
/// sign-extended for a narrow signed read, zero-extended for a narrow
/// unsigned one.
pub open spec fn read_spec(mem: Seq<u8>, addr: int, size: Size, is_unsigned: bool) -> u32 {
    let raw = le_value(mem, addr, size.spec_len());
    match size {
        Size::Byte => if is_unsigned {
            raw
        } else {
            sext(raw, 8)
        },
        Size::HalfWord => if is_unsigned {
            raw
        } else {
            sext(raw, 16)
        },
        Size::Word => raw,
    }
}

/// Memory after storing the low `size` bytes of `v` at `addr`, little-endian.
pub open spec fn write_spec(mem: Seq<u8>, addr: int, size: Size, v: u32) -> Seq<u8> {
    Seq::new(
        mem.len(),
        |j: int|
            if addr <= j < addr + size.spec_len() {
                byte_of(v, j - addr)
            } else {
                mem[j]
            },
    )
}

/// Memory holding `program` at offset 0 and zeros after it.
pub open spec fn loaded_spec(program: Seq<u8>) -> Seq<u8> {
    program + Seq::new((MEM_SIZE - program.len()) as nat, |i: int| 0u8)
}

proof fn lemma_byte_bounds(v: u32)
    ensures
        v & 0xff <= 0xff,
        (v >> 8u32) & 0xff <= 0xff,
        (v >> 16u32) & 0xff <= 0xff,
        (v >> 24u32) & 0xff <= 0xff,
{
    assert(v & 0xff <= 0xff) by (bit_vector);
    assert((v >> 8u32) & 0xff <= 0xff) by (bit_vector);
    assert((v >> 16u32) & 0xff <= 0xff) by (bit_vector);
    assert((v >> 24u32) & 0xff <= 0xff) by (bit_vector);
}

/// A word written at `a` reads back unchanged.
pub proof fn lemma_word_round_trip(mem: Seq<u8>, a: int, v: u32)
    requires
        mem.len() == MEM_SIZE,
        0 <= a,
        a + 4 <= MEM_SIZE,
    ensures
        read_spec(write_spec(mem, a, Size::Word, v), a, Size::Word, true) == v,
{
    lemma_byte_bounds(v);
    let m = write_spec(mem, a, Size::Word, v);
    assert(m[a] as u32 == v & 0xff);
    assert(m[a + 1] as u32 == (v >> 8u32) & 0xff);
    assert(m[a + 2] as u32 == (v >> 16u32) & 0xff);
    assert(m[a + 3] as u32 == (v >> 24u32) & 0xff);
    assert((v & 0xff) | (((v >> 8u32) & 0xff) << 8u32) | (((v >> 16u32) & 0xff) << 16u32) | (((v
        >> 24u32) & 0xff) << 24u32) == v) by (bit_vector);
}

/// A byte written at `a` reads back as the low byte of the value written:
/// zero-extended by an unsigned read, sign-extended by a signed one.
pub proof fn lemma_byte_round_trip(mem: Seq<u8>, a: int, v: u32)
    requires
        mem.len() == MEM_SIZE,
        0 <= a < MEM_SIZE,
    ensures
        read_spec(write_spec(mem, a, Size::Byte, v), a, Size::Byte, true) == v & 0xff,
        read_spec(write_spec(mem, a, Size::Byte, v), a, Size::Byte, false) == sext(v & 0xff, 8),
{
    lemma_byte_bounds(v);
    let m = write_spec(mem, a, Size::Byte, v);
    assert(m[a] as u32 == v & 0xff);
}

/// Words are stored least significant byte first.
pub proof fn lemma_little_endian(mem: Seq<u8>, a: int)
    requires
        mem.len() == MEM_SIZE,
        0 <= a,
        a + 4 <= MEM_SIZE,
    ensures
        ({
            let m = write_spec(mem, a, Size::Word, 0x12345678);
            &&& read_spec(m, a, Size::Byte, true) == 0x78
            &&& read_spec(m, a + 1, Size::Byte, true) == 0x56
            &&& read_spec(m, a + 2, Size::Byte, true) == 0x34
            &&& read_spec(m, a + 3, Size::Byte, true) == 0x12
        }),
{
    let v: u32 = 0x12345678;
    assert(v & 0xff == 0x78) by (bit_vector)
        requires
            v == 0x12345678u32,
    ;
    assert((v >> 8u32) & 0xff == 0x56) by (bit_vector)
        requires
            v == 0x12345678u32,
    ;
    assert((v >> 16u32) & 0xff == 0x34) by (bit_vector)
        requires
            v == 0x12345678u32,
    ;
    assert((v >> 24u32) & 0xff == 0x12) by (bit_vector)
        requires
            v == 0x12345678u32,
    ;
}

/// Byte-addressable little-endian RAM of `MEM_SIZE` bytes.
pub struct Memory(Vec<u8>);

impl View for Memory {
    type V = Seq<u8>;

    closed spec fn view(&self) -> Seq<u8> {
        self.0@
    }
}

impl Memory {
    /// The memory always spans exactly `MEM_SIZE` bytes.
    pub open spec fn wf(&self) -> bool {
        self@.len() == MEM_SIZE
    }

    /// Zero-filled memory.
    pub fn new() -> (r: Self)
        ensures
            r.wf(),
            r@ == Seq::new(MEM_SIZE as nat, |i: int| 0u8),
    {
        let mut bytes: Vec<u8> = Vec::new();
        while bytes.len() < MEM_SIZE
            invariant
                bytes@.len() <= MEM_SIZE,
                forall|i: int| 0 <= i < bytes@.len() ==> bytes@[i] == 0u8,
            decreases MEM_SIZE - bytes@.len(),
        {
            bytes.push(0);
        }
        let r = Memory(bytes);
        assert(r@ =~= Seq::new(MEM_SIZE as nat, |i: int| 0u8));
        r
    }

    /// Reads `size` bytes at `from` in little-endian order; narrow values
    /// are zero-extended when `is_unsigned`, sign-extended otherwise.
    pub fn read(&self, from: u32, size: Size, is_unsigned: bool) -> (r: u32)
        requires
            self.wf(),
            from + size.spec_len() <= MEM_SIZE,
        ensures
            r == read_spec(self@, from as int, size, is_unsigned),
    {
        let a = from as usize;
        let raw: u32 = match size {
            Size::Byte => self.0[a] as u32,
            Size::HalfWord => (self.0[a] as u32) | ((self.0[a + 1] as u32) << 8u32),
            Size::Word => (self.0[a] as u32) | ((self.0[a + 1] as u32) << 8u32) | ((self.0[a
                + 2] as u32) << 16u32) | ((self.0[a + 3] as u32) << 24u32),
        };
        match size {
            Size::Byte => if is_unsigned {
                raw
            } else {
                sign_extend(raw, 8)
            },
            Size::HalfWord => if is_unsigned {
                raw
            } else {
                sign_extend(raw, 16)
            },
            Size::Word => raw,
        }
    }

    /// Stores the low `size` bytes of `val` at `from` in little-endian order.
    pub fn write(&mut self, from: u32, size: Size, val: u32)
        requires
            old(self).wf(),
            from + size.spec_len() <= MEM_SIZE,
        ensures
            final(self).wf(),
            final(self)@ == write_spec(old(self)@, from as int, size, val),
    {
        proof {
            lemma_byte_bounds(val);
        }
        let a = from as usize;
        let n = size.len() as usize;
        self.0.set(a, (val & 0xff) as u8);
        if n >= 2 {
            self.0.set(a + 1, ((val >> 8u32) & 0xff) as u8);
        }
        if n >= 4 {
            self.0.set(a + 2, ((val >> 16u32) & 0xff) as u8);
            self.0.set(a + 3, ((val >> 24u32) & 0xff) as u8);
        }
        assert(self@ =~= write_spec(old(self)@, from as int, size, val));
    }

    /// Places `program` at offset 0 and zeros in every byte after it.
    pub fn load_program(&mut self, program: Vec<u8>)
        requires
            program@.len() <= MEM_SIZE,
        ensures
            final(self).wf(),
            final(self)@ == loaded_spec(program@),
    {
        let ghost p = program@;
        let mut bytes = program;
        while bytes.len() < MEM_SIZE
            invariant
                p.len() <= bytes@.len() <= MEM_SIZE,
                bytes@.subrange(0, p.len() as int) == p,
                forall|i: int| p.len() <= i < bytes@.len() ==> bytes@[i] == 0u8,
            decreases MEM_SIZE - bytes@.len(),
        {
            bytes.push(0);
        }
        self.0 = bytes;
        assert(self@ =~= loaded_spec(p));
    }
}

} // verus!
