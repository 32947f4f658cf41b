use vstd::prelude::*;

use crate::errors::VmError;

verus! {

/// A decoded instruction. `Push` and `Jz` carry a 12-bit payload (an
/// immediate value or a jump target); the other variants carry none.
#[derive(Debug, Clone, Copy, PartialEq, Eq, Structural)]
pub enum Opcode {
    /// Push the payload onto the stack, widened to a signed 32-bit value.
    Push(u16),
    /// Discard the top of the stack.
    Pop,
    /// Pop two values, push their sum.
    Add,
    /// Pop two values, push the second popped minus the first popped.
    Sub,
    /// Pop two values, push their product.
    Mul,
    /// Pop one value; if it is zero, jump to the payload address.
    Jz(u16),
    /// Pop one value and emit it.
    Print,
    /// Stop execution.
    Halt,
}

impl Opcode {
    /// The payload of `Push` and `Jz` fits in 12 bits. `decode` only ever
    /// returns such values; `encode` masks wider payloads down to this range.
    pub open spec fn wf(self) -> bool {
        match self {
            Opcode::Push(arg) => arg <= 0xFFF,
            Opcode::Jz(arg) => arg <= 0xFFF,
            _ => true,
        }
    }

    /// The word an instruction encodes to: its tag in the top 4 bits, its
    /// payload (masked to 12 bits, zero for payload-less variants) in the
    /// low 12 bits.
    pub open spec fn encode_spec(self) -> u16 {
        match self {
            Opcode::Push(arg) => arg & 0xFFF,
            Opcode::Pop => 0x1000,
            Opcode::Add => 0x2000,
            Opcode::Sub => 0x3000,
            Opcode::Mul => 0x4000,
            Opcode::Jz(arg) => 0x5000 | (arg & 0xFFF),
            Opcode::Print => 0x6000,
            Opcode::Halt => 0x7000,
        }
    }

    /// What a word decodes to: tags 0 through 7 select the eight variants in
    /// order, handing `Push` and `Jz` the low 12 bits; tags 8 through 15 are
    /// invalid and fail with `InvalidOpcode` carrying the tag.
    pub open spec fn decode_spec(word: u16) -> Result<Opcode, VmError> {
        let tag = word >> 12;
        let arg = word & 0xFFF;
        if tag == 0 {
            Ok(Opcode::Push(arg))
        } else if tag == 1 {
            Ok(Opcode::Pop)
        } else if tag == 2 {
            Ok(Opcode::Add)
        } else if tag == 3 {
            Ok(Opcode::Sub)
        } else if tag == 4 {
            Ok(Opcode::Mul)
        } else if tag == 5 {
            Ok(Opcode::Jz(arg))
        } else if tag == 6 {
            Ok(Opcode::Print)
        } else if tag == 7 {
            Ok(Opcode::Halt)
        } else {
            Err(VmError::InvalidOpcode(tag as u8))
        }
    }

    /// Decode a 16-bit instruction word.
    pub fn decode(word: u16) -> (r: Result<Opcode, VmError>)
        ensures
            r == Opcode::decode_spec(word),
            r matches Ok(op) ==> op.wf(),
    {
        proof {
            lemma_decode_wf(word);
        }
        let tag: u16 = word >> 12;
        let arg: u16 = word & 0xFFF;
        match tag {
            0x0 => Ok(Opcode::Push(arg)),
            0x1 => Ok(Opcode::Pop),
            0x2 => Ok(Opcode::Add),
            0x3 => Ok(Opcode::Sub),
            0x4 => Ok(Opcode::Mul),
            0x5 => Ok(Opcode::Jz(arg)),
            0x6 => Ok(Opcode::Print),
            0x7 => Ok(Opcode::Halt),
            _ => Err(VmError::InvalidOpcode(tag as u8)),
        }
    }

    /// Encode an instruction as a 16-bit word. A payload wider than 12 bits
    /// is silently truncated, never rejected.
    pub fn encode(&self) -> (r: u16)
        ensures
            r == self.encode_spec(),
    {
        match *self {
            Opcode::Push(arg) => arg & 0xFFF,
            Opcode::Pop => 0x1000,
            Opcode::Add => 0x2000,
            Opcode::Sub => 0x3000,
            Opcode::Mul => 0x4000,
            Opcode::Jz(arg) => 0x5000 | (arg & 0xFFF),
            Opcode::Print => 0x6000,
            Opcode::Halt => 0x7000,
        }
    }
}

/// Law: every instruction whose payload is in range round-trips through the
/// codec unchanged.
pub proof fn lemma_encode_decode(i: Opcode)
    requires
        i.wf(),
    ensures
        Opcode::decode_spec(i.encode_spec()) == Ok::<Opcode, VmError>(i),
{
    match i {
        Opcode::Push(arg) => {
            assert(arg <= 0xFFF ==> (arg & 0xFFF) >> 12 == 0 && ((arg & 0xFFF) & 0xFFF) == arg)
                by (bit_vector);
        },
        Opcode::Pop => {
            assert(0x1000u16 >> 12 == 1) by (bit_vector);
        },
        Opcode::Add => {
            assert(0x2000u16 >> 12 == 2) by (bit_vector);
        },
        Opcode::Sub => {
            assert(0x3000u16 >> 12 == 3) by (bit_vector);
        },
        Opcode::Mul => {
            assert(0x4000u16 >> 12 == 4) by (bit_vector);
        },
        Opcode::Jz(arg) => {
            assert(arg <= 0xFFF ==> (0x5000u16 | (arg & 0xFFF)) >> 12 == 5 && ((0x5000u16 | (arg
                & 0xFFF)) & 0xFFF) == arg) by (bit_vector);
        },
        Opcode::Print => {
            assert(0x6000u16 >> 12 == 6) by (bit_vector);
        },
        Opcode::Halt => {
            assert(0x7000u16 >> 12 == 7) by (bit_vector);
        },
    }
}

/// Law: decoding any word whose top 4 bits are 8 through 15 fails with
/// `InvalidOpcode` carrying that tag.
pub proof fn lemma_invalid_tag(word: u16)
    requires
        word >> 12 >= 8,
    ensures
        Opcode::decode_spec(word) == Err::<Opcode, VmError>(VmError::InvalidOpcode(
            (word >> 12) as u8,
        )),
{
}

/// Every successfully decoded instruction carries an in-range payload.
pub proof fn lemma_decode_wf(word: u16)
    ensures
        Opcode::decode_spec(word) matches Ok(op) ==> op.wf(),
{
    assert(word & 0xFFF <= 0xFFF) by (bit_vector);
}

/// Decoding is idempotent through the codec: re-encoding a decoded
/// instruction and decoding again gives the same instruction, even though
/// the re-encoded word may differ from the original (payload bits of
/// payload-less variants are discarded).
pub proof fn lemma_decode_encode_decode(word: u16, i: Opcode)
    requires
        Opcode::decode_spec(word) == Ok::<Opcode, VmError>(i),
    ensures
        Opcode::decode_spec(i.encode_spec()) == Ok::<Opcode, VmError>(i),
{
    lemma_decode_wf(word);
    lemma_encode_decode(i);
}

} // verus!
