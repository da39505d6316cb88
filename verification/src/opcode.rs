//! The instruction set and its one-byte encoding.

use vstd::prelude::*;
use vstd::std_specs::convert::TryFromSpecImpl;
use crate::error::VMError;

verus! {

/// The instructions of the machine.
#[derive(Debug, Clone, Copy, PartialEq, Eq, Structural)]
pub enum Opcode {
    /// Push the byte that follows the instruction.
    Push,
    /// Discard the top value.
    Pop,
    /// Replace the top two values by their sum.
    Add,
    /// Replace the top two values by their difference.
    Sub,
    /// Write a value to a memory cell.
    Store,
    /// Read a memory cell.
    Load,
    /// Continue at a given position.
    Jmp,
    /// Continue at a given position if a condition is non-zero.
    JumpIf,
    /// Duplicate the top value.
    Dup,
    /// Exchange the top two values.
    Swap,
    /// Bring the third value from the top to the top.
    Rot,
    /// Copy the second value from the top to the top.
    Over,
    /// Copy a value at a given position to the top.
    Pick,
    /// Replace the top two values by their product.
    Mul,
}

impl Opcode {
    /// The byte that encodes this instruction.
    pub open spec fn encoding(self) -> u8 {
        match self {
            Opcode::Push => 0x01,
            Opcode::Pop => 0x02,
            Opcode::Add => 0x03,
            Opcode::Sub => 0x04,
            Opcode::Store => 0x05,
            Opcode::Load => 0x06,
            Opcode::Jmp => 0x07,
            Opcode::JumpIf => 0x08,
            Opcode::Dup => 0x09,
            Opcode::Swap => 0x10,
            Opcode::Rot => 0x11,
            Opcode::Over => 0x12,
            Opcode::Pick => 0x13,
            Opcode::Mul => 0x14,
        }
    }

    /// Whether a byte encodes an instruction: the encodings are `0x01..=0x09`
    /// and `0x10..=0x14`.
    pub open spec fn is_encoding(byte: u8) -> bool {
        0x01 <= byte <= 0x09 || 0x10 <= byte <= 0x14
    }

    /// The instruction that a byte encodes, if it encodes one.
    pub open spec fn decode(byte: u8) -> Option<Opcode> {
        if Self::is_encoding(byte) {
            Some(choose|op: Opcode| op.encoding() == byte)
        } else {
            None
        }
    }

    /// Every instruction's encoding is recognised as one, and no two
    /// instructions share an encoding.
    pub proof fn lemma_encoding_is_injective(a: Opcode, b: Opcode)
        ensures
            Self::is_encoding(a.encoding()),
            a.encoding() == b.encoding() ==> a == b,
    {
    }

    /// Decoding inverts encoding: a byte decodes to an instruction exactly
    /// when it is that instruction's encoding.
    pub proof fn lemma_decode_inverts_encoding(byte: u8, op: Opcode)
        ensures
            Self::decode(op.encoding()) == Some(op),
            Self::decode(byte) == Some(op) <==> op.encoding() == byte,
    {
        Self::lemma_decode_is_total(byte);
        Self::lemma_decode_is_total(op.encoding());
    }

    /// Each byte either is the encoding of the instruction it decodes to, or
    /// lies outside the encodings and decodes to nothing.
    pub proof fn lemma_decode_is_total(byte: u8)
        ensures
            match Self::decode(byte) {
                Some(op) => Self::is_encoding(byte) && op.encoding() == byte,
                None => !Self::is_encoding(byte) && forall|op: Opcode| op.encoding() != byte,
            },
    {
        if Self::is_encoding(byte) {
            let witness = if byte == 0x01 {
                Opcode::Push
            } else if byte == 0x02 {
                Opcode::Pop
            } else if byte == 0x03 {
                Opcode::Add
            } else if byte == 0x04 {
                Opcode::Sub
            } else if byte == 0x05 {
                Opcode::Store
            } else if byte == 0x06 {
                Opcode::Load
            } else if byte == 0x07 {
                Opcode::Jmp
            } else if byte == 0x08 {
                Opcode::JumpIf
            } else if byte == 0x09 {
                Opcode::Dup
            } else if byte == 0x10 {
                Opcode::Swap
            } else if byte == 0x11 {
                Opcode::Rot
            } else if byte == 0x12 {
                Opcode::Over
            } else if byte == 0x13 {
                Opcode::Pick
            } else {
                Opcode::Mul
            };
            assert(witness.encoding() == byte);
        } else {
            assert forall|op: Opcode| op.encoding() != byte by {
                Self::lemma_encoding_is_injective(op, op);
            }
        }
    }

    /// The byte that encodes this instruction.
    pub fn to_byte(self) -> (byte: u8)
        ensures
            byte == self.encoding(),
    {
        match self {
            Opcode::Push => 0x01,
            Opcode::Pop => 0x02,
            Opcode::Add => 0x03,
            Opcode::Sub => 0x04,
            Opcode::Store => 0x05,
            Opcode::Load => 0x06,
            Opcode::Jmp => 0x07,
            Opcode::JumpIf => 0x08,
            Opcode::Dup => 0x09,
            Opcode::Swap => 0x10,
            Opcode::Rot => 0x11,
            Opcode::Over => 0x12,
            Opcode::Pick => 0x13,
            Opcode::Mul => 0x14,
        }
    }
}

impl TryFrom<u8> for Opcode {
    type Error = VMError;

    /// Decodes one byte: the instruction it encodes, or `InvalidOpcode` for
    /// every byte that encodes none.
    fn try_from(value: u8) -> (r: Result<Opcode, VMError>)
        ensures
            r matches Ok(op) ==> Opcode::decode(value) == Some(op),
            r is Err <==> Opcode::decode(value) is None,
            r is Ok <==> Opcode::is_encoding(value),
            r matches Ok(op) ==> op.encoding() == value,
            r matches Err(e) ==> e == VMError::InvalidOpcode,
    {
        proof {
            Opcode::lemma_decode_is_total(value);
        }
        match value {
            0x01 => Ok(Opcode::Push),
            0x02 => Ok(Opcode::Pop),
            0x03 => Ok(Opcode::Add),
            0x04 => Ok(Opcode::Sub),
            0x05 => Ok(Opcode::Store),
            0x06 => Ok(Opcode::Load),
            0x07 => Ok(Opcode::Jmp),
            0x08 => Ok(Opcode::JumpIf),
            0x09 => Ok(Opcode::Dup),
            0x10 => Ok(Opcode::Swap),
            0x11 => Ok(Opcode::Rot),
            0x12 => Ok(Opcode::Over),
            0x13 => Ok(Opcode::Pick),
            0x14 => Ok(Opcode::Mul),
            _ => Err(VMError::InvalidOpcode),
        }
    }
}

impl TryFromSpecImpl<u8> for Opcode {
    open spec fn obeys_try_from_spec() -> bool {
        true
    }

    open spec fn try_from_spec(value: u8) -> Result<Opcode, VMError> {
        match Opcode::decode(value) {
            Some(op) => Ok(op),
            None => Err(VMError::InvalidOpcode),
        }
    }
}

} // verus!
