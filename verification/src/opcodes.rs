//! The sixteen opcodes. Bits 15..12 of an instruction select one of them.

use vstd::prelude::*;

verus! {

/// The instruction classes, in the order of their 4-bit codes.
#[allow(non_camel_case_types)]
#[derive(Clone, Copy, Debug, PartialEq, Eq, Structural)]
pub enum OpCodes {
    /// Conditional branch.
    OP_BR,
    /// Addition.
    OP_ADD,
    /// Load, PC-relative.
    OP_LD,
    /// Store, PC-relative.
    OP_ST,
    /// Jump to subroutine.
    OP_JSR,
    /// Bitwise and.
    OP_AND,
    /// Load, base plus offset.
    OP_LDR,
    /// Store, base plus offset.
    OP_STR,
    /// Return from interrupt; not implemented.
    OP_RTI,
    /// Bitwise complement.
    OP_NOT,
    /// Load, indirect.
    OP_LDI,
    /// Store, indirect.
    OP_STI,
    /// Jump.
    OP_JMP,
    /// Reserved.
    OP_RES,
    /// Load effective address.
    OP_LEA,
    /// System call.
    OP_TRAP,
}

impl OpCodes {
    /// The opcode's 4-bit code.
    pub open spec fn spec_code(self) -> u16 {
        match self {
            OpCodes::OP_BR => 0,
            OpCodes::OP_ADD => 1,
            OpCodes::OP_LD => 2,
            OpCodes::OP_ST => 3,
            OpCodes::OP_JSR => 4,
            OpCodes::OP_AND => 5,
            OpCodes::OP_LDR => 6,
            OpCodes::OP_STR => 7,
            OpCodes::OP_RTI => 8,
            OpCodes::OP_NOT => 9,
            OpCodes::OP_LDI => 10,
            OpCodes::OP_STI => 11,
            OpCodes::OP_JMP => 12,
            OpCodes::OP_RES => 13,
            OpCodes::OP_LEA => 14,
            OpCodes::OP_TRAP => 15,
        }
    }

    /// The opcode's 4-bit code.
    #[verifier::when_used_as_spec(spec_code)]
    pub fn code(self) -> (c: u16)
        ensures
            c == self.spec_code(),
            c < 16,
    {
        match self {
            OpCodes::OP_BR => 0,
            OpCodes::OP_ADD => 1,
            OpCodes::OP_LD => 2,
            OpCodes::OP_ST => 3,
            OpCodes::OP_JSR => 4,
            OpCodes::OP_AND => 5,
            OpCodes::OP_LDR => 6,
            OpCodes::OP_STR => 7,
            OpCodes::OP_RTI => 8,
            OpCodes::OP_NOT => 9,
            OpCodes::OP_LDI => 10,
            OpCodes::OP_STI => 11,
            OpCodes::OP_JMP => 12,
            OpCodes::OP_RES => 13,
            OpCodes::OP_LEA => 14,
            OpCodes::OP_TRAP => 15,
        }
    }

    /// The opcode with the given code, if there is one.
    pub open spec fn spec_from_code(code: u16) -> Option<OpCodes> {
        if code == 0 {
            Some(OpCodes::OP_BR)
        } else if code == 1 {
            Some(OpCodes::OP_ADD)
        } else if code == 2 {
            Some(OpCodes::OP_LD)
        } else if code == 3 {
            Some(OpCodes::OP_ST)
        } else if code == 4 {
            Some(OpCodes::OP_JSR)
        } else if code == 5 {
            Some(OpCodes::OP_AND)
        } else if code == 6 {
            Some(OpCodes::OP_LDR)
        } else if code == 7 {
            Some(OpCodes::OP_STR)
        } else if code == 8 {
            Some(OpCodes::OP_RTI)
        } else if code == 9 {
            Some(OpCodes::OP_NOT)
        } else if code == 10 {
            Some(OpCodes::OP_LDI)
        } else if code == 11 {
            Some(OpCodes::OP_STI)
        } else if code == 12 {
            Some(OpCodes::OP_JMP)
        } else if code == 13 {
            Some(OpCodes::OP_RES)
        } else if code == 14 {
            Some(OpCodes::OP_LEA)
        } else if code == 15 {
            Some(OpCodes::OP_TRAP)
        } else {
            None
        }
    }

    /// The opcode with the given code; `None` for a number that is no code.
    #[verifier::when_used_as_spec(spec_from_code)]
    pub fn from_code(code: u16) -> (op: Option<OpCodes>)
        ensures
            op == OpCodes::spec_from_code(code),
            op is Some <==> code < 16,
            op is Some ==> op->0.spec_code() == code,
    {
        match code {
            0 => Some(OpCodes::OP_BR),
            1 => Some(OpCodes::OP_ADD),
            2 => Some(OpCodes::OP_LD),
            3 => Some(OpCodes::OP_ST),
            4 => Some(OpCodes::OP_JSR),
            5 => Some(OpCodes::OP_AND),
            6 => Some(OpCodes::OP_LDR),
            7 => Some(OpCodes::OP_STR),
            8 => Some(OpCodes::OP_RTI),
            9 => Some(OpCodes::OP_NOT),
            10 => Some(OpCodes::OP_LDI),
            11 => Some(OpCodes::OP_STI),
            12 => Some(OpCodes::OP_JMP),
            13 => Some(OpCodes::OP_RES),
            14 => Some(OpCodes::OP_LEA),
            15 => Some(OpCodes::OP_TRAP),
            _ => None,
        }
    }
}

/// The opcode field of an instruction: bits 15..12.
pub open spec fn opcode_field(instr: u16) -> u16 {
    instr >> 12
}

/// Every instruction word decodes to an opcode: the field is four bits wide
/// and each of its sixteen values is a code.
pub proof fn lemma_opcode_field_is_code(instr: u16)
    ensures
        opcode_field(instr) < 16,
        OpCodes::spec_from_code(opcode_field(instr)) is Some,
        OpCodes::spec_from_code(opcode_field(instr))->0.spec_code() == opcode_field(instr),
{
    assert(instr >> 12 < 16) by (bit_vector);
}

/// Decoding inverts `code`.
pub proof fn lemma_code_round_trip(op: OpCodes)
    ensures
        OpCodes::spec_from_code(op.spec_code()) == Some(op),
{
}

} // verus!
