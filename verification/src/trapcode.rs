//! The trap vectors. The low eight bits of a TRAP instruction select one.

use vstd::prelude::*;

verus! {

/// The system calls.
#[derive(Clone, Copy, Debug, PartialEq, Eq, Structural)]
pub enum TrapCode {
    /// Read one key, without echo.
    GETC,
    /// Write one character.
    OUT,
    /// Write a string held one character to a word.
    PUTS,
    /// Prompt, then read one key.
    IN,
    /// Write a string held two characters to a word.
    PUTSP,
    /// Stop the machine.
    HALT,
}

impl TrapCode {
    /// The vector that selects the routine.
    pub open spec fn spec_vector(self) -> u16 {
        match self {
            TrapCode::GETC => 0x20,
            TrapCode::OUT => 0x21,
            TrapCode::PUTS => 0x22,
            TrapCode::IN => 0x23,
            TrapCode::PUTSP => 0x24,
            TrapCode::HALT => 0x25,
        }
    }

    /// The vector that selects the routine.
    #[verifier::when_used_as_spec(spec_vector)]
    pub fn vector(self) -> (v: u16)
        ensures
            v == self.spec_vector(),
    {
        match self {
            TrapCode::GETC => 0x20,
            TrapCode::OUT => 0x21,
            TrapCode::PUTS => 0x22,
            TrapCode::IN => 0x23,
            TrapCode::PUTSP => 0x24,
            TrapCode::HALT => 0x25,
        }
    }

    /// The routine that `vector` selects, if there is one.
    pub open spec fn spec_from_vector(vector: u16) -> Option<TrapCode> {
        if vector == 0x20 {
            Some(TrapCode::GETC)
        } else if vector == 0x21 {
            Some(TrapCode::OUT)
        } else if vector == 0x22 {
            Some(TrapCode::PUTS)
        } else if vector == 0x23 {
            Some(TrapCode::IN)
        } else if vector == 0x24 {
            Some(TrapCode::PUTSP)
        } else if vector == 0x25 {
            Some(TrapCode::HALT)
        } else {
            None
        }
    }

    /// The routine that `vector` selects; `None` where no routine is installed.
    #[verifier::when_used_as_spec(spec_from_vector)]
    pub fn from_vector(vector: u16) -> (t: Option<TrapCode>)
        ensures
            t == TrapCode::spec_from_vector(vector),
            t is Some <==> 0x20 <= vector <= 0x25,
            t is Some ==> t->0.spec_vector() == vector,
    {
        match vector {
            0x20 => Some(TrapCode::GETC),
            0x21 => Some(TrapCode::OUT),
            0x22 => Some(TrapCode::PUTS),
            0x23 => Some(TrapCode::IN),
            0x24 => Some(TrapCode::PUTSP),
            0x25 => Some(TrapCode::HALT),
            _ => None,
        }
    }
}

/// The vector field of a TRAP instruction: bits 7..0.
pub open spec fn trap_vector(instr: u16) -> u16 {
    instr & 0xFF
}

} // verus!
