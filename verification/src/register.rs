//! The register file: eight general purpose registers, the program counter
//! and the condition register, held as ten 16-bit slots.

use vstd::prelude::*;

verus! {

/// Names of the slots of the register file. `COUNT` names no register: its
/// index is the number of slots.
#[derive(Clone, Copy, Debug, PartialEq, Eq, Structural)]
pub enum Reg {
    R0,
    R1,
    R2,
    R3,
    R4,
    R5,
    R6,
    R7,
    PC,
    COND,
    COUNT,
}

/// Number of slots in the register file.
pub const REG_COUNT: usize = 10;

/// Slot of R0, through which the trap routines pass their argument and
/// result.
pub const R_R0: usize = 0;

/// Slot of R7, which receives the return address of a subroutine call.
pub const R_R7: usize = 7;

/// Slot of the program counter.
pub const R_PC: usize = 8;

/// Slot of the condition register.
pub const R_COND: usize = 9;

/// The program counter's value when execution starts.
pub const PC_START: u16 = 0x3000;

impl Reg {
    /// Position of the slot in the register file.
    pub open spec fn spec_index(self) -> usize {
        match self {
            Reg::R0 => R_R0,
            Reg::R1 => 1,
            Reg::R2 => 2,
            Reg::R3 => 3,
            Reg::R4 => 4,
            Reg::R5 => 5,
            Reg::R6 => 6,
            Reg::R7 => R_R7,
            Reg::PC => R_PC,
            Reg::COND => R_COND,
            Reg::COUNT => REG_COUNT,
        }
    }

    /// Position of the slot in the register file.
    #[verifier::when_used_as_spec(spec_index)]
    pub fn index(self) -> (i: usize)
        ensures
            i == self.spec_index(),
            i <= REG_COUNT,
            self != Reg::COUNT ==> i < REG_COUNT,
    {
        match self {
            Reg::R0 => R_R0,
            Reg::R1 => 1,
            Reg::R2 => 2,
            Reg::R3 => 3,
            Reg::R4 => 4,
            Reg::R5 => 5,
            Reg::R6 => 6,
            Reg::R7 => R_R7,
            Reg::PC => R_PC,
            Reg::COND => R_COND,
            Reg::COUNT => REG_COUNT,
        }
    }
}

/// A register file has exactly ten slots.
pub open spec fn registers_wf(reg: Seq<u16>) -> bool {
    reg.len() == REG_COUNT
}

/// The register file at power-on: every general purpose register and the
/// condition register are zero, and the program counter is `PC_START`.
pub open spec fn initial_registers() -> Seq<u16> {
    Seq::new(REG_COUNT as nat, |i: int| if i == R_PC { PC_START } else { 0u16 })
}

/// Allocates the register file in its power-on state.
pub fn new_registers() -> (reg: Vec<u16>)
    ensures
        reg@ == initial_registers(),
        registers_wf(reg@),
{
    let mut reg: Vec<u16> = Vec::new();
    let mut i: usize = 0;
    while i < REG_COUNT
        invariant
            i <= REG_COUNT,
            reg@.len() == i,
            forall|k: int| 0 <= k < i ==> reg@[k] == (if k == R_PC { PC_START } else { 0u16 }),
        decreases REG_COUNT - i,
    {
        reg.push(if i == R_PC { PC_START } else { 0 });
        i = i + 1;
    }
    reg
}

} // verus!
