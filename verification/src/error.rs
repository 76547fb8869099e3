//! The fatal conditions of the emulator and the exit code of each.

use vstd::prelude::*;

verus! {

/// Every way a run can fail. None is recovered from.
#[derive(Clone, Copy, Debug, PartialEq, Eq, Structural)]
pub enum ErrorKind {
    /// No program image was named on the command line.
    ConfigError,
    /// A program image could not be read or is malformed.
    ImageError,
    /// The instruction's opcode is RTI or the reserved opcode.
    ReservedOpcode,
    /// The instruction's opcode has no handler.
    UnmappedOpcode,
    /// A TRAP instruction names a vector without a routine.
    UnknownTrapVector,
    /// The input ended where a byte was needed.
    InputError,
}

impl ErrorKind {
    /// The process exit code that reports this condition: 2 and 1 for the
    /// two that arise before the run, 10, 20 and 21 for the three kinds of
    /// bad instruction, and 101 for an input error.
    pub open spec fn spec_exit_code(self) -> i32 {
        match self {
            ErrorKind::ConfigError => 2,
            ErrorKind::ImageError => 1,
            ErrorKind::ReservedOpcode => 10,
            ErrorKind::UnmappedOpcode => 20,
            ErrorKind::UnknownTrapVector => 21,
            ErrorKind::InputError => 101,
        }
    }

    /// The process exit code that reports this condition.
    #[verifier::when_used_as_spec(spec_exit_code)]
    pub fn exit_code(self) -> (code: i32)
        ensures
            code == self.spec_exit_code(),
            code != 0,
    {
        match self {
            ErrorKind::ConfigError => 2,
            ErrorKind::ImageError => 1,
            ErrorKind::ReservedOpcode => 10,
            ErrorKind::UnmappedOpcode => 20,
            ErrorKind::UnknownTrapVector => 21,
            ErrorKind::InputError => 101,
        }
    }
}

} // verus!
