//! The condition flags, which record the sign of the value most recently
//! written to a register by a flag-setting instruction.

use vstd::prelude::*;
use crate::register::{registers_wf, REG_COUNT, R_COND};

verus! {

/// The three condition flags. Exactly one is set at any time.
#[allow(non_camel_case_types)]
#[derive(Clone, Copy, Debug, PartialEq, Eq, Structural)]
pub enum CondFlags {
    /// The value was positive.
    FL_POS,
    /// The value was zero.
    FL_ZRO,
    /// The value was negative.
    FL_NEG,
}

impl CondFlags {
    /// The flag as it is stored in the condition register: one bit each.
    pub open spec fn spec_bits(self) -> u16 {
        match self {
            CondFlags::FL_POS => 1,
            CondFlags::FL_ZRO => 2,
            CondFlags::FL_NEG => 4,
        }
    }

    /// The flag as it is stored in the condition register.
    #[verifier::when_used_as_spec(spec_bits)]
    pub fn bits(self) -> (b: u16)
        ensures
            b == self.spec_bits(),
    {
        match self {
            CondFlags::FL_POS => 1,
            CondFlags::FL_ZRO => 2,
            CondFlags::FL_NEG => 4,
        }
    }

    /// The flag that describes `value` read as a signed 16-bit number.
    pub open spec fn spec_of(value: u16) -> CondFlags {
        if value == 0 {
            CondFlags::FL_ZRO
        } else if value >> 15 == 1 {
            CondFlags::FL_NEG
        } else {
            CondFlags::FL_POS
        }
    }

    /// The flag that describes `value` read as a signed 16-bit number.
    #[verifier::when_used_as_spec(spec_of)]
    pub fn of(value: u16) -> (flag: CondFlags)
        ensures
            flag == CondFlags::spec_of(value),
    {
        if value == 0 {
            CondFlags::FL_ZRO
        } else if value >> 15 == 1 {
            CondFlags::FL_NEG
        } else {
            CondFlags::FL_POS
        }
    }
}

/// The register file after the condition register has been set from `value`.
pub open spec fn with_condition(reg: Seq<u16>, value: u16) -> Seq<u16> {
    reg.update(R_COND as int, CondFlags::spec_of(value).spec_bits())
}

/// Sets the condition register from the value held in slot `r`.
pub fn update_flags(r: usize, reg: &mut Vec<u16>)
    requires
        registers_wf(old(reg)@),
        r < REG_COUNT,
    ensures
        final(reg)@ == with_condition(old(reg)@, old(reg)@[r as int]),
        registers_wf(final(reg)@),
{
    let val: u16 = reg[r];
    reg[R_COND] = CondFlags::of(val).bits();
}

/// How many of the three flag bits are set in a condition register value.
pub open spec fn flags_set(cond: u16) -> int {
    (if cond & 1 != 0 { 1int } else { 0int }) + (if cond & 2 != 0 { 1int } else { 0int })
        + (if cond & 4 != 0 { 1int } else { 0int })
}

/// The condition derived from any word has exactly one of the three flags
/// set and no other bit, and it is the sign of the word read as a two's
/// complement number: zero for 0, negative when bit 15 is set, positive
/// otherwise.
pub proof fn lemma_condition_is_sign(value: u16)
    ensures
        flags_set(CondFlags::spec_of(value).spec_bits()) == 1,
        CondFlags::spec_of(value).spec_bits() & !7u16 == 0,
        value == 0 <==> CondFlags::spec_of(value) == CondFlags::FL_ZRO,
        value & 0x8000 != 0 <==> CondFlags::spec_of(value) == CondFlags::FL_NEG,
        value != 0 && value & 0x8000 == 0 <==> CondFlags::spec_of(value) == CondFlags::FL_POS,
        value >= 0x8000 <==> CondFlags::spec_of(value) == CondFlags::FL_NEG,
{
    assert((value >> 15 == 1) <==> value >= 0x8000) by (bit_vector);
    assert((value & 0x8000 != 0) <==> value >= 0x8000) by (bit_vector);
    assert(1u16 & 1 != 0 && 1u16 & 2 == 0 && 1u16 & 4 == 0 && 1u16 & !7u16 == 0) by (bit_vector);
    assert(2u16 & 1 == 0 && 2u16 & 2 != 0 && 2u16 & 4 == 0 && 2u16 & !7u16 == 0) by (bit_vector);
    assert(4u16 & 1 == 0 && 4u16 & 2 == 0 && 4u16 & 4 != 0 && 4u16 & !7u16 == 0) by (bit_vector);
}

/// After `update_flags` the condition register holds exactly one flag, the
/// one that describes the register it was set from.
pub proof fn lemma_update_sets_one_flag(reg: Seq<u16>, r: int)
    requires
        registers_wf(reg),
        0 <= r < REG_COUNT,
    ensures
        flags_set(with_condition(reg, reg[r])[R_COND as int]) == 1,
        with_condition(reg, reg[r])[R_COND as int] == CondFlags::spec_of(reg[r]).spec_bits(),
        forall|i: int|
            0 <= i < REG_COUNT && i != R_COND ==> with_condition(reg, reg[r])[i] == reg[i],
{
    lemma_condition_is_sign(reg[r]);
}

} // verus!
