//! The thirteen instruction handlers. Each takes the instruction word and the
//! parts of the machine that it touches, with the program counter already
//! advanced past the instruction.

use vstd::prelude::*;
use std::collections::VecDeque;
use crate::bits::{add_words, sign_extend, sign_extend_spec, wrap_add};
use crate::error::ErrorKind;
use crate::flags::{update_flags, with_condition, CondFlags};
use crate::memory::{
    input_after_read, mem_read, mem_write, memory_after_read, memory_wf, read_fails, read_value,
    KBSR,
};
use crate::register::{registers_wf, R_COND, R_PC, R_R7};

verus! {

/// Bits 11..9: the destination register of a load or an operation, the source
/// register of a store.
pub open spec fn field_dr(instr: u16) -> int {
    ((instr >> 9) & 0x7) as int
}

/// Bits 8..6: the first source register or the base register.
pub open spec fn field_base(instr: u16) -> int {
    ((instr >> 6) & 0x7) as int
}

/// Bits 2..0: the second source register.
pub open spec fn field_sr2(instr: u16) -> int {
    (instr & 0x7) as int
}

/// Bit 5: whether the second operand is an immediate.
pub open spec fn imm_mode(instr: u16) -> bool {
    (instr >> 5) & 0x1 == 1
}

/// Bit 11: whether a subroutine jump is PC-relative.
pub open spec fn long_mode(instr: u16) -> bool {
    (instr >> 11) & 0x1 == 1
}

/// Bits 11..9 of a branch: the conditions on which it is taken.
pub open spec fn branch_mask(instr: u16) -> u16 {
    (instr >> 9) & 0x7
}

/// Bits 4..0, sign-extended.
pub open spec fn imm5(instr: u16) -> u16 {
    sign_extend_spec(instr & 0x1F, 5)
}

/// Bits 5..0, sign-extended.
pub open spec fn offset6(instr: u16) -> u16 {
    sign_extend_spec(instr & 0x3F, 6)
}

/// Bits 8..0, sign-extended.
pub open spec fn offset9(instr: u16) -> u16 {
    sign_extend_spec(instr & 0x1FF, 9)
}

/// Bits 10..0, sign-extended.
pub open spec fn offset11(instr: u16) -> u16 {
    sign_extend_spec(instr & 0x7FF, 11)
}

fn dest_register(instr: u16) -> (r: usize)
    ensures
        r == field_dr(instr),
        r < 8,
{
    assert((instr >> 9) & 0x7 < 8) by (bit_vector);
    ((instr >> 9) & 0x7) as usize
}

pub(crate) fn base_register(instr: u16) -> (r: usize)
    ensures
        r == field_base(instr),
        r < 8,
{
    assert((instr >> 6) & 0x7 < 8) by (bit_vector);
    ((instr >> 6) & 0x7) as usize
}

fn second_register(instr: u16) -> (r: usize)
    ensures
        r == field_sr2(instr),
        r < 8,
{
    assert(instr & 0x7 < 8) by (bit_vector);
    (instr & 0x7) as usize
}

/// The three register fields of any instruction name general purpose
/// registers.
pub proof fn lemma_register_fields_in_range(instr: u16)
    ensures
        0 <= field_dr(instr) < 8,
        0 <= field_base(instr) < 8,
        0 <= field_sr2(instr) < 8,
{
    assert((instr >> 9) & 0x7 < 8) by (bit_vector);
    assert((instr >> 6) & 0x7 < 8) by (bit_vector);
    assert(instr & 0x7 < 8) by (bit_vector);
}

/// The register file after `value` has been written to register `r` and the
/// condition register set from it.
pub open spec fn load_register(reg: Seq<u16>, r: int, value: u16) -> Seq<u16> {
    with_condition(reg.update(r, value), value)
}

/// The second operand of ADD and AND.
pub open spec fn second_operand(reg: Seq<u16>, instr: u16) -> u16 {
    if imm_mode(instr) {
        imm5(instr)
    } else {
        reg[field_sr2(instr)]
    }
}

/// Registers after ADD.
pub open spec fn after_add(reg: Seq<u16>, instr: u16) -> Seq<u16> {
    load_register(
        reg,
        field_dr(instr),
        wrap_add(reg[field_base(instr)], second_operand(reg, instr)),
    )
}

/// Registers after AND.
pub open spec fn after_and(reg: Seq<u16>, instr: u16) -> Seq<u16> {
    load_register(reg, field_dr(instr), reg[field_base(instr)] & second_operand(reg, instr))
}

/// Registers after NOT.
pub open spec fn after_not(reg: Seq<u16>, instr: u16) -> Seq<u16> {
    load_register(reg, field_dr(instr), !reg[field_base(instr)])
}

/// Whether a branch is taken: one of the conditions it names is the one set.
pub open spec fn branch_taken(reg: Seq<u16>, instr: u16) -> bool {
    branch_mask(instr) & reg[R_COND as int] != 0
}

/// Registers after BR.
pub open spec fn after_branch(reg: Seq<u16>, instr: u16) -> Seq<u16> {
    if branch_taken(reg, instr) {
        reg.update(R_PC as int, wrap_add(reg[R_PC as int], offset9(instr)))
    } else {
        reg
    }
}

/// Registers after JMP.
pub open spec fn after_jump(reg: Seq<u16>, instr: u16) -> Seq<u16> {
    reg.update(R_PC as int, reg[field_base(instr)])
}

/// Registers after JSR or JSRR. The return address is stored in R7 before the
/// base register is read, so a jump through R7 lands on the return address.
pub open spec fn after_jsr(reg: Seq<u16>, instr: u16) -> Seq<u16> {
    let linked = reg.update(R_R7 as int, reg[R_PC as int]);
    if long_mode(instr) {
        linked.update(R_PC as int, wrap_add(reg[R_PC as int], offset11(instr)))
    } else {
        linked.update(R_PC as int, linked[field_base(instr)])
    }
}

/// Registers after LEA.
pub open spec fn after_lea(reg: Seq<u16>, instr: u16) -> Seq<u16> {
    load_register(reg, field_dr(instr), wrap_add(reg[R_PC as int], offset9(instr)))
}

/// Memory after ST.
pub open spec fn after_st(reg: Seq<u16>, instr: u16, mem: Seq<u16>) -> Seq<u16> {
    mem.update(wrap_add(reg[R_PC as int], offset9(instr)) as int, reg[field_dr(instr)])
}

/// Memory after STR.
pub open spec fn after_str(reg: Seq<u16>, instr: u16, mem: Seq<u16>) -> Seq<u16> {
    mem.update(wrap_add(reg[field_base(instr)], offset6(instr)) as int, reg[field_dr(instr)])
}

/// What an instruction that reads memory leaves behind. `ok` is false when a
/// keyboard poll found the input exhausted.
pub struct Access {
    pub reg: Seq<u16>,
    pub mem: Seq<u16>,
    pub input: Seq<u8>,
    pub ok: bool,
}

/// Loading register `dr` from address `addr`.
pub open spec fn after_load(
    reg: Seq<u16>,
    mem: Seq<u16>,
    input: Seq<u8>,
    addr: u16,
    dr: int,
) -> Access {
    if read_fails(addr, input) {
        Access { reg, mem, input, ok: false }
    } else {
        Access {
            reg: load_register(reg, dr, read_value(addr, mem, input)),
            mem: memory_after_read(addr, mem, input),
            input: input_after_read(addr, input),
            ok: true,
        }
    }
}

/// The machine after LD.
pub open spec fn after_ld(reg: Seq<u16>, instr: u16, mem: Seq<u16>, input: Seq<u8>) -> Access {
    after_load(reg, mem, input, wrap_add(reg[R_PC as int], offset9(instr)), field_dr(instr))
}

/// The machine after LDR.
pub open spec fn after_ldr(reg: Seq<u16>, instr: u16, mem: Seq<u16>, input: Seq<u8>) -> Access {
    after_load(
        reg,
        mem,
        input,
        wrap_add(reg[field_base(instr)], offset6(instr)),
        field_dr(instr),
    )
}

/// The machine after LDI: the word at PC + offset is the address of the value.
pub open spec fn after_ldi(reg: Seq<u16>, instr: u16, mem: Seq<u16>, input: Seq<u8>) -> Access {
    let pointer = wrap_add(reg[R_PC as int], offset9(instr));
    if read_fails(pointer, input) {
        Access { reg, mem, input, ok: false }
    } else {
        after_load(
            reg,
            memory_after_read(pointer, mem, input),
            input_after_read(pointer, input),
            read_value(pointer, mem, input),
            field_dr(instr),
        )
    }
}

/// The machine after STI: the word at PC + offset is the address stored to.
pub open spec fn after_sti(reg: Seq<u16>, instr: u16, mem: Seq<u16>, input: Seq<u8>) -> Access {
    let pointer = wrap_add(reg[R_PC as int], offset9(instr));
    if read_fails(pointer, input) {
        Access { reg, mem, input, ok: false }
    } else {
        Access {
            reg,
            mem: memory_after_read(pointer, mem, input).update(
                read_value(pointer, mem, input) as int,
                reg[field_dr(instr)],
            ),
            input: input_after_read(pointer, input),
            ok: true,
        }
    }
}

/// The result that a handler reports for an access.
pub open spec fn access_result(a: Access) -> Result<(), ErrorKind> {
    if a.ok {
        Ok(())
    } else {
        Err(ErrorKind::InputError)
    }
}

/// ADD: DR = SR1 + (SR2 or imm5), modulo 2^16; sets the condition.
pub fn op_add(reg: &mut Vec<u16>, instr: u16)
    requires
        registers_wf(old(reg)@),
    ensures
        final(reg)@ == after_add(old(reg)@, instr),
        registers_wf(final(reg)@),
{
    let r0 = dest_register(instr);
    let r1 = base_register(instr);
    let imm_flag: u16 = (instr >> 5) & 0x01;
    let operand: u16 = if imm_flag == 1 {
        sign_extend(instr & 0x1F, 5)
    } else {
        reg[second_register(instr)]
    };
    let sum: u16 = add_words(reg[r1], operand);
    reg[r0] = sum;
    update_flags(r0, reg);
}

/// AND: DR = SR1 & (SR2 or imm5); sets the condition.
pub fn op_and(reg: &mut Vec<u16>, instr: u16)
    requires
        registers_wf(old(reg)@),
    ensures
        final(reg)@ == after_and(old(reg)@, instr),
        registers_wf(final(reg)@),
{
    let r0 = dest_register(instr);
    let r1 = base_register(instr);
    let imm_flag: u16 = (instr >> 5) & 0x01;
    let operand: u16 = if imm_flag == 1 {
        sign_extend(instr & 0x1F, 5)
    } else {
        reg[second_register(instr)]
    };
    let masked: u16 = reg[r1] & operand;
    reg[r0] = masked;
    update_flags(r0, reg);
}

/// NOT: DR = bitwise complement of SR; sets the condition.
pub fn op_not(reg: &mut Vec<u16>, instr: u16)
    requires
        registers_wf(old(reg)@),
    ensures
        final(reg)@ == after_not(old(reg)@, instr),
        registers_wf(final(reg)@),
{
    let r0 = dest_register(instr);
    let r1 = base_register(instr);
    let flipped: u16 = !reg[r1];
    reg[r0] = flipped;
    update_flags(r0, reg);
}

/// BR: adds the offset to the program counter if a named condition is set.
pub fn op_branch(reg: &mut Vec<u16>, instr: u16)
    requires
        registers_wf(old(reg)@),
    ensures
        final(reg)@ == after_branch(old(reg)@, instr),
        registers_wf(final(reg)@),
{
    let pc_offset: u16 = sign_extend(instr & 0x1FF, 9);
    let cond_flag: u16 = (instr >> 9) & 0x7;
    if (cond_flag & reg[R_COND]) > 0 {
        let target: u16 = add_words(reg[R_PC], pc_offset);
        reg[R_PC] = target;
    }
}

/// JMP: PC = BaseR. RET is the jump through R7.
pub fn op_jump(reg: &mut Vec<u16>, instr: u16)
    requires
        registers_wf(old(reg)@),
    ensures
        final(reg)@ == after_jump(old(reg)@, instr),
        registers_wf(final(reg)@),
{
    let r1 = base_register(instr);
    let target: u16 = reg[r1];
    reg[R_PC] = target;
}

/// JSR and JSRR: R7 = PC, then PC += offset11 or PC = BaseR.
pub fn op_jsr(reg: &mut Vec<u16>, instr: u16)
    requires
        registers_wf(old(reg)@),
    ensures
        final(reg)@ == after_jsr(old(reg)@, instr),
        registers_wf(final(reg)@),
{
    let long_flag: u16 = (instr >> 11) & 1;
    let pc: u16 = reg[R_PC];
    reg[R_R7] = pc;
    if long_flag == 1 {
        let long_pc_offset: u16 = sign_extend(instr & 0x7FF, 11);
        reg[R_PC] = add_words(pc, long_pc_offset);
    } else {
        let r1 = base_register(instr);
        let target: u16 = reg[r1];
        reg[R_PC] = target;
    }
}

/// LD: DR = memory[PC + offset9]; sets the condition.
pub fn op_load(
    reg: &mut Vec<u16>,
    instr: u16,
    memory: &mut Vec<u16>,
    input: &mut VecDeque<u8>,
) -> (r: Result<(), ErrorKind>)
    requires
        registers_wf(old(reg)@),
        memory_wf(old(memory)@),
    ensures
        final(reg)@ == after_ld(old(reg)@, instr, old(memory)@, old(input)@).reg,
        final(memory)@ == after_ld(old(reg)@, instr, old(memory)@, old(input)@).mem,
        final(input)@ == after_ld(old(reg)@, instr, old(memory)@, old(input)@).input,
        r == access_result(after_ld(old(reg)@, instr, old(memory)@, old(input)@)),
        registers_wf(final(reg)@),
        memory_wf(final(memory)@),
{
    let r0 = dest_register(instr);
    let pc_offset: u16 = sign_extend(instr & 0x1FF, 9);
    let addr: u16 = add_words(reg[R_PC], pc_offset);
    match mem_read(addr, memory, input) {
        Ok(value) => {
            reg[r0] = value;
            update_flags(r0, reg);
            Ok(())
        },
        Err(e) => Err(e),
    }
}

/// LDI: DR = memory[memory[PC + offset9]]; sets the condition.
pub fn op_ldi(
    reg: &mut Vec<u16>,
    instr: u16,
    memory: &mut Vec<u16>,
    input: &mut VecDeque<u8>,
) -> (r: Result<(), ErrorKind>)
    requires
        registers_wf(old(reg)@),
        memory_wf(old(memory)@),
    ensures
        final(reg)@ == after_ldi(old(reg)@, instr, old(memory)@, old(input)@).reg,
        final(memory)@ == after_ldi(old(reg)@, instr, old(memory)@, old(input)@).mem,
        final(input)@ == after_ldi(old(reg)@, instr, old(memory)@, old(input)@).input,
        r == access_result(after_ldi(old(reg)@, instr, old(memory)@, old(input)@)),
        registers_wf(final(reg)@),
        memory_wf(final(memory)@),
{
    let r0 = dest_register(instr);
    let pc_offset: u16 = sign_extend(instr & 0x1FF, 9);
    let pointer: u16 = add_words(reg[R_PC], pc_offset);
    let addr: u16 = match mem_read(pointer, memory, input) {
        Ok(a) => a,
        Err(e) => {
            return Err(e);
        },
    };
    match mem_read(addr, memory, input) {
        Ok(value) => {
            reg[r0] = value;
            update_flags(r0, reg);
            Ok(())
        },
        Err(e) => Err(e),
    }
}

/// LDR: DR = memory[BaseR + offset6]; sets the condition.
pub fn op_ldr(
    reg: &mut Vec<u16>,
    instr: u16,
    memory: &mut Vec<u16>,
    input: &mut VecDeque<u8>,
) -> (r: Result<(), ErrorKind>)
    requires
        registers_wf(old(reg)@),
        memory_wf(old(memory)@),
    ensures
        final(reg)@ == after_ldr(old(reg)@, instr, old(memory)@, old(input)@).reg,
        final(memory)@ == after_ldr(old(reg)@, instr, old(memory)@, old(input)@).mem,
        final(input)@ == after_ldr(old(reg)@, instr, old(memory)@, old(input)@).input,
        r == access_result(after_ldr(old(reg)@, instr, old(memory)@, old(input)@)),
        registers_wf(final(reg)@),
        memory_wf(final(memory)@),
{
    let r0 = dest_register(instr);
    let r1 = base_register(instr);
    let offset: u16 = sign_extend(instr & 0x3F, 6);
    let addr: u16 = add_words(reg[r1], offset);
    match mem_read(addr, memory, input) {
        Ok(value) => {
            reg[r0] = value;
            update_flags(r0, reg);
            Ok(())
        },
        Err(e) => Err(e),
    }
}

/// LEA: DR = PC + offset9; sets the condition. Memory is not read.
pub fn op_lea(reg: &mut Vec<u16>, instr: u16)
    requires
        registers_wf(old(reg)@),
    ensures
        final(reg)@ == after_lea(old(reg)@, instr),
        registers_wf(final(reg)@),
{
    let r0 = dest_register(instr);
    let pc_offset: u16 = sign_extend(instr & 0x1FF, 9);
    let addr: u16 = add_words(reg[R_PC], pc_offset);
    reg[r0] = addr;
    update_flags(r0, reg);
}

/// ST: memory[PC + offset9] = SR.
pub fn op_st(reg: &mut Vec<u16>, instr: u16, memory: &mut Vec<u16>)
    requires
        registers_wf(old(reg)@),
        memory_wf(old(memory)@),
    ensures
        final(reg)@ == old(reg)@,
        final(memory)@ == after_st(old(reg)@, instr, old(memory)@),
        memory_wf(final(memory)@),
{
    let r0 = dest_register(instr);
    let pc_offset: u16 = sign_extend(instr & 0x1FF, 9);
    mem_write(add_words(reg[R_PC], pc_offset), reg[r0], memory);
}

/// STI: memory[memory[PC + offset9]] = SR.
pub fn op_sti(
    reg: &mut Vec<u16>,
    instr: u16,
    memory: &mut Vec<u16>,
    input: &mut VecDeque<u8>,
) -> (r: Result<(), ErrorKind>)
    requires
        registers_wf(old(reg)@),
        memory_wf(old(memory)@),
    ensures
        final(reg)@ == old(reg)@,
        final(memory)@ == after_sti(old(reg)@, instr, old(memory)@, old(input)@).mem,
        final(input)@ == after_sti(old(reg)@, instr, old(memory)@, old(input)@).input,
        r == access_result(after_sti(old(reg)@, instr, old(memory)@, old(input)@)),
        memory_wf(final(memory)@),
{
    let r0 = dest_register(instr);
    let pc_offset: u16 = sign_extend(instr & 0x1FF, 9);
    let pointer: u16 = add_words(reg[R_PC], pc_offset);
    match mem_read(pointer, memory, input) {
        Ok(addr) => {
            mem_write(addr, reg[r0], memory);
            Ok(())
        },
        Err(e) => Err(e),
    }
}

/// STR: memory[BaseR + offset6] = SR.
pub fn op_str(reg: &mut Vec<u16>, instr: u16, memory: &mut Vec<u16>)
    requires
        registers_wf(old(reg)@),
        memory_wf(old(memory)@),
    ensures
        final(reg)@ == old(reg)@,
        final(memory)@ == after_str(old(reg)@, instr, old(memory)@),
        memory_wf(final(memory)@),
{
    let r0 = dest_register(instr);
    let r1 = base_register(instr);
    let offset: u16 = sign_extend(instr & 0x3F, 6);
    mem_write(add_words(reg[r1], offset), reg[r0], memory);
}

/// A branch is taken exactly when the condition that is set is one that the
/// instruction names: bit 11 names negative, bit 10 zero, bit 9 positive. A
/// branch that is taken adds the offset to the program counter; one that is
/// not leaves every register as it was.
pub proof fn lemma_branch_follows_condition(reg: Seq<u16>, instr: u16, flag: CondFlags)
    requires
        registers_wf(reg),
        reg[R_COND as int] == flag.spec_bits(),
    ensures
        branch_taken(reg, instr) <==> (match flag {
            CondFlags::FL_NEG => instr & 0x0800 != 0,
            CondFlags::FL_ZRO => instr & 0x0400 != 0,
            CondFlags::FL_POS => instr & 0x0200 != 0,
        }),
        branch_taken(reg, instr) ==> after_branch(reg, instr) == reg.update(
            R_PC as int,
            wrap_add(reg[R_PC as int], offset9(instr)),
        ),
        !branch_taken(reg, instr) ==> after_branch(reg, instr) == reg,
{
    assert((((instr >> 9) & 0x7) & 4 != 0) <==> (instr & 0x0800 != 0)) by (bit_vector);
    assert((((instr >> 9) & 0x7) & 2 != 0) <==> (instr & 0x0400 != 0)) by (bit_vector);
    assert((((instr >> 9) & 0x7) & 1 != 0) <==> (instr & 0x0200 != 0)) by (bit_vector);
}

/// LDI reads through a pointer: where neither the pointer's address nor the
/// pointer itself is the keyboard status register, the destination register
/// receives the word that the pointer addresses, and neither memory nor
/// input changes.
pub proof fn lemma_ldi_reads_through_pointer(
    reg: Seq<u16>,
    instr: u16,
    mem: Seq<u16>,
    input: Seq<u8>,
)
    requires
        registers_wf(reg),
        memory_wf(mem),
        wrap_add(reg[R_PC as int], offset9(instr)) != KBSR,
        mem[wrap_add(reg[R_PC as int], offset9(instr)) as int] != KBSR,
    ensures
        after_ldi(reg, instr, mem, input).ok,
        after_ldi(reg, instr, mem, input).mem == mem,
        after_ldi(reg, instr, mem, input).input == input,
        after_ldi(reg, instr, mem, input).reg[field_dr(instr)] == mem[mem[wrap_add(
            reg[R_PC as int],
            offset9(instr),
        ) as int] as int],
        after_ldi(reg, instr, mem, input).reg == load_register(
            reg,
            field_dr(instr),
            mem[mem[wrap_add(reg[R_PC as int], offset9(instr)) as int] as int],
        ),
{
    lemma_register_fields_in_range(instr);
}

/// An instruction that writes a register and sets the condition leaves every
/// other register as it was.
pub proof fn lemma_load_register_frame(reg: Seq<u16>, r: int, value: u16, other: int)
    requires
        registers_wf(reg),
        0 <= r < 8,
        0 <= other < 9,
        other != r,
    ensures
        load_register(reg, r, value)[r] == value,
        load_register(reg, r, value)[R_COND as int] == CondFlags::spec_of(value).spec_bits(),
        load_register(reg, r, value)[other] == reg[other],
        registers_wf(load_register(reg, r, value)),
{
}

} // verus!
