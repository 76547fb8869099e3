//! The trap routines that exchange characters with the outside: input is
//! taken from a queue of pending bytes, output is appended to a buffer that
//! holds one character per byte.

use vstd::prelude::*;
use std::collections::VecDeque;
use crate::bits::{high_byte, high_byte_spec, low_byte, low_byte_spec};
use crate::error::ErrorKind;
use crate::memory::memory_wf;
use crate::register::{registers_wf, R_R0};

verus! {

/// Number of nonzero words from `start` up to the first zero word or the end
/// of memory.
pub open spec fn string_len(mem: Seq<u16>, start: int) -> nat
    decreases mem.len() - start,
{
    if 0 <= start < mem.len() && mem[start] != 0 {
        1 + string_len(mem, start + 1)
    } else {
        0
    }
}

/// The characters of the string at `start` that holds one character in the
/// low byte of each word and ends before the first zero word.
pub open spec fn puts_text(mem: Seq<u16>, start: int) -> Seq<u8> {
    Seq::new(string_len(mem, start), |i: int| low_byte_spec(mem[start + i]))
}

/// The characters of the packed string at `start`: each word holds two, low
/// byte first. A zero word ends the string and gives no character. In any
/// other word the low byte is a character whatever it holds; a zero high
/// byte gives no character and ends the string.
pub open spec fn putsp_text(mem: Seq<u16>, start: int) -> Seq<u8>
    decreases mem.len() - start,
{
    if 0 <= start < mem.len() && mem[start] != 0 {
        if high_byte_spec(mem[start]) == 0 {
            seq![low_byte_spec(mem[start])]
        } else {
            seq![low_byte_spec(mem[start]), high_byte_spec(mem[start])] + putsp_text(
                mem,
                start + 1,
            )
        }
    } else {
        Seq::empty()
    }
}

/// The text "Enter a character: ".
pub open spec fn prompt_text() -> Seq<u8> {
    seq![
        0x45u8, 0x6E, 0x74, 0x65, 0x72, 0x20, 0x61, 0x20, 0x63, 0x68, 0x61, 0x72, 0x61, 0x63,
        0x74, 0x65, 0x72, 0x3A, 0x20,
    ]
}

/// The prompt that IN shows before it waits for a key.
pub fn prompt() -> (p: Vec<u8>)
    ensures
        p@ == prompt_text(),
{
    let p: Vec<u8> = vec![
        0x45u8, 0x6E, 0x74, 0x65, 0x72, 0x20, 0x61, 0x20, 0x63, 0x68, 0x61, 0x72, 0x61, 0x63,
        0x74, 0x65, 0x72, 0x3A, 0x20,
    ];
    p
}

/// The string that PUTS prints consists of nonzero words only and stops at
/// the first zero word, or at the end of memory if there is none.
pub proof fn lemma_string_len_bounds(mem: Seq<u16>, start: int)
    requires
        0 <= start <= mem.len(),
    ensures
        start + string_len(mem, start) <= mem.len(),
        forall|i: int| start <= i < start + string_len(mem, start) ==> mem[i] != 0,
        start + string_len(mem, start) == mem.len() || mem[start + string_len(mem, start)] == 0,
    decreases mem.len() - start,
{
    if start < mem.len() && mem[start] != 0 {
        lemma_string_len_bounds(mem, start + 1);
    }
}

/// PUTS: prints the string at the address in R0, one character per word,
/// without its terminator.
pub fn trap_puts(reg: &mut Vec<u16>, memory: &mut Vec<u16>, output: &mut Vec<u8>)
    requires
        registers_wf(old(reg)@),
        memory_wf(old(memory)@),
    ensures
        final(reg)@ == old(reg)@,
        final(memory)@ == old(memory)@,
        final(output)@ == old(output)@ + puts_text(old(memory)@, old(reg)@[R_R0 as int] as int),
{
    let start: usize = reg[R_R0] as usize;
    let mut index: usize = start;
    while index < memory.len() && memory[index] != 0
        invariant
            start <= index <= memory@.len(),
            memory@ == old(memory)@,
            reg@ == old(reg)@,
            string_len(memory@, start as int) == (index - start) + string_len(
                memory@,
                index as int,
            ),
            output@ == old(output)@ + Seq::new(
                (index - start) as nat,
                |i: int| low_byte_spec(memory@[start + i]),
            ),
        decreases memory@.len() - index,
    {
        output.push(low_byte(memory[index]));
        index = index + 1;
        assert(output@ =~= old(output)@ + Seq::new(
            (index - start) as nat,
            |i: int| low_byte_spec(memory@[start + i]),
        ));
    }
}

/// GETC: takes one byte from the input and stores it, zero-extended, in R0.
/// Nothing is echoed. Fails, changing nothing, when no input is left.
pub fn trap_getc(reg: &mut Vec<u16>, input: &mut VecDeque<u8>) -> (r: Result<(), ErrorKind>)
    requires
        registers_wf(old(reg)@),
    ensures
        old(input)@.len() == 0 ==> r == Err::<(), ErrorKind>(ErrorKind::InputError)
            && final(reg)@ == old(reg)@ && final(input)@ == old(input)@,
        old(input)@.len() > 0 ==> r == Ok::<(), ErrorKind>(())
            && final(reg)@ == old(reg)@.update(R_R0 as int, old(input)@[0] as u16)
            && final(input)@ == old(input)@.skip(1),
        registers_wf(final(reg)@),
{
    match input.pop_front() {
        Some(key) => {
            reg[R_R0] = key as u16;
            Ok(())
        },
        None => Err(ErrorKind::InputError),
    }
}

/// OUT: prints the low byte of R0 as one character.
pub fn trap_out(reg: &mut Vec<u16>, output: &mut Vec<u8>)
    requires
        registers_wf(old(reg)@),
    ensures
        final(reg)@ == old(reg)@,
        final(output)@ == old(output)@.push(low_byte_spec(old(reg)@[R_R0 as int])),
{
    output.push(low_byte(reg[R_R0]));
}

/// IN: prints the prompt, then takes one byte from the input and stores it,
/// zero-extended, in R0. The key is not echoed. When no input is left the
/// prompt has been printed all the same, and the routine fails.
pub fn trap_in(reg: &mut Vec<u16>, input: &mut VecDeque<u8>, output: &mut Vec<u8>) -> (r: Result<
    (),
    ErrorKind,
>)
    requires
        registers_wf(old(reg)@),
    ensures
        final(output)@ == old(output)@ + prompt_text(),
        old(input)@.len() == 0 ==> r == Err::<(), ErrorKind>(ErrorKind::InputError)
            && final(reg)@ == old(reg)@ && final(input)@ == old(input)@,
        old(input)@.len() > 0 ==> r == Ok::<(), ErrorKind>(())
            && final(reg)@ == old(reg)@.update(R_R0 as int, old(input)@[0] as u16)
            && final(input)@ == old(input)@.skip(1),
        registers_wf(final(reg)@),
{
    let mut text = prompt();
    output.append(&mut text);
    trap_getc(reg, input)
}

/// PUTSP: prints the packed string at the address in R0, two characters per
/// word, low byte first.
pub fn trap_putsp(reg: &mut Vec<u16>, memory: &mut Vec<u16>, output: &mut Vec<u8>)
    requires
        registers_wf(old(reg)@),
        memory_wf(old(memory)@),
    ensures
        final(reg)@ == old(reg)@,
        final(memory)@ == old(memory)@,
        final(output)@ == old(output)@ + putsp_text(old(memory)@, old(reg)@[R_R0 as int] as int),
{
    let start: usize = reg[R_R0] as usize;
    let mut index: usize = start;
    let mut ended: bool = false;
    while !ended && index < memory.len() && memory[index] != 0
        invariant
            start <= index <= memory@.len(),
            memory@ == old(memory)@,
            reg@ == old(reg)@,
            old(output)@ + putsp_text(memory@, start as int) == output@ + (if ended {
                Seq::<u8>::empty()
            } else {
                putsp_text(memory@, index as int)
            }),
        decreases memory@.len() - index + (if ended { 0int } else { 1int }),
    {
        let word: u16 = memory[index];
        let ghost before = output@;
        output.push(low_byte(word));
        let high: u8 = high_byte(word);
        if high != 0 {
            output.push(high);
            index = index + 1;
            assert(output@ + putsp_text(memory@, index as int) =~= before + putsp_text(
                memory@,
                index - 1,
            ));
        } else {
            ended = true;
            assert(output@ =~= before + putsp_text(memory@, index as int));
        }
    }
}

} // verus!
