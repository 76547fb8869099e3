//! Main memory: 65536 words, two of which are the keyboard's status and data
//! registers.

use vstd::prelude::*;
use std::collections::VecDeque;
use crate::error::ErrorKind;

verus! {

/// The memory-mapped device registers.
#[allow(non_camel_case_types)]
#[derive(Clone, Copy, Debug, PartialEq, Eq, Structural)]
pub enum MemMapReg {
    /// Keyboard status: bit 15 is set while a key is available.
    MR_KBSR,
    /// Keyboard data: the key last delivered, zero-extended.
    MR_KBDR,
}

/// Number of words of memory.
pub const MEMORY_SIZE: usize = 65536;

/// Address of the keyboard status register.
pub const KBSR: u16 = 0xFE00;

/// Address of the keyboard data register.
pub const KBDR: u16 = 0xFE02;

/// The status register's "key available" bit.
pub const KEY_READY: u16 = 0x8000;

impl MemMapReg {
    /// The address at which the register is mapped.
    pub open spec fn spec_address(self) -> u16 {
        match self {
            MemMapReg::MR_KBSR => KBSR,
            MemMapReg::MR_KBDR => KBDR,
        }
    }

    /// The address at which the register is mapped.
    #[verifier::when_used_as_spec(spec_address)]
    pub fn address(self) -> (a: u16)
        ensures
            a == self.spec_address(),
    {
        match self {
            MemMapReg::MR_KBSR => KBSR,
            MemMapReg::MR_KBDR => KBDR,
        }
    }
}

/// A memory holds one word for each 16-bit address.
pub open spec fn memory_wf(mem: Seq<u16>) -> bool {
    mem.len() == MEMORY_SIZE
}

/// Allocates a memory in which every word is zero.
pub fn new_memory() -> (memory: Vec<u16>)
    ensures
        memory_wf(memory@),
        forall|a: int| 0 <= a < MEMORY_SIZE ==> memory@[a] == 0,
{
    vec![0u16; MEMORY_SIZE]
}

/// Memory after the keyboard has delivered `key`: a nonzero key raises the
/// "key available" bit and is latched in the data register; a zero byte
/// clears the status register and leaves the data register alone.
pub open spec fn poll_memory(mem: Seq<u16>, key: u8) -> Seq<u16> {
    if key != 0 {
        mem.update(KBSR as int, KEY_READY).update(KBDR as int, key as u16)
    } else {
        mem.update(KBSR as int, 0u16)
    }
}

/// A read polls the keyboard exactly when it addresses the status register.
pub open spec fn read_polls(addr: u16) -> bool {
    addr == KBSR
}

/// A read fails when it polls the keyboard and no input is left.
pub open spec fn read_fails(addr: u16, input: Seq<u8>) -> bool {
    read_polls(addr) && input.len() == 0
}

/// Memory as a read of `addr` leaves it.
pub open spec fn memory_after_read(addr: u16, mem: Seq<u16>, input: Seq<u8>) -> Seq<u16> {
    if read_polls(addr) && input.len() > 0 {
        poll_memory(mem, input[0])
    } else {
        mem
    }
}

/// The pending input as a read of `addr` leaves it.
pub open spec fn input_after_read(addr: u16, input: Seq<u8>) -> Seq<u8> {
    if read_polls(addr) && input.len() > 0 {
        input.skip(1)
    } else {
        input
    }
}

/// The word that a successful read of `addr` returns: the addressed cell as
/// it stands once the poll, if there was one, has been recorded.
pub open spec fn read_value(addr: u16, mem: Seq<u16>, input: Seq<u8>) -> u16 {
    memory_after_read(addr, mem, input)[addr as int]
}

/// Reads the word at `addr`. A read of the keyboard status register first
/// takes one byte from `input` and records it in the device registers; if no
/// byte is left the read fails and nothing changes.
pub fn mem_read(addr: u16, memory: &mut Vec<u16>, input: &mut VecDeque<u8>) -> (r: Result<
    u16,
    ErrorKind,
>)
    requires
        memory_wf(old(memory)@),
    ensures
        final(memory)@ == memory_after_read(addr, old(memory)@, old(input)@),
        final(input)@ == input_after_read(addr, old(input)@),
        memory_wf(final(memory)@),
        r == if read_fails(addr, old(input)@) {
            Err::<u16, ErrorKind>(ErrorKind::InputError)
        } else {
            Ok::<u16, ErrorKind>(read_value(addr, old(memory)@, old(input)@))
        },
{
    if addr == KBSR {
        match input.pop_front() {
            Some(key) => {
                if key != 0 {
                    memory[KBSR as usize] = KEY_READY;
                    memory[KBDR as usize] = key as u16;
                } else {
                    memory[KBSR as usize] = 0;
                }
            },
            None => {
                return Err(ErrorKind::InputError);
            },
        }
    }
    Ok(memory[addr as usize])
}

/// Stores `val` at `addr`. No other word changes.
pub fn mem_write(addr: u16, val: u16, memory: &mut Vec<u16>)
    requires
        memory_wf(old(memory)@),
    ensures
        final(memory)@ == old(memory)@.update(addr as int, val),
        memory_wf(final(memory)@),
{
    memory[addr as usize] = val;
}

/// A read of any address but the keyboard status register is a plain lookup:
/// it cannot fail, returns the addressed word, and leaves memory and input
/// as they were.
pub proof fn lemma_plain_read(addr: u16, mem: Seq<u16>, input: Seq<u8>)
    requires
        memory_wf(mem),
        addr != KBSR,
    ensures
        !read_fails(addr, input),
        read_value(addr, mem, input) == mem[addr as int],
        memory_after_read(addr, mem, input) == mem,
        input_after_read(addr, input) == input,
{
}

/// A read of the keyboard status register with input pending takes the
/// oldest byte. A nonzero byte is reported as "key available" and latched in
/// the data register; a zero byte is reported as "no key" and the data
/// register keeps its word. No other word of memory changes.
pub proof fn lemma_status_read(mem: Seq<u16>, input: Seq<u8>)
    requires
        memory_wf(mem),
        input.len() > 0,
    ensures
        !read_fails(KBSR, input),
        input_after_read(KBSR, input) == input.skip(1),
        read_value(KBSR, mem, input) == (if input[0] != 0 {
            KEY_READY
        } else {
            0u16
        }),
        memory_after_read(KBSR, mem, input)[KBSR as int] == read_value(KBSR, mem, input),
        memory_after_read(KBSR, mem, input)[KBDR as int] == (if input[0] != 0 {
            input[0] as u16
        } else {
            mem[KBDR as int]
        }),
        forall|a: int|
            0 <= a < MEMORY_SIZE && a != KBSR && a != KBDR ==> memory_after_read(
                KBSR,
                mem,
                input,
            )[a] == mem[a],
        memory_wf(memory_after_read(KBSR, mem, input)),
{
}

/// A word that has been written is the word that a read of the same address
/// returns, unless the address is the keyboard status register.
pub proof fn lemma_read_after_write(addr: u16, val: u16, mem: Seq<u16>, input: Seq<u8>)
    requires
        memory_wf(mem),
        addr != KBSR,
    ensures
        read_value(addr, mem.update(addr as int, val), input) == val,
{
}

} // verus!
