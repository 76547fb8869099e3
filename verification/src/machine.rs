//! The machine as a whole: registers, memory, pending input, collected
//! output and the run state, with the fetch-decode-execute cycle.

use vstd::prelude::*;
use std::collections::VecDeque;
use crate::bits::{add_words, low_byte_spec, sign_extend, wrap_add};
use crate::error::ErrorKind;
use crate::image::{image_fits, memory_with_image, read_image};
use crate::memory::{
    input_after_read, mem_read, memory_after_read, memory_wf, new_memory, read_fails, read_value,
    KBSR, MEMORY_SIZE,
};
use crate::opcode_fn::{
    base_register, branch_mask, field_base, lemma_register_fields_in_range, offset6, offset9,
    after_add, after_and, after_branch, after_jsr, after_jump, after_ld, after_ldi, after_ldr,
    after_lea, after_not, after_st, after_sti, after_str, op_add, op_and, op_branch, op_jsr,
    op_jump, op_ldi, op_ldr, op_lea, op_load, op_not, op_st, op_sti, op_str, Access,
};
use crate::opcodes::{opcode_field, OpCodes};
use crate::register::{initial_registers, new_registers, registers_wf, R_COND, R_PC, R_R0};
use crate::trapcode::{trap_vector, TrapCode};
use crate::trapcode_fn::{
    prompt_text, puts_text, putsp_text, trap_getc, trap_in, trap_out, trap_puts, trap_putsp,
};

verus! {

/// Where a run stands.
#[derive(Clone, Copy, Debug, PartialEq, Eq, Structural)]
pub enum RunState {
    /// The next instruction will be fetched.
    Running,
    /// The program asked to stop. This is the only orderly end.
    Halted,
    /// A fatal condition stopped the run.
    Aborted(ErrorKind),
}

impl RunState {
    /// The exit code of a run that has ended; `None` while it is running.
    pub open spec fn spec_exit_code(self) -> Option<i32> {
        match self {
            RunState::Running => None,
            RunState::Halted => Some(0i32),
            RunState::Aborted(kind) => Some(kind.spec_exit_code()),
        }
    }

    /// The exit code of a run that has ended; `None` while it is running.
    #[verifier::when_used_as_spec(spec_exit_code)]
    pub fn exit_code(self) -> (code: Option<i32>)
        ensures
            code == self.spec_exit_code(),
            code == Some(0i32) <==> self == RunState::Halted,
    {
        match self {
            RunState::Running => None,
            RunState::Halted => Some(0),
            RunState::Aborted(kind) => Some(kind.exit_code()),
        }
    }
}

/// The machine.
pub struct Machine {
    /// R0 to R7, the program counter and the condition register.
    pub reg: Vec<u16>,
    /// Main memory.
    pub memory: Vec<u16>,
    /// Bytes typed and not yet read by the program, oldest first.
    pub input: VecDeque<u8>,
    /// Characters printed by the program, one to a byte, oldest first.
    pub output: Vec<u8>,
    /// Whether the machine is running, and if not, why.
    pub state: RunState,
}

/// The machine as the contracts see it.
pub struct MachineView {
    pub reg: Seq<u16>,
    pub mem: Seq<u16>,
    pub input: Seq<u8>,
    pub output: Seq<u8>,
    pub state: RunState,
}

impl View for Machine {
    type V = MachineView;

    open spec fn view(&self) -> MachineView {
        MachineView {
            reg: self.reg@,
            mem: self.memory@,
            input: self.input@,
            output: self.output@,
            state: self.state,
        }
    }
}

/// A machine's register file and memory have their fixed sizes.
pub open spec fn view_wf(m: MachineView) -> bool {
    registers_wf(m.reg) && memory_wf(m.mem)
}

/// The machine at power-on: memory is zero, nothing is typed or printed, and
/// execution is about to start at `PC_START`.
pub open spec fn initial_view() -> MachineView {
    MachineView {
        reg: initial_registers(),
        mem: Seq::new(MEMORY_SIZE as nat, |a: int| 0u16),
        input: Seq::empty(),
        output: Seq::empty(),
        state: RunState::Running,
    }
}

/// The machine stopped by the fatal condition `kind`.
pub open spec fn aborted(m: MachineView, kind: ErrorKind) -> MachineView {
    MachineView { state: RunState::Aborted(kind), ..m }
}

/// The machine after an instruction that reads memory.
pub open spec fn with_access(m: MachineView, a: Access) -> MachineView {
    MachineView {
        reg: a.reg,
        mem: a.mem,
        input: a.input,
        output: m.output,
        state: if a.ok {
            RunState::Running
        } else {
            RunState::Aborted(ErrorKind::InputError)
        },
    }
}

/// The machine after a routine that takes one key into R0.
pub open spec fn with_key(m: MachineView) -> MachineView {
    if m.input.len() == 0 {
        aborted(m, ErrorKind::InputError)
    } else {
        MachineView { reg: m.reg.update(R_R0 as int, m.input[0] as u16), input: m.input.skip(1), ..m }
    }
}

/// The machine after the trap routine that `instr` selects.
pub open spec fn execute_trap(m: MachineView, instr: u16) -> MachineView {
    match TrapCode::spec_from_vector(trap_vector(instr)) {
        None => aborted(m, ErrorKind::UnknownTrapVector),
        Some(TrapCode::GETC) => with_key(m),
        Some(TrapCode::OUT) => MachineView { output: m.output.push(low_byte_spec(m.reg[R_R0 as int])), ..m },
        Some(TrapCode::PUTS) => MachineView {
            output: m.output + puts_text(m.mem, m.reg[R_R0 as int] as int),
            ..m
        },
        Some(TrapCode::IN) => with_key(MachineView { output: m.output + prompt_text(), ..m }),
        Some(TrapCode::PUTSP) => MachineView {
            output: m.output + putsp_text(m.mem, m.reg[R_R0 as int] as int),
            ..m
        },
        Some(TrapCode::HALT) => MachineView { state: RunState::Halted, ..m },
    }
}

/// The machine after executing `instr`, which has been fetched and stepped
/// over already.
pub open spec fn execute(m: MachineView, instr: u16) -> MachineView {
    match OpCodes::spec_from_code(opcode_field(instr)) {
        None => aborted(m, ErrorKind::UnmappedOpcode),
        Some(OpCodes::OP_BR) => MachineView { reg: after_branch(m.reg, instr), ..m },
        Some(OpCodes::OP_ADD) => MachineView { reg: after_add(m.reg, instr), ..m },
        Some(OpCodes::OP_LD) => with_access(m, after_ld(m.reg, instr, m.mem, m.input)),
        Some(OpCodes::OP_ST) => MachineView { mem: after_st(m.reg, instr, m.mem), ..m },
        Some(OpCodes::OP_JSR) => MachineView { reg: after_jsr(m.reg, instr), ..m },
        Some(OpCodes::OP_AND) => MachineView { reg: after_and(m.reg, instr), ..m },
        Some(OpCodes::OP_LDR) => with_access(m, after_ldr(m.reg, instr, m.mem, m.input)),
        Some(OpCodes::OP_STR) => MachineView { mem: after_str(m.reg, instr, m.mem), ..m },
        Some(OpCodes::OP_RTI) => aborted(m, ErrorKind::ReservedOpcode),
        Some(OpCodes::OP_NOT) => MachineView { reg: after_not(m.reg, instr), ..m },
        Some(OpCodes::OP_LDI) => with_access(m, after_ldi(m.reg, instr, m.mem, m.input)),
        Some(OpCodes::OP_STI) => with_access(m, after_sti(m.reg, instr, m.mem, m.input)),
        Some(OpCodes::OP_JMP) => MachineView { reg: after_jump(m.reg, instr), ..m },
        Some(OpCodes::OP_RES) => aborted(m, ErrorKind::ReservedOpcode),
        Some(OpCodes::OP_LEA) => MachineView { reg: after_lea(m.reg, instr), ..m },
        Some(OpCodes::OP_TRAP) => execute_trap(m, instr),
    }
}

/// The machine once the instruction at the program counter has been read and
/// the program counter advanced. Only meaningful where the fetch succeeds.
pub open spec fn fetched(m: MachineView) -> MachineView {
    MachineView {
        reg: m.reg.update(R_PC as int, wrap_add(m.reg[R_PC as int], 1)),
        mem: memory_after_read(m.reg[R_PC as int], m.mem, m.input),
        input: input_after_read(m.reg[R_PC as int], m.input),
        ..m
    }
}

/// One cycle. A machine that is not running stays as it is. Otherwise the
/// instruction at the program counter is read, the program counter moves on
/// by one, and the instruction is executed.
pub open spec fn step_view(m: MachineView) -> MachineView {
    if m.state != RunState::Running {
        m
    } else if read_fails(m.reg[R_PC as int], m.input) {
        aborted(m, ErrorKind::InputError)
    } else {
        execute(fetched(m), read_value(m.reg[R_PC as int], m.mem, m.input))
    }
}

/// Up to `steps` cycles, ending early when the machine stops.
pub open spec fn run_view(m: MachineView, steps: nat) -> MachineView
    decreases steps,
{
    if steps == 0 || m.state != RunState::Running {
        m
    } else {
        run_view(step_view(m), (steps - 1) as nat)
    }
}

/// Whether the next cycle takes a byte from the input: it does when the
/// fetch, or a load or an indirect store that the instruction performs,
/// addresses the keyboard status register, and when the instruction is the
/// GETC or the IN trap. No cycle takes more than one byte.
pub open spec fn step_reads_input(m: MachineView) -> bool {
    let pc = m.reg[R_PC as int];
    let next = wrap_add(pc, 1);
    let instr = m.mem[pc as int];
    m.state == RunState::Running && (pc == KBSR || match OpCodes::spec_from_code(
        opcode_field(instr),
    ) {
        Some(OpCodes::OP_LD) => wrap_add(next, offset9(instr)) == KBSR,
        Some(OpCodes::OP_LDR) => wrap_add(m.reg[field_base(instr)], offset6(instr)) == KBSR,
        Some(OpCodes::OP_LDI) => {
            let pointer = wrap_add(next, offset9(instr));
            pointer == KBSR || m.mem[pointer as int] == KBSR
        },
        Some(OpCodes::OP_STI) => wrap_add(next, offset9(instr)) == KBSR,
        Some(OpCodes::OP_TRAP) => {
            let routine = TrapCode::spec_from_vector(trap_vector(instr));
            routine == Some(TrapCode::GETC) || routine == Some(TrapCode::IN)
        },
        _ => false,
    })
}

/// A cycle consumes exactly one byte of input if `step_reads_input` holds
/// and a byte is there, and none otherwise. It ends in an input error exactly
/// when it needs a byte and none is there.
pub proof fn lemma_step_takes_input(m: MachineView)
    requires
        view_wf(m),
        m.state == RunState::Running,
    ensures
        step_reads_input(m) && m.input.len() > 0 ==> step_view(m).input == m.input.skip(1),
        !(step_reads_input(m) && m.input.len() > 0) ==> step_view(m).input == m.input,
        step_view(m).state == RunState::Aborted(ErrorKind::InputError) <==> step_reads_input(m)
            && m.input.len() == 0,
{
    let pc = m.reg[R_PC as int];
    if !read_fails(pc, m.input) {
        let instr = read_value(pc, m.mem, m.input);
        lemma_register_fields_in_range(instr);
        if pc == KBSR {
            assert(opcode_field(0x8000u16) == 8 && opcode_field(0u16) == 0) by (bit_vector);
            assert(branch_mask(0u16) & m.reg[R_COND as int] == 0) by (bit_vector);
        }
    }
}

/// A machine that has stopped stays exactly as it is, however many cycles it
/// is asked to run: nothing more is fetched, read, written or printed.
pub proof fn lemma_stopped_is_final(m: MachineView, steps: nat)
    requires
        m.state != RunState::Running,
    ensures
        step_view(m) == m,
        run_view(m, steps) == m,
{
}

/// Running `a` cycles and then `b` more is running `a + b` cycles.
pub proof fn lemma_run_splits(m: MachineView, a: nat, b: nat)
    ensures
        run_view(run_view(m, a), b) == run_view(m, a + b),
    decreases a,
{
    if a > 0 && m.state == RunState::Running {
        lemma_run_splits(step_view(m), (a - 1) as nat, b);
    }
}

/// The HALT trap stops the machine in the halted state: the cycle that
/// executes it changes nothing but the program counter and the state, and no
/// later cycle changes anything at all.
pub proof fn lemma_halt_stops(m: MachineView, steps: nat)
    requires
        view_wf(m),
        m.state == RunState::Running,
        m.reg[R_PC as int] != KBSR,
        opcode_field(m.mem[m.reg[R_PC as int] as int]) == 15,
        trap_vector(m.mem[m.reg[R_PC as int] as int]) == 0x25,
    ensures
        step_view(m) == (MachineView {
            reg: m.reg.update(R_PC as int, wrap_add(m.reg[R_PC as int], 1)),
            state: RunState::Halted,
            ..m
        }),
        step_view(m).state.spec_exit_code() == Some(0i32),
        steps >= 1 ==> run_view(m, steps) == step_view(m),
{
    if steps >= 1 {
        lemma_stopped_is_final(step_view(m), (steps - 1) as nat);
    }
}

/// An instruction whose opcode is RTI or the reserved one aborts the run at
/// once with exit code 10. Beyond the fetch itself, which has moved the
/// program counter on, no register, no memory word, no input and no output
/// is touched, in this cycle or in any later one.
pub proof fn lemma_reserved_opcode_aborts(m: MachineView, steps: nat)
    requires
        view_wf(m),
        m.state == RunState::Running,
        !read_fails(m.reg[R_PC as int], m.input),
        opcode_field(read_value(m.reg[R_PC as int], m.mem, m.input)) == 8 || opcode_field(
            read_value(m.reg[R_PC as int], m.mem, m.input),
        ) == 13,
    ensures
        step_view(m) == aborted(fetched(m), ErrorKind::ReservedOpcode),
        step_view(m).state.spec_exit_code() == Some(10i32),
        m.reg[R_PC as int] != KBSR ==> step_view(m) == (MachineView {
            reg: m.reg.update(R_PC as int, wrap_add(m.reg[R_PC as int], 1)),
            state: RunState::Aborted(ErrorKind::ReservedOpcode),
            ..m
        }),
        steps >= 1 ==> run_view(m, steps) == step_view(m),
{
    if steps >= 1 {
        lemma_stopped_is_final(step_view(m), (steps - 1) as nat);
    }
}

/// The instruction words that carry the two reserved opcodes are those whose
/// top four bits are 1000 (RTI) and 1101 (reserved).
pub proof fn lemma_reserved_patterns(instr: u16)
    ensures
        instr & 0xF000 == 0x8000 <==> opcode_field(instr) == 8,
        instr & 0xF000 == 0xD000 <==> opcode_field(instr) == 13,
{
    assert(instr & 0xF000 == 0x8000 <==> instr >> 12 == 8) by (bit_vector);
    assert(instr & 0xF000 == 0xD000 <==> instr >> 12 == 13) by (bit_vector);
}

/// A cycle keeps the register file and the memory at their sizes.
pub proof fn lemma_step_keeps_sizes(m: MachineView)
    requires
        view_wf(m),
    ensures
        view_wf(step_view(m)),
{
    if m.state == RunState::Running && !read_fails(m.reg[R_PC as int], m.input) {
        let instr = read_value(m.reg[R_PC as int], m.mem, m.input);
        lemma_register_fields_in_range(instr);
    }
}


impl Machine {
    /// The register file and the memory have their fixed sizes.
    pub open spec fn wf(&self) -> bool {
        view_wf(self@)
    }

    /// A machine at power-on.
    pub fn new() -> (m: Machine)
        ensures
            m@ == initial_view(),
            m.wf(),
    {
        let m = Machine {
            reg: new_registers(),
            memory: new_memory(),
            input: VecDeque::new(),
            output: Vec::new(),
            state: RunState::Running,
        };
        assert(m.memory@ =~= initial_view().mem);
        m
    }

    /// Copies a program image into memory; see `read_image`. Later images
    /// overwrite earlier ones where they overlap.
    pub fn load_image(&mut self, image: &[u8]) -> (loaded: bool)
        requires
            old(self).wf(),
        ensures
            loaded == image_fits(image@),
            loaded ==> final(self)@ == (MachineView {
                mem: memory_with_image(old(self)@.mem, image@),
                ..old(self)@
            }),
            !loaded ==> final(self)@ == old(self)@,
            final(self).wf(),
    {
        read_image(image, &mut self.memory)
    }

    /// Adds one byte to the end of the pending input.
    pub fn feed(&mut self, key: u8)
        ensures
            final(self)@ == (MachineView { input: old(self)@.input.push(key), ..old(self)@ }),
    {
        self.input.push_back(key);
    }

    /// Hands over what the program has printed so far and empties the buffer.
    pub fn take_output(&mut self) -> (printed: Vec<u8>)
        ensures
            printed@ == old(self)@.output,
            final(self)@ == (MachineView { output: Seq::<u8>::empty(), ..old(self)@ }),
    {
        let mut printed: Vec<u8> = Vec::new();
        printed.append(&mut self.output);
        printed
    }

    fn settle(&mut self, outcome: Result<(), ErrorKind>)
        ensures
            final(self)@ == (MachineView {
                state: match outcome {
                    Ok(_) => old(self)@.state,
                    Err(kind) => RunState::Aborted(kind),
                },
                ..old(self)@
            }),
    {
        match outcome {
            Ok(_) => {},
            Err(kind) => {
                self.state = RunState::Aborted(kind);
            },
        }
    }

    fn trap(&mut self, instr: u16)
        requires
            old(self).wf(),
            old(self).state == RunState::Running,
        ensures
            final(self)@ == execute_trap(old(self)@, instr),
            final(self).wf(),
    {
        match TrapCode::from_vector(instr & 0xFF) {
            None => {
                self.state = RunState::Aborted(ErrorKind::UnknownTrapVector);
            },
            Some(TrapCode::GETC) => {
                let outcome = trap_getc(&mut self.reg, &mut self.input);
                self.settle(outcome);
            },
            Some(TrapCode::OUT) => {
                trap_out(&mut self.reg, &mut self.output);
            },
            Some(TrapCode::PUTS) => {
                trap_puts(&mut self.reg, &mut self.memory, &mut self.output);
            },
            Some(TrapCode::IN) => {
                let outcome = trap_in(&mut self.reg, &mut self.input, &mut self.output);
                self.settle(outcome);
            },
            Some(TrapCode::PUTSP) => {
                trap_putsp(&mut self.reg, &mut self.memory, &mut self.output);
            },
            Some(TrapCode::HALT) => {
                self.state = RunState::Halted;
            },
        }
    }

    fn dispatch(&mut self, instr: u16)
        requires
            old(self).wf(),
            old(self).state == RunState::Running,
        ensures
            final(self)@ == execute(old(self)@, instr),
            final(self).wf(),
    {
        match OpCodes::from_code(instr >> 12) {
            None => {
                self.state = RunState::Aborted(ErrorKind::UnmappedOpcode);
            },
            Some(OpCodes::OP_BR) => {
                op_branch(&mut self.reg, instr);
            },
            Some(OpCodes::OP_ADD) => {
                op_add(&mut self.reg, instr);
            },
            Some(OpCodes::OP_LD) => {
                let outcome = op_load(&mut self.reg, instr, &mut self.memory, &mut self.input);
                self.settle(outcome);
            },
            Some(OpCodes::OP_ST) => {
                op_st(&mut self.reg, instr, &mut self.memory);
            },
            Some(OpCodes::OP_JSR) => {
                op_jsr(&mut self.reg, instr);
            },
            Some(OpCodes::OP_AND) => {
                op_and(&mut self.reg, instr);
            },
            Some(OpCodes::OP_LDR) => {
                let outcome = op_ldr(&mut self.reg, instr, &mut self.memory, &mut self.input);
                self.settle(outcome);
            },
            Some(OpCodes::OP_STR) => {
                op_str(&mut self.reg, instr, &mut self.memory);
            },
            Some(OpCodes::OP_RTI) => {
                self.state = RunState::Aborted(ErrorKind::ReservedOpcode);
            },
            Some(OpCodes::OP_NOT) => {
                op_not(&mut self.reg, instr);
            },
            Some(OpCodes::OP_LDI) => {
                let outcome = op_ldi(&mut self.reg, instr, &mut self.memory, &mut self.input);
                self.settle(outcome);
            },
            Some(OpCodes::OP_STI) => {
                let outcome = op_sti(&mut self.reg, instr, &mut self.memory, &mut self.input);
                self.settle(outcome);
            },
            Some(OpCodes::OP_JMP) => {
                op_jump(&mut self.reg, instr);
            },
            Some(OpCodes::OP_RES) => {
                self.state = RunState::Aborted(ErrorKind::ReservedOpcode);
            },
            Some(OpCodes::OP_LEA) => {
                op_lea(&mut self.reg, instr);
            },
            Some(OpCodes::OP_TRAP) => {
                self.trap(instr);
            },
        }
    }

    /// Whether the next cycle will take a byte from the input. A caller that
    /// supplies input on demand asks this before each cycle.
    pub fn needs_input(&self) -> (needed: bool)
        requires
            self.wf(),
        ensures
            needed == step_reads_input(self@),
    {
        if self.state != RunState::Running {
            return false;
        }
        let pc: u16 = self.reg[R_PC];
        if pc == KBSR {
            return true;
        }
        let next: u16 = add_words(pc, 1);
        let instr: u16 = self.memory[pc as usize];
        match OpCodes::from_code(instr >> 12) {
            Some(OpCodes::OP_LD) => add_words(next, sign_extend(instr & 0x1FF, 9)) == KBSR,
            Some(OpCodes::OP_LDR) => {
                let base: usize = base_register(instr);
                add_words(self.reg[base], sign_extend(instr & 0x3F, 6)) == KBSR
            },
            Some(OpCodes::OP_LDI) => {
                let pointer: u16 = add_words(next, sign_extend(instr & 0x1FF, 9));
                pointer == KBSR || self.memory[pointer as usize] == KBSR
            },
            Some(OpCodes::OP_STI) => add_words(next, sign_extend(instr & 0x1FF, 9)) == KBSR,
            Some(OpCodes::OP_TRAP) => {
                match TrapCode::from_vector(instr & 0xFF) {
                    Some(TrapCode::GETC) => true,
                    Some(TrapCode::IN) => true,
                    _ => false,
                }
            },
            _ => false,
        }
    }

    /// Runs one cycle and reports the state it leaves. A machine that has
    /// stopped is left untouched: nothing is fetched.
    pub fn step(&mut self) -> (s: RunState)
        requires
            old(self).wf(),
        ensures
            final(self)@ == step_view(old(self)@),
            final(self).wf(),
            s == final(self).state,
    {
        if self.state != RunState::Running {
            return self.state;
        }
        let pc: u16 = self.reg[R_PC];
        match mem_read(pc, &mut self.memory, &mut self.input) {
            Ok(instr) => {
                self.reg[R_PC] = add_words(pc, 1);
                self.dispatch(instr);
            },
            Err(kind) => {
                self.state = RunState::Aborted(kind);
            },
        }
        self.state
    }

    /// Runs cycles until the machine stops or `limit` of them have been run,
    /// and reports the state it leaves.
    pub fn run(&mut self, limit: u64) -> (s: RunState)
        requires
            old(self).wf(),
        ensures
            final(self)@ == run_view(old(self)@, limit as nat),
            final(self).wf(),
            s == final(self).state,
    {
        let mut taken: u64 = 0;
        while taken < limit && self.state == RunState::Running
            invariant
                self.wf(),
                taken <= limit,
                run_view(old(self)@, limit as nat) == run_view(self@, (limit - taken) as nat),
            decreases limit - taken,
        {
            self.step();
            taken = taken + 1;
        }
        self.state
    }
}

} // verus!
