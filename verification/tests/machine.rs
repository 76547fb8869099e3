use rust_vm::machine::{Machine, RunState};
use rust_vm::opcodes::OpCodes;
use rust_vm::ErrorKind;

fn boot(program: &[u16]) -> Machine {
    let mut image: Vec<u8> = vec![0x30, 0x00];
    for word in program {
        image.push((word >> 8) as u8);
        image.push((word & 0xFF) as u8);
    }
    let mut m = Machine::new();
    assert!(m.load_image(&image));
    m
}

#[test]
fn opcode_codes() {
    assert_eq!(OpCodes::OP_BR.code(), 0);
    assert_eq!(OpCodes::OP_ADD.code(), 1);
    assert_eq!(OpCodes::OP_LD.code(), 2);
    assert_eq!(OpCodes::OP_ST.code(), 3);
    assert_eq!(OpCodes::OP_JSR.code(), 4);
    assert_eq!(OpCodes::OP_AND.code(), 5);
    assert_eq!(OpCodes::OP_LDR.code(), 6);
    assert_eq!(OpCodes::OP_STR.code(), 7);
    assert_eq!(OpCodes::OP_RTI.code(), 8);
    assert_eq!(OpCodes::OP_NOT.code(), 9);
    assert_eq!(OpCodes::OP_LDI.code(), 10);
    assert_eq!(OpCodes::OP_STI.code(), 11);
    assert_eq!(OpCodes::OP_JMP.code(), 12);
    assert_eq!(OpCodes::OP_RES.code(), 13);
    assert_eq!(OpCodes::OP_LEA.code(), 14);
    assert_eq!(OpCodes::OP_TRAP.code(), 15);
}

#[test]
fn opcode_decoding_round_trips() {
    for code in 0u16..16 {
        let op = OpCodes::from_code(code);
        assert!(op.is_some());
        assert_eq!(op.unwrap().code(), code);
    }
    assert_eq!(OpCodes::from_code(16), None);
    assert_eq!(OpCodes::from_code(0xFFFF), None);
}

#[test]
fn exit_codes() {
    assert_eq!(ErrorKind::ConfigError.exit_code(), 2);
    assert_eq!(ErrorKind::ImageError.exit_code(), 1);
    assert_eq!(ErrorKind::ReservedOpcode.exit_code(), 10);
    assert_eq!(ErrorKind::UnmappedOpcode.exit_code(), 20);
    assert_eq!(ErrorKind::UnknownTrapVector.exit_code(), 21);
    assert_eq!(ErrorKind::InputError.exit_code(), 101);
    assert_eq!(RunState::Running.exit_code(), None);
    assert_eq!(RunState::Halted.exit_code(), Some(0));
    assert_eq!(RunState::Aborted(ErrorKind::ReservedOpcode).exit_code(), Some(10));
    assert_eq!(RunState::Aborted(ErrorKind::UnknownTrapVector).exit_code(), Some(21));
}

#[test]
fn a_new_machine_is_ready_to_run() {
    let m = Machine::new();
    assert_eq!(m.state, RunState::Running);
    assert_eq!(m.reg.len(), 10);
    assert_eq!(m.reg[8], 0x3000);
    assert_eq!(m.memory.len(), 65536);
    assert!(m.memory.iter().all(|w| *w == 0));
    assert!(m.input.is_empty());
    assert!(m.output.is_empty());
}

#[test]
fn step_fetches_increments_and_executes() {
    // ADD R0, R0, #7
    let mut m = boot(&[0x1027]);
    assert_eq!(m.step(), RunState::Running);
    assert_eq!(m.reg[8], 0x3001);
    assert_eq!(m.reg[0], 7);
    assert_eq!(m.reg[9], 0b001);
}

#[test]
fn pc_relative_offsets_count_from_the_incremented_pc() {
    // LEA R1, #0 ; LD R2, #1 ; (skipped) ; data
    let mut m = boot(&[0xE200, 0x2401, 0x0000, 0xBEEF]);
    m.step();
    assert_eq!(m.reg[1], 0x3001);
    m.step();
    assert_eq!(m.reg[2], 0xBEEF);
    assert_eq!(m.reg[8], 0x3002);
}

#[test]
fn the_program_counter_wraps() {
    let mut m = Machine::new();
    m.reg[8] = 0xFFFF;
    // ADD R0, R0, #1
    m.memory[0xFFFF] = 0x1021;
    assert_eq!(m.step(), RunState::Running);
    assert_eq!(m.reg[8], 0x0000);
    assert_eq!(m.reg[0], 1);
}

#[test]
fn halt_stops_the_machine() {
    // TRAP x25 ; ADD R0, R0, #1
    let mut m = boot(&[0xF025, 0x1021]);
    assert_eq!(m.step(), RunState::Halted);
    assert_eq!(m.state, RunState::Halted);
    assert_eq!(m.reg[8], 0x3001);
    assert_eq!(m.state.exit_code(), Some(0));
    // nothing more is fetched
    assert_eq!(m.step(), RunState::Halted);
    assert_eq!(m.run(100), RunState::Halted);
    assert_eq!(m.reg[8], 0x3001);
    assert_eq!(m.reg[0], 0);
}

#[test]
fn reserved_opcodes_abort_with_code_ten() {
    let words: [u16; 5] = [0x8000, 0x8FFF, 0x8123, 0xD000, 0xDABC];
    for word in words {
        let mut m = boot(&[word, 0x1021]);
        m.reg[3] = 0x0333;
        let memory_before: Vec<u16> = m.memory.clone();
        assert_eq!(m.step(), RunState::Aborted(ErrorKind::ReservedOpcode));
        assert_eq!(m.state.exit_code(), Some(10));
        assert_eq!(m.reg, vec![0, 0, 0, 0x0333, 0, 0, 0, 0, 0x3001, 0]);
        assert_eq!(m.memory, memory_before);
        assert!(m.output.is_empty());
        // the run is over
        assert_eq!(m.run(10), RunState::Aborted(ErrorKind::ReservedOpcode));
        assert_eq!(m.reg, vec![0, 0, 0, 0x0333, 0, 0, 0, 0, 0x3001, 0]);
        assert_eq!(m.memory, memory_before);
    }
}

#[test]
fn unknown_trap_vector_aborts_with_code_twenty_one() {
    let words: [u16; 4] = [0xF000, 0xF01F, 0xF026, 0xF0FF];
    for word in words {
        let mut m = boot(&[word]);
        assert_eq!(m.step(), RunState::Aborted(ErrorKind::UnknownTrapVector));
        assert_eq!(m.state.exit_code(), Some(21));
        assert_eq!(m.reg[8], 0x3001);
    }
}

#[test]
fn trap_vector_ignores_bits_eight_to_eleven() {
    let mut m = boot(&[0xFF25]);
    assert_eq!(m.step(), RunState::Halted);
}

#[test]
fn a_program_prints_a_string_and_halts() {
    // LEA R0, #2 ; TRAP x22 ; TRAP x25 ; "HI" ; 0
    let mut m = boot(&[0xE002, 0xF022, 0xF025, 0x0048, 0x0049, 0x0000]);
    assert_eq!(m.run(1000), RunState::Halted);
    assert_eq!(m.output, b"HI".to_vec());
    assert_eq!(m.reg[8], 0x3003);
    assert_eq!(m.take_output(), b"HI".to_vec());
    assert!(m.output.is_empty());
}

#[test]
fn a_program_counts_down_in_a_loop() {
    // AND R0,R0,#0 ; ADD R0,R0,#5 ; ADD R1,R1,#2 ; ADD R0,R0,#-1 ; BRp #-3 ; HALT
    let mut m = boot(&[0x5020, 0x1025, 0x1262, 0x103F, 0x03FD, 0xF025]);
    assert_eq!(m.run(1000), RunState::Halted);
    assert_eq!(m.reg[0], 0);
    assert_eq!(m.reg[1], 10);
    assert_eq!(m.reg[9], 0b010);
}

#[test]
fn a_subroutine_call_returns() {
    // JSR #2 ; HALT ; (pad) ; ADD R2,R2,#9 ; RET
    let mut m = boot(&[0x4802, 0xF025, 0x0000, 0x14A9, 0xC1C0]);
    assert_eq!(m.run(10), RunState::Halted);
    assert_eq!(m.reg[2], 9);
    assert_eq!(m.reg[7], 0x3001);
    assert_eq!(m.reg[8], 0x3002);
}

#[test]
fn store_then_load_round_trips_through_memory() {
    // ADD R3,R3,#-4 ; ST R3,#3 ; LD R4,#2 ; HALT ; 0 ; 0
    let mut m = boot(&[0x16FC, 0x3603, 0x2802, 0xF025, 0x0000, 0x0000]);
    assert_eq!(m.run(10), RunState::Halted);
    assert_eq!(m.memory[0x3005], 0xFFFC);
    assert_eq!(m.reg[4], 0xFFFC);
    assert_eq!(m.reg[9], 0b100);
}

#[test]
fn run_stops_at_the_limit() {
    // BRnzp #-1: loops for ever
    let mut m = boot(&[0x0FFF]);
    m.reg[9] = 0b010;
    assert_eq!(m.run(0), RunState::Running);
    assert_eq!(m.reg[8], 0x3000);
    assert_eq!(m.run(500), RunState::Running);
    assert_eq!(m.reg[8], 0x3000);
    // ADD R0,R0,#1 ; BRnzp #-2
    let mut m = boot(&[0x1021, 0x0FFE]);
    assert_eq!(m.run(7), RunState::Running);
    assert_eq!(m.reg[0], 4);
    assert_eq!(m.reg[8], 0x3001);
    assert_eq!(m.run(1), RunState::Running);
    assert_eq!(m.reg[8], 0x3000);
}

#[test]
fn getc_and_out_echo_the_input() {
    // GETC ; OUT ; GETC ; OUT ; HALT
    let mut m = boot(&[0xF020, 0xF021, 0xF020, 0xF021, 0xF025]);
    m.feed(0x6F);
    m.feed(0x6B);
    assert_eq!(m.run(100), RunState::Halted);
    assert_eq!(m.output, b"ok".to_vec());
    assert!(m.input.is_empty());
}

#[test]
fn in_prompts_before_reading() {
    // IN ; HALT
    let mut m = boot(&[0xF023, 0xF025]);
    m.feed(0x79);
    assert_eq!(m.run(100), RunState::Halted);
    assert_eq!(m.output, b"Enter a character: ".to_vec());
    assert_eq!(m.reg[0], 0x79);
}

#[test]
fn putsp_through_the_dispatcher() {
    // LEA R0,#2 ; PUTSP ; HALT ; "Hi!" packed
    let mut m = boot(&[0xE002, 0xF024, 0xF025, 0x6948, 0x0021, 0x0000]);
    assert_eq!(m.run(100), RunState::Halted);
    assert_eq!(m.output, b"Hi!".to_vec());
}

#[test]
fn end_of_input_aborts_with_an_input_error() {
    // GETC ; HALT
    let mut m = boot(&[0xF020, 0xF025]);
    assert_eq!(m.run(100), RunState::Aborted(ErrorKind::InputError));
    assert_eq!(m.state.exit_code(), Some(101));
    assert_eq!(m.reg[8], 0x3001);
    assert_eq!(m.reg[0], 0);
}

#[test]
fn keyboard_polling_loop() {
    // LDI R0,#3 ; BRzp #-2 ; LDI R1,#2 ; HALT ; xFE00 ; xFE02
    let mut m = boot(&[0xA003, 0x07FE, 0xA202, 0xF025, 0xFE00, 0xFE02]);
    m.feed(0);
    m.feed(0);
    m.feed(0x51);
    assert_eq!(m.run(100), RunState::Halted);
    assert_eq!(m.reg[0], 0x8000);
    assert_eq!(m.reg[1], 0x51);
    assert!(m.input.is_empty());
}

#[test]
fn fetch_from_the_status_register_polls() {
    let mut m = Machine::new();
    m.reg[8] = 0xFE00;
    assert!(m.needs_input());
    assert_eq!(m.step(), RunState::Aborted(ErrorKind::InputError));
    assert_eq!(m.reg[8], 0xFE00);

    let mut m = Machine::new();
    m.reg[8] = 0xFE00;
    m.feed(0x41);
    // the word fetched is x8000, an RTI
    assert_eq!(m.step(), RunState::Aborted(ErrorKind::ReservedOpcode));
    assert_eq!(m.reg[8], 0xFE01);
    assert_eq!(m.memory[0xFE02], 0x41);

    let mut m = Machine::new();
    m.reg[8] = 0xFE00;
    m.reg[9] = 0b111;
    m.feed(0);
    // the word fetched is x0000, a branch that names no condition
    assert_eq!(m.step(), RunState::Running);
    assert_eq!(m.reg[8], 0xFE01);
    assert!(m.input.is_empty());
}

#[test]
fn needs_input_tells_when_a_cycle_reads_a_byte() {
    // GETC
    assert!(boot(&[0xF020]).needs_input());
    // IN
    assert!(boot(&[0xF023]).needs_input());
    // OUT, PUTS, PUTSP, HALT, unknown vector
    assert!(!boot(&[0xF021]).needs_input());
    assert!(!boot(&[0xF022]).needs_input());
    assert!(!boot(&[0xF024]).needs_input());
    assert!(!boot(&[0xF025]).needs_input());
    assert!(!boot(&[0xF0FF]).needs_input());
    // ADD, ST, RTI
    assert!(!boot(&[0x1021]).needs_input());
    assert!(!boot(&[0x3001]).needs_input());
    assert!(!boot(&[0x8000]).needs_input());
    // LDI through a pointer to the status register, and to elsewhere
    assert!(boot(&[0xA000, 0xFE00]).needs_input());
    assert!(!boot(&[0xA000, 0xFE02]).needs_input());
    // LDR R0, R1, #0 with R1 at the status register
    let mut m = boot(&[0x6040]);
    assert!(!m.needs_input());
    m.reg[1] = 0xFE00;
    assert!(m.needs_input());
    // LD and STI whose address is the status register
    let mut m = Machine::new();
    m.reg[8] = 0xFDFF;
    m.memory[0xFDFF] = 0x2000;
    assert!(m.needs_input());
    m.memory[0xFDFF] = 0xB000;
    assert!(m.needs_input());
    m.memory[0xFDFF] = 0x3000;
    assert!(!m.needs_input());
    // a stopped machine reads nothing
    m.state = RunState::Halted;
    assert!(!m.needs_input());
}

#[test]
fn a_cycle_takes_a_byte_exactly_when_needs_input_says_so() {
    let programs: [[u16; 2]; 8] = [
        [0xF020, 0],
        [0xF023, 0],
        [0xF021, 0],
        [0x1021, 0],
        [0xA000, 0xFE00],
        [0xA000, 0x3000],
        [0xB000, 0x4000],
        [0x8000, 0],
    ];
    for program in programs {
        let mut m = boot(&program);
        m.feed(1);
        m.feed(2);
        let needed: bool = m.needs_input();
        m.step();
        assert_eq!(m.input.len(), if needed { 1 } else { 2 });
        assert_ne!(m.state, RunState::Aborted(ErrorKind::InputError));

        let mut m = boot(&program);
        let needed: bool = m.needs_input();
        m.step();
        assert_eq!(m.state == RunState::Aborted(ErrorKind::InputError), needed);
    }
}

#[test]
fn load_image_refuses_a_bad_image_and_keeps_memory() {
    let mut m = Machine::new();
    assert!(m.load_image(&[0x30, 0x00, 0x12, 0x34]));
    assert!(!m.load_image(&[0x30, 0x00, 0xFF]));
    assert!(!m.load_image(&[]));
    assert_eq!(m.memory[0x3000], 0x1234);
    assert_eq!(m.state, RunState::Running);
}

#[test]
fn running_in_two_parts_is_one_run() {
    // ADD R0,R0,#1 ; ADD R1,R1,#2 ; BRnzp #-3
    let program: [u16; 3] = [0x1021, 0x1262, 0x0FFD];
    let splits: [(u64, u64); 4] = [(0, 9), (4, 5), (9, 0), (1, 8)];
    let mut whole = boot(&program);
    whole.run(9);
    for (a, b) in splits {
        let mut parts = boot(&program);
        parts.run(a);
        parts.run(b);
        assert_eq!(parts.reg, whole.reg);
        assert_eq!(parts.memory, whole.memory);
        assert_eq!(parts.state, whole.state);
    }
    assert_eq!(whole.reg[0], 3);
    assert_eq!(whole.reg[1], 6);
    assert_eq!(whole.reg[8], 0x3000);
}

#[test]
fn a_cycle_keeps_the_sizes() {
    let words: [u16; 6] = [0x1021, 0x3001, 0xA000, 0xF022, 0x8000, 0xF025];
    for word in words {
        let mut m = boot(&[word]);
        m.feed(1);
        m.step();
        assert_eq!(m.reg.len(), 10);
        assert_eq!(m.memory.len(), 65536);
    }
}
