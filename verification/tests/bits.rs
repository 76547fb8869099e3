use rust_vm::bits::{add_words, high_byte, join_bytes, low_byte};
use rust_vm::flags::{update_flags, CondFlags};
use rust_vm::register::{new_registers, Reg, PC_START, REG_COUNT};
use rust_vm::sign_extend;

#[test]
fn sign_extend_keeps_a_positive_field() {
    assert_eq!(sign_extend(0b00011, 5), 3);
    assert_eq!(sign_extend(0b01111, 5), 15);
    assert_eq!(sign_extend(0, 5), 0);
    assert_eq!(sign_extend(0x00FF, 9), 0x00FF);
}

#[test]
fn sign_extend_fills_a_negative_field() {
    assert_eq!(sign_extend(0b11111, 5), 0xFFFF);
    assert_eq!(sign_extend(0b10000, 5), 0xFFF0);
    assert_eq!(sign_extend(0x1FF, 9), 0xFFFF);
    assert_eq!(sign_extend(0x100, 9), 0xFF00);
    assert_eq!(sign_extend(0x3F, 6), 0xFFFF);
    assert_eq!(sign_extend(0x20, 6), 0xFFE0);
    assert_eq!(sign_extend(0x400, 11), 0xFC00);
}

#[test]
fn sign_extend_matches_the_mask_formula() {
    let widths: [u16; 6] = [1, 5, 6, 9, 11, 15];
    let samples: [u16; 7] = [0, 1, 0x10, 0x1F, 0x155, 0x7FF, 0xFFFF];
    for n in widths {
        for x in samples {
            let expected: u16 = if (x >> (n - 1)) & 1 == 1 { x | (0xFFFFu16 << n) } else { x };
            assert_eq!(sign_extend(x, n), expected);
        }
    }
}

#[test]
fn sign_extend_one_bit_and_full_width() {
    assert_eq!(sign_extend(1, 1), 0xFFFF);
    assert_eq!(sign_extend(0, 1), 0);
    assert_eq!(sign_extend(0x8000, 16), 0x8000);
    assert_eq!(sign_extend(0x7FFF, 16), 0x7FFF);
    assert_eq!(sign_extend(0xFFFF, 16), 0xFFFF);
}

#[test]
fn add_words_wraps() {
    assert_eq!(add_words(0xFFFF, 1), 0);
    assert_eq!(add_words(0x8000, 0x8000), 0);
    assert_eq!(add_words(0x3000, 0xFFFF), 0x2FFF);
    assert_eq!(add_words(2, 3), 5);
}

#[test]
fn bytes_of_a_word() {
    assert_eq!(low_byte(0x1234), 0x34);
    assert_eq!(high_byte(0x1234), 0x12);
    assert_eq!(low_byte(0xFF00), 0);
    assert_eq!(high_byte(0x00FF), 0);
    assert_eq!(join_bytes(0x12, 0x34), 0x1234);
    assert_eq!(join_bytes(0xFF, 0x00), 0xFF00);
}

#[test]
fn register_indices() {
    assert_eq!(Reg::R0.index(), 0);
    assert_eq!(Reg::R7.index(), 7);
    assert_eq!(Reg::PC.index(), 8);
    assert_eq!(Reg::COND.index(), 9);
    assert_eq!(Reg::COUNT.index(), 10);
    assert_eq!(REG_COUNT, 10);
}

#[test]
fn registers_start_with_the_program_counter_set() {
    let reg: Vec<u16> = new_registers();
    assert_eq!(reg.len(), 10);
    for i in 0..10 {
        if i == 8 {
            assert_eq!(reg[i], PC_START);
            assert_eq!(reg[i], 0x3000);
        } else {
            assert_eq!(reg[i], 0);
        }
    }
}

#[test]
fn flag_bits() {
    assert_eq!(CondFlags::FL_POS.bits(), 0b001);
    assert_eq!(CondFlags::FL_ZRO.bits(), 0b010);
    assert_eq!(CondFlags::FL_NEG.bits(), 0b100);
}

#[test]
fn flag_of_a_value() {
    assert_eq!(CondFlags::of(0), CondFlags::FL_ZRO);
    assert_eq!(CondFlags::of(1), CondFlags::FL_POS);
    assert_eq!(CondFlags::of(0x7FFF), CondFlags::FL_POS);
    assert_eq!(CondFlags::of(0x8000), CondFlags::FL_NEG);
    assert_eq!(CondFlags::of(0xFFFF), CondFlags::FL_NEG);
}

#[test]
fn update_flags_sets_exactly_one_flag() {
    let samples: [u16; 8] = [0, 1, 2, 0x7FFF, 0x8000, 0x8001, 0xFFFE, 0xFFFF];
    for v in samples {
        let mut reg: Vec<u16> = new_registers();
        reg[3] = v;
        update_flags(3, &mut reg);
        let cond: u16 = reg[9];
        assert_eq!(cond.count_ones(), 1);
        assert!(cond == 1 || cond == 2 || cond == 4);
        if v == 0 {
            assert_eq!(cond, 2);
        } else if v & 0x8000 != 0 {
            assert_eq!(cond, 4);
        } else {
            assert_eq!(cond, 1);
        }
        assert_eq!(reg[3], v);
        assert_eq!(reg[8], 0x3000);
    }
}

#[test]
fn update_flags_reads_the_named_register() {
    let mut reg: Vec<u16> = new_registers();
    reg[0] = 0x8000;
    reg[1] = 7;
    update_flags(1, &mut reg);
    assert_eq!(reg[9], 1);
    update_flags(0, &mut reg);
    assert_eq!(reg[9], 4);
    update_flags(2, &mut reg);
    assert_eq!(reg[9], 2);
}
