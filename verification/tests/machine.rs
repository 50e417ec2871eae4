use tam_rs::errors::TamErrorKind;
use tam_rs::{TamEmulator, CP, CT, HB, HT, PB, PT, ST};

#[test]
fn new_values_set_correctly() {
    let emulator = TamEmulator::new(false);
    for i in 0..65536 {
        assert_eq!(0, emulator.code_store[i], "code word {i} not zeroed");
        assert_eq!(0, emulator.data_store[i], "data word {i} not zeroed");
    }
    for i in 0..16 {
        match i {
            HB | HT | PT => assert_eq!(65535, emulator.registers[i], "register {i} wrong"),
            PB => assert_eq!(65507, emulator.registers[i], "register {i} wrong"),
            _ => assert_eq!(0, emulator.registers[i], "register {i} not zeroed"),
        }
    }
}

#[test]
fn fetch_decode_cp_in_range_ok() {
    let mut emulator = TamEmulator::new(false);
    emulator.code_store[0] = 0x13572468;
    emulator.registers[CT] = 1;

    let instr = emulator.fetch_decode().expect("fetch_decode should not have errored");
    assert_eq!(1, instr.op);
    assert_eq!(3, instr.r);
    assert_eq!(87, instr.n);
    assert_eq!(9320, instr.d);
}

#[test]
fn fetch_decode_cp_out_of_range_err() {
    let mut emulator = TamEmulator::new(false);
    emulator.registers[CT] = 10;
    emulator.registers[CP] = 20;

    let error = emulator.fetch_decode().expect_err("fetch_decode should have errored");
    assert_eq!(TamErrorKind::AccessViolation, error.kind);
    assert_eq!(Some(20), error.address);
}

#[test]
fn fetch_decode_beyond_ct_fails_whatever_the_code_store_holds() {
    let mut emulator = TamEmulator::new(false);
    emulator.registers[CT] = 2;
    emulator.registers[CP] = 2;
    emulator.code_store[2] = 0xf0000000;

    let error = emulator.fetch_decode().expect_err("fetch past CT should fail");
    assert_eq!(TamErrorKind::AccessViolation, error.kind);
    assert_eq!(Some(2), error.address);
}

#[test]
fn reset_restores_defaults_and_preserves_ct() {
    let mut emulator = TamEmulator::new(false);
    emulator.registers[CT] = 7;
    emulator.registers[CP] = 5;
    emulator.registers[HT] = 3;
    emulator.registers[HB] = 3;
    emulator.registers[PT] = 9;
    emulator.registers[PB] = 1;
    emulator.code_store[0] = 0xdeadbeef;

    emulator.reset_registers();

    assert_eq!(65535, emulator.registers[PT]);
    assert_eq!(65507, emulator.registers[PB]);
    assert_eq!(65535, emulator.registers[HB]);
    assert_eq!(65535, emulator.registers[HT]);
    assert_eq!(0, emulator.registers[CP]);
    assert_eq!(7, emulator.registers[CT], "CT must survive a reset");
    assert_eq!(0xdeadbeef, emulator.code_store[0], "code must survive a reset");
}

#[test]
fn set_code_oversized_image_fails() {
    let mut emulator = TamEmulator::new(false);
    let image = vec![0xf0000000u32; 65508];
    let error = emulator.set_code(&image).expect_err("oversized image must be rejected");
    assert_eq!(TamErrorKind::IOError, error.kind);
    assert_eq!(None, error.address);
    assert!(error.message.is_some());
}

#[test]
fn set_code_image_of_exactly_pb_words_succeeds() {
    let mut emulator = TamEmulator::new(false);
    let image = vec![0xf0000000u32; 65507];
    emulator.set_code(&image).expect("image of exactly PB words must load");
    assert_eq!(65507, emulator.registers[CT]);
}

#[test]
fn set_code_installs_words_and_ct() {
    let mut emulator = TamEmulator::new(false);
    emulator.code_store[5] = 0x11111111;
    emulator.set_code(&[0xa0000002, 0xf0000000]).expect("small image must load");
    assert_eq!(0xa0000002, emulator.code_store[0]);
    assert_eq!(0xf0000000, emulator.code_store[1]);
    assert_eq!(0, emulator.code_store[5], "words past the image must be zeroed");
    assert_eq!(2, emulator.registers[CT]);
}

#[test]
fn push_then_pop_returns_value_and_restores_stack_top() {
    let mut emulator = TamEmulator::new(false);
    let st_before = emulator.registers[ST];
    emulator.push_data(1234).expect("push must succeed on an empty stack");
    assert_eq!(st_before + 1, emulator.registers[ST]);
    let value = emulator.pop_data().expect("pop must return the pushed word");
    assert_eq!(1234, value);
    assert_eq!(st_before, emulator.registers[ST]);
}

#[test]
fn pop_on_empty_stack_underflows() {
    let mut emulator = TamEmulator::new(false);
    let error = emulator.pop_data().expect_err("pop on empty stack must fail");
    assert_eq!(TamErrorKind::StackUnderflow, error.kind);
}

#[test]
fn push_into_heap_overflows() {
    let mut emulator = TamEmulator::new(false);
    emulator.registers[ST] = 4;
    emulator.registers[HT] = 4;
    let error = emulator.push_data(1).expect_err("push into the heap must fail");
    assert_eq!(TamErrorKind::StackOverflow, error.kind);
}
