use std::io::Cursor;
use tam_rs::errors::TamErrorKind;
use tam_rs::instructions::TamInstruction;
use tam_rs::{TamEmulator, HT, SB, ST};

fn run(emulator: &mut TamEmulator, input: &str) -> Result<String, tam_rs::errors::TamError> {
    let mut reader = Cursor::new(input.to_owned());
    let mut output: Vec<u8> = Vec::new();
    loop {
        let instr = emulator.fetch_decode()?;
        match emulator.execute(instr, &mut reader, &mut output) {
            Ok(true) => (),
            Ok(false) => break,
            Err(e) => return Err(e),
        }
    }
    Ok(String::from_utf8(output).expect("output was not valid utf8"))
}

#[test]
fn execute_unknown_op_err() {
    let mut emulator = TamEmulator::new(false);
    let mut reader = Cursor::new("");
    let mut writer: Vec<u8> = Vec::new();
    let instr = TamInstruction::make(28, 0, 0, 0);
    let err = emulator
        .execute(instr, &mut reader, &mut writer)
        .expect_err("should have failed to execute");
    assert_eq!(TamErrorKind::UnknownOpcode(28), err.kind, "execute returned wrong error");
}

#[test]
fn execute_load_good_address_ok() {
    let mut emulator = TamEmulator::new(false);
    emulator.data_store[0] = 5;
    emulator.data_store[1] = 10;
    emulator.data_store[2] = 15;
    emulator.registers[ST] = 3;

    let mut reader = Cursor::new("");
    let mut writer: Vec<u8> = Vec::new();
    let instr = TamInstruction::make(0, SB as u8, 2, 1);
    let result = emulator
        .execute(instr, &mut reader, &mut writer)
        .expect("execute should not have failed");

    assert!(result, "execute should not have returned false");
    assert_eq!(10, emulator.data_store[3], "first value not pushed");
    assert_eq!(15, emulator.data_store[4], "second value not pushed");
    assert_eq!(5, emulator.registers[ST], "stack top not advanced by two");
}

#[test]
fn execute_load_bad_address_err() {
    let mut emulator = TamEmulator::new(false);
    let mut reader = Cursor::new("");
    let mut writer: Vec<u8> = Vec::new();
    let instr = TamInstruction::make(0, SB as u8, 1, 20);
    let error = emulator
        .execute(instr, &mut reader, &mut writer)
        .expect_err("execute should have returned an error");
    assert_eq!(TamErrorKind::AccessViolation, error.kind);
    assert_eq!(Some(0), error.address);
}

#[test]
fn execute_load_rejects_gap_boundaries() {
    // With ST = 3 and HT = 10 every address a with 3 <= a <= 10 is in the
    // collision gap; both ends are rejected, the neighbours are not.
    for (addr, expect_err) in [(2i16, false), (3, true), (10, true), (11, false)] {
        let mut emulator = TamEmulator::new(false);
        emulator.registers[ST] = 3;
        emulator.registers[HT] = 10;
        let mut reader = Cursor::new("");
        let mut writer: Vec<u8> = Vec::new();
        let instr = TamInstruction::make(0, SB as u8, 1, addr);
        let result = emulator.execute(instr, &mut reader, &mut writer);
        if expect_err {
            let error = result.expect_err("gap access must fail");
            assert_eq!(TamErrorKind::AccessViolation, error.kind);
        } else {
            panic_if_err(addr, &result);
        }
    }
}

fn panic_if_err(addr: i16, result: &Result<bool, tam_rs::errors::TamError>) {
    if let Err(e) = result {
        panic!("access to {addr} outside the gap failed: {e:?}");
    }
}

#[test]
fn execute_loada_ok() {
    let mut emulator = TamEmulator::new(false);
    let mut reader = Cursor::new("");
    let mut writer: Vec<u8> = Vec::new();
    let instr = TamInstruction::make(1, SB as u8, 0, 3);
    let result = emulator
        .execute(instr, &mut reader, &mut writer)
        .expect("execute should not have errored");
    assert!(result, "execute should not have returned false");
    assert_eq!(3, emulator.data_store[0], "wrong value loaded");
}

#[test]
fn execute_loada_full_stack_stack_overflow() {
    let mut emulator = TamEmulator::new(false);
    emulator.registers[ST] = 1;
    emulator.registers[HT] = 1;
    let mut reader = Cursor::new("");
    let mut writer: Vec<u8> = Vec::new();
    let instr = TamInstruction::make(1, SB as u8, 0, 3);
    let error = emulator
        .execute(instr, &mut reader, &mut writer)
        .expect_err("execute should not have succeeded");
    assert_eq!(TamErrorKind::StackOverflow, error.kind);
}

#[test]
fn execute_loadi_good_address_full_stack_ok() {
    let mut emulator = TamEmulator::new(false);
    emulator.data_store[0] = 10;
    emulator.data_store[1] = 20;
    emulator.data_store[2] = 0;
    emulator.registers[ST] = 3;

    let mut reader = Cursor::new("");
    let mut writer: Vec<u8> = Vec::new();
    let instr = TamInstruction::make(2, 0, 1, 0);
    let result = emulator
        .execute(instr, &mut reader, &mut writer)
        .expect("execute should not have errored");
    assert!(result, "execute should not have returned false");
    assert_eq!(10, emulator.data_store[2], "wrong value loaded");
}

#[test]
fn execute_loadi_good_address_empty_stack_stack_underflow() {
    let mut emulator = TamEmulator::new(false);
    let mut reader = Cursor::new("");
    let mut writer: Vec<u8> = Vec::new();
    let instr = TamInstruction::make(2, 0, 1, 0);
    let error = emulator
        .execute(instr, &mut reader, &mut writer)
        .expect_err("execute should not have succeeded");
    assert_eq!(TamErrorKind::StackUnderflow, error.kind);
    assert_eq!(Some(0), error.address);
}

#[test]
fn execute_loadi_bad_address_access_violation() {
    let mut emulator = TamEmulator::new(false);
    emulator.data_store[0] = 10;
    emulator.data_store[1] = 20;
    emulator.data_store[2] = 30;
    emulator.registers[ST] = 3;
    let mut reader = Cursor::new("");
    let mut writer: Vec<u8> = Vec::new();
    let instr = TamInstruction::make(2, 0, 1, 0);
    let error = emulator
        .execute(instr, &mut reader, &mut writer)
        .expect_err("execute should not have succeeded");
    assert_eq!(TamErrorKind::AccessViolation, error.kind);
    assert_eq!(Some(0), error.address);
}

#[test]
fn execute_loadl_ok() {
    let mut emulator = TamEmulator::new(false);
    let mut reader = Cursor::new("");
    let mut writer: Vec<u8> = Vec::new();
    let instr = TamInstruction::make(3, 0, 0, -45);
    let result = emulator
        .execute(instr, &mut reader, &mut writer)
        .expect("execute should not have errored");
    assert!(result);
    assert_eq!(-45, emulator.data_store[0], "wrong value was loaded");
}

#[test]
fn execute_loadl_full_stack_stack_overflow() {
    let mut emulator = TamEmulator::new(false);
    emulator.registers[HT] = 0;
    let mut reader = Cursor::new("");
    let mut writer: Vec<u8> = Vec::new();
    let instr = TamInstruction::make(3, 0, 0, -45);
    let result = emulator
        .execute(instr, &mut reader, &mut writer)
        .expect_err("execute should have errored");
    assert_eq!(TamErrorKind::StackOverflow, result.kind);
}

#[test]
fn execute_halt_return_false() {
    let mut emulator = TamEmulator::new(false);
    let mut reader = Cursor::new("");
    let mut writer: Vec<u8> = Vec::new();
    let instr = TamInstruction::make(15, 0, 0, 0);
    let result = emulator
        .execute(instr, &mut reader, &mut writer)
        .expect("execute returned an error");
    assert!(!result, "execute should have returned false");
}

#[test]
fn single_halt_program_stops_after_one_step() {
    let mut emulator = TamEmulator::new(false);
    emulator.set_code(&[0xf0000000]).expect("failed to set code");

    let instr = emulator.fetch_decode().expect("fetch of the halt word must succeed");
    assert_eq!(15, instr.op);

    let mut reader = Cursor::new("");
    let mut writer: Vec<u8> = Vec::new();
    let mut steps: usize = 0;
    loop {
        let instr = emulator.fetch_decode().expect("fetch failed");
        steps += 1;
        match emulator.execute(instr, &mut reader, &mut writer) {
            Ok(true) => (),
            Ok(false) => break,
            Err(e) => panic!("execution failed: {e:?}"),
        }
    }
    assert_eq!(1, steps, "the run loop must stop after exactly one step");
}

#[test]
fn add_and_print_program_prints_sum() {
    let mut emulator = TamEmulator::new(false);
    emulator
        .set_code(&[0x30000015, 0x30000011, 0x62080008, 0x6208001a, 0x62080018, 0xf0000000])
        .expect("failed to set code");
    let output = run(&mut emulator, "").expect("program must run to halt");
    assert_eq!("38\n", output, "21 + 17 must print as 38");
}

#[test]
fn getint_putint_program_echoes_value() {
    // PUSH 1; LOADA 0[SB]; CALL getint; LOAD(1) 0[SB]; CALL putint;
    // CALL puteol; HALT
    let mut emulator = TamEmulator::new(false);
    emulator
        .set_code(&[
            0xa0000001, 0x14000000, 0x62080019, 0x04010000, 0x6208001a, 0x62080018, 0xf0000000,
        ])
        .expect("failed to set code");
    let output = run(&mut emulator, "-128\n").expect("program must run to halt");
    assert_eq!("-128\n", output);
}

#[test]
fn getint_reads_the_most_negative_word() {
    let mut emulator = TamEmulator::new(false);
    emulator
        .set_code(&[
            0xa0000001, 0x14000000, 0x62080019, 0x04010000, 0x6208001a, 0x62080018, 0xf0000000,
        ])
        .expect("failed to set code");
    let output = run(&mut emulator, "-32768\n").expect("program must run to halt");
    assert_eq!("-32768\n", output);
}

#[test]
fn getint_value_out_of_range_io_error() {
    let mut emulator = TamEmulator::new(false);
    emulator
        .set_code(&[0xa0000001, 0x14000000, 0x62080019, 0xf0000000])
        .expect("failed to set code");
    let error = run(&mut emulator, "32768\n").expect_err("an overflowing token must fail");
    assert_eq!(TamErrorKind::IOError, error.kind);
}

#[test]
fn getint_malformed_input_io_error() {
    let mut emulator = TamEmulator::new(false);
    emulator
        .set_code(&[0xa0000001, 0x14000000, 0x62080019, 0xf0000000])
        .expect("failed to set code");
    let error = run(&mut emulator, "abc\n").expect_err("malformed input must fail");
    assert_eq!(TamErrorKind::IOError, error.kind);
}

#[test]
fn gcd_program_prints_gcd() {
    // The gcd loop: data[0] and data[1] are read with getint, then
    // (a, b) becomes (b, a mod b) until b is zero, and a is printed.
    let mut emulator = TamEmulator::new(false);
    emulator
        .set_code(&[
            0xa0000002, 0x14000000, 0x62080019, 0x14000001, 0x62080019, 0x04010001, 0xe000000e,
            0x04010001, 0x04010001, 0x04010000, 0x6208000c, 0x44010001, 0x44010000, 0xc4000005,
            0x04010000, 0x6208001a, 0x62080018, 0xf0000000,
        ])
        .expect("failed to set code");
    let output = run(&mut emulator, "54\n24\n").expect("program must run to halt");
    assert_eq!("6\n", output, "gcd(54, 24) must print as 6");
}

#[test]
fn mod_by_zero_fails_without_corruption() {
    // LOADL 0; LOADL 7; CALL mod -> the divisor below the top is zero.
    let mut emulator = TamEmulator::new(false);
    emulator
        .set_code(&[0x30000000, 0x30000007, 0x6208000c, 0xf0000000])
        .expect("failed to set code");
    let error = run(&mut emulator, "").expect_err("dividing by zero must fail");
    assert_eq!(TamErrorKind::UnknownError, error.kind);
}

#[test]
fn pop_removes_words_but_preserves_the_top() {
    // LOADL 1; LOADL 2; LOADL 3; POP(1) 2; HALT -> only the 3 remains.
    let mut emulator = TamEmulator::new(false);
    emulator
        .set_code(&[0x30000001, 0x30000002, 0x30000003, 0xb0010002, 0xf0000000])
        .expect("failed to set code");
    run(&mut emulator, "").expect("program must run to halt");
    assert_eq!(1, emulator.registers[ST]);
    assert_eq!(3, emulator.data_store[0], "the top word must move down");
}

#[test]
fn push_reserves_uninitialized_words() {
    let mut emulator = TamEmulator::new(false);
    emulator.set_code(&[0xa0000005, 0xf0000000]).expect("failed to set code");
    run(&mut emulator, "").expect("program must run to halt");
    assert_eq!(5, emulator.registers[ST]);
}

#[test]
fn jumpi_transfers_to_popped_address() {
    // LOADL 3; JUMPI; HALT; HALT -> control reaches address 3 directly.
    let mut emulator = TamEmulator::new(false);
    emulator
        .set_code(&[0x30000003, 0xd0000000, 0xf0000000, 0xf0000000])
        .expect("failed to set code");
    run(&mut emulator, "").expect("program must run to halt");
    assert_eq!(3, emulator.registers[tam_rs::CP], "the jump must land on the popped address");
}

#[test]
fn jump_to_address_past_ct_access_violation() {
    // JUMP 9[SB] with only two loaded words.
    let mut emulator = TamEmulator::new(false);
    emulator.set_code(&[0xc4000009, 0xf0000000]).expect("failed to set code");
    let error = run(&mut emulator, "").expect_err("jump past the code must fail");
    assert_eq!(TamErrorKind::AccessViolation, error.kind);
    assert_eq!(Some(0), error.address);
}

#[test]
fn storei_writes_through_popped_address() {
    // PUSH 2; LOADL 0; LOADL 99; STOREI(1); HALT -> data[0] = 99.
    let mut emulator = TamEmulator::new(false);
    emulator
        .set_code(&[0xa0000002, 0x30000000, 0x30000063, 0x50010000, 0xf0000000])
        .expect("failed to set code");
    run(&mut emulator, "").expect("program must run to halt");
    assert_eq!(99, emulator.data_store[0]);
    assert_eq!(2, emulator.registers[ST]);
}

#[test]
fn calli_calls_popped_address_and_returns() {
    // LOADL 3; CALLI; HALT; then the routine: LOADL 20; RETURN(1) 0.
    let mut emulator = TamEmulator::new(false);
    emulator
        .set_code(&[0x30000003, 0x70080000, 0xf0000000, 0x30000014, 0x80010000])
        .expect("failed to set code");
    run(&mut emulator, "").expect("program must run to halt");
    assert_eq!(1, emulator.registers[ST], "one result word must remain");
    assert_eq!(20, emulator.data_store[0]);
}

#[test]
fn trace_renders_each_instruction_before_it_runs() {
    let mut emulator = TamEmulator::new(true);
    emulator
        .set_code(&[0x30000015, 0x30000011, 0x62080008, 0x6208001a, 0x62080018, 0xf0000000])
        .expect("failed to set code");
    let output = run(&mut emulator, "").expect("program must run to halt");
    assert!(output.starts_with("LOADL 21\nLOADL 17\n"), "trace lines missing: {output:?}");
    assert!(output.contains("CALL(8) 8[2]\n"), "call trace missing: {output:?}");
    assert!(output.contains("38"), "program output missing: {output:?}");
    assert!(output.ends_with("HALT\n"), "halt trace missing: {output:?}");
}

#[test]
fn call_and_return_round_trip() {
    // LOADL 7; CALL(8) 3[CB]; HALT; then the routine: LOADL 20; RETURN(1) 1.
    // The call pushes a three-word frame; the return drops it, removes the
    // caller's one argument word, and leaves the single result in its place.
    let mut emulator = TamEmulator::new(false);
    emulator
        .set_code(&[0x30000007, 0x60080003, 0xf0000000, 0x30000014, 0x80010001])
        .expect("failed to set code");
    let output = run(&mut emulator, "").expect("program must run to halt");
    assert_eq!("", output);
    assert_eq!(1, emulator.registers[ST], "one result word must remain");
    assert_eq!(20, emulator.data_store[0], "the result must replace the argument");
}
