use tam_rs::instructions::TamInstruction;

#[test]
fn from_u32() {
    let code: u32 = 0x38f1cf3f;
    let instr = TamInstruction::from(code);
    assert_eq!(3, instr.op);
    assert_eq!(8, instr.r);
    assert_eq!(241, instr.n);
    assert_eq!(-12481, instr.d);
}

#[test]
fn decode_extracts_all_fields() {
    let instr = TamInstruction::decode(0x13572468);
    assert_eq!(1, instr.op);
    assert_eq!(3, instr.r);
    assert_eq!(87, instr.n);
    assert_eq!(9320, instr.d);
}

#[test]
fn decode_then_encode_reproduces_word() {
    for &word in &[
        0x00000000u32,
        0x38f1cf3f,
        0xffffffff,
        0xa0000002,
        0x3000ffec,
        0x62080019,
        0xf0000000,
        0x13572468,
    ] {
        let instr = TamInstruction::decode(word);
        assert_eq!(word, instr.encode(), "codec not a bijection on {word:#010x}");
    }
}

#[test]
fn encode_then_decode_reproduces_fields() {
    let instr = TamInstruction::make(4, 15, 200, -32768);
    assert_eq!(instr, TamInstruction::decode(instr.encode()));
}

#[test]
fn make_sets_all_fields() {
    let instr = TamInstruction::make(2, 7, 9, -1);
    assert_eq!(2, instr.op);
    assert_eq!(7, instr.r);
    assert_eq!(9, instr.n);
    assert_eq!(-1, instr.d);
}

#[test]
fn mnemonics_render_per_opcode() {
    assert_eq!(b"HALT".to_vec(), TamInstruction::make(15, 0, 0, 0).mnemonic());
    assert_eq!(b"LOAD(2) 1[4]".to_vec(), TamInstruction::make(0, 4, 2, 1).mnemonic());
    assert_eq!(b"LOADA 3[4]".to_vec(), TamInstruction::make(1, 4, 0, 3).mnemonic());
    assert_eq!(b"LOADI (1)".to_vec(), TamInstruction::make(2, 0, 1, 0).mnemonic());
    assert_eq!(b"LOADL -45".to_vec(), TamInstruction::make(3, 0, 0, -45).mnemonic());
    assert_eq!(b"STORE(1) 1[4]".to_vec(), TamInstruction::make(4, 4, 1, 1).mnemonic());
    assert_eq!(b"STOREI(2)".to_vec(), TamInstruction::make(5, 0, 2, 0).mnemonic());
    assert_eq!(b"CALL(8) 25[2]".to_vec(), TamInstruction::make(6, 2, 8, 25).mnemonic());
    assert_eq!(b"CALLI".to_vec(), TamInstruction::make(7, 0, 0, 0).mnemonic());
    assert_eq!(b"RETURN(1) 2".to_vec(), TamInstruction::make(8, 0, 1, 2).mnemonic());
    assert_eq!(b"PUSH 2".to_vec(), TamInstruction::make(10, 0, 0, 2).mnemonic());
    assert_eq!(b"POP(1) 3".to_vec(), TamInstruction::make(11, 0, 1, 3).mnemonic());
    assert_eq!(b"JUMP 5[4]".to_vec(), TamInstruction::make(12, 4, 0, 5).mnemonic());
    assert_eq!(b"JUMPI".to_vec(), TamInstruction::make(13, 0, 0, 0).mnemonic());
    assert_eq!(b"JUMPIF(0) 14[0]".to_vec(), TamInstruction::make(14, 0, 0, 14).mnemonic());
    assert_eq!(b"".to_vec(), TamInstruction::make(9, 0, 0, 0).mnemonic());
}
