use dora::bty::BytecodeType;
use dora::bytecode::{
    decode_instruction, encode_instruction, BytecodeFunction, BytecodeOpcode, ConstPoolEntry,
    Instruction,
};
use dora::dumper::dump_function;

fn roundtrip(insts: Vec<Instruction>) {
    let mut code: Vec<u8> = Vec::new();
    for inst in &insts {
        encode_instruction(inst.op, &inst.operands, &mut code);
    }
    let mut decoded: Vec<Instruction> = Vec::new();
    let mut pos = 0;
    while pos < code.len() {
        let (inst, next) = decode_instruction(&code, pos).expect("well-formed code");
        decoded.push(inst);
        pos = next;
    }
    assert_eq!(pos, code.len());
    assert_eq!(insts, decoded);
}

#[test]
fn bytecode_roundtrip_narrow_operands() {
    roundtrip(vec![
        Instruction { op: BytecodeOpcode::Add, operands: vec![0, 1, 2] },
        Instruction { op: BytecodeOpcode::ConstInt32, operands: vec![3, 0] },
        Instruction { op: BytecodeOpcode::Ret, operands: vec![3] },
    ]);
}

#[test]
fn bytecode_roundtrip_wide_operands() {
    // a register number above 255 escalates the whole instruction to
    // two-byte operands; above 65535 to four
    roundtrip(vec![
        Instruction { op: BytecodeOpcode::Mov, operands: vec![300, 2] },
        Instruction { op: BytecodeOpcode::Mov, operands: vec![70000, 1] },
        Instruction { op: BytecodeOpcode::LoopStart, operands: vec![] },
        Instruction { op: BytecodeOpcode::JumpLoop, operands: vec![12] },
    ]);
}

#[test]
fn bytecode_decode_rejects_truncated_input() {
    let mut code: Vec<u8> = Vec::new();
    encode_instruction(BytecodeOpcode::Add, &vec![1, 2, 3], &mut code);
    code.pop();
    // the last operand is missing now
    assert!(decode_instruction(&code, 0).is_none());
    assert!(decode_instruction(&code, code.len()).is_none());
}

#[test]
fn dump_lists_instructions_registers_constants_and_locations() {

    let mut code: Vec<u8> = Vec::new();
    encode_instruction(BytecodeOpcode::ConstInt32, &vec![0, 0], &mut code);
    encode_instruction(BytecodeOpcode::Add, &vec![1, 0, 0], &mut code);
    encode_instruction(BytecodeOpcode::Ret, &vec![1], &mut code);
    let bc = BytecodeFunction {
        code,
        registers: vec![BytecodeType::Int32, BytecodeType::Int32],
        const_pool: vec![ConstPoolEntry::Int32(-7), ConstPoolEntry::String("hi".into())],
        locations: vec![(0, 1), (3, 2)],
        arguments: 0,
    };
    let text = dump_function(&bc).unwrap();
    let expected = "  0: ConstInt32 0, 0\n  3: Add 1, 0, 0\n  7: Ret 1\n\
\n  Registers:\n   0 => Int32\n   1 => Int32\n\
\n  Constants:\n   0 => Int32 -7\n   1 => String \"hi\"\n\
\n  Locations:\n   0 => 1\n   3 => 2\n";
    assert_eq!(text, expected);
}
