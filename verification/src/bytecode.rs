use vstd::prelude::*;

use crate::bty::{BytecodeType, ClassDefinitionId, EnumDefinitionId, FctDefinitionId,
    GlobalDefinitionId, StructDefinitionId, TraitDefinitionId, BytecodeTypeArray};

verus! {

/// A bytecode register: a dense index into the function's register table.
#[derive(Clone, Copy, Debug, PartialEq, Eq, Structural, Hash)]
pub struct Register(pub u32);

/// A byte offset into a function's encoded code.
#[derive(Clone, Copy, Debug, PartialEq, Eq, Structural, Hash)]
pub struct BytecodeOffset(pub u32);

/// An index into a function's constant pool.
#[derive(Clone, Copy, Debug, PartialEq, Eq, Structural, Hash)]
pub struct ConstPoolIdx(pub u32);

/// One constant-pool entry. Float constants are kept as their raw bit
/// patterns.
#[derive(Clone, Debug, PartialEq)]
pub enum ConstPoolEntry {
    String(String),
    Int32(i32),
    Int64(i64),
    Float32Bits(u32),
    Float64Bits(u64),
    Char(char),
    Class(ClassDefinitionId, BytecodeTypeArray),
    Struct(StructDefinitionId, BytecodeTypeArray),
    StructField(StructDefinitionId, BytecodeTypeArray, u32),
    Enum(EnumDefinitionId, BytecodeTypeArray),
    EnumVariant(EnumDefinitionId, BytecodeTypeArray, u32),
    EnumElement(EnumDefinitionId, BytecodeTypeArray, u32, u32),
    Field(ClassDefinitionId, BytecodeTypeArray, u32),
    Fct(FctDefinitionId, BytecodeTypeArray),
    Generic(u32, FctDefinitionId, BytecodeTypeArray),
    Trait(TraitDefinitionId, BytecodeTypeArray, BytecodeType),
    Tuple(BytecodeTypeArray),
    TupleElement(BytecodeTypeArray, u32),
    Lambda(BytecodeTypeArray, BytecodeType),
}

/// The instruction set of the register IR. All operands are register
/// numbers, constant-pool indices, global ids or jump distances, each held
/// as a 32-bit value.
#[derive(Clone, Copy, Debug, PartialEq, Eq, Structural, Hash)]
pub enum BytecodeOpcode {
    Add,
    Sub,
    Mul,
    Div,
    Mod,
    Neg,
    And,
    Or,
    Xor,
    Not,
    Shl,
    Shr,
    Sar,
    Mov,
    ConstTrue,
    ConstFalse,
    ConstZeroUInt8,
    ConstZeroChar,
    ConstZeroInt32,
    ConstZeroInt64,
    ConstChar,
    ConstInt32,
    ConstInt64,
    ConstString,
    ConstUInt8,
    TestEq,
    TestNe,
    TestGt,
    TestGe,
    TestLt,
    TestLe,
    TestIdentity,
    JumpIfFalse,
    JumpIfTrue,
    Jump,
    JumpLoop,
    LoopStart,
    JumpIfFalseConst,
    JumpIfTrueConst,
    JumpConst,
    LoadField,
    StoreField,
    LoadStructField,
    LoadTupleElement,
    LoadEnumElement,
    LoadEnumVariant,
    LoadGlobal,
    StoreGlobal,
    LoadArray,
    StoreArray,
    ArrayLength,
    NewArray,
    NewObject,
    NewObjectInitialized,
    NewTuple,
    NewEnum,
    NewStruct,
    NewLambda,
    NewTraitObject,
    PushRegister,
    InvokeDirect,
    InvokeStatic,
    InvokeVirtual,
    InvokeLambda,
    InvokeGenericStatic,
    InvokeGenericDirect,
    Ret,
    LoadTraitObjectValue,
}

/// The prefix escalating all operands of one instruction to two bytes.
pub const WIDE_PREFIX: u8 = 254;

/// The prefix escalating all operands of one instruction to four bytes.
pub const EXTRAWIDE_PREFIX: u8 = 255;

impl BytecodeOpcode {
    /// The one-byte number the opcode is encoded as.
    pub fn num(self) -> (r: u8)
        ensures
            r == self.num_spec(),
    {
        match self {
            BytecodeOpcode::Add => 0,
            BytecodeOpcode::Sub => 1,
            BytecodeOpcode::Mul => 2,
            BytecodeOpcode::Div => 3,
            BytecodeOpcode::Mod => 4,
            BytecodeOpcode::Neg => 5,
            BytecodeOpcode::And => 6,
            BytecodeOpcode::Or => 7,
            BytecodeOpcode::Xor => 8,
            BytecodeOpcode::Not => 9,
            BytecodeOpcode::Shl => 10,
            BytecodeOpcode::Shr => 11,
            BytecodeOpcode::Sar => 12,
            BytecodeOpcode::Mov => 13,
            BytecodeOpcode::ConstTrue => 14,
            BytecodeOpcode::ConstFalse => 15,
            BytecodeOpcode::ConstZeroUInt8 => 16,
            BytecodeOpcode::ConstZeroChar => 17,
            BytecodeOpcode::ConstZeroInt32 => 18,
            BytecodeOpcode::ConstZeroInt64 => 19,
            BytecodeOpcode::ConstChar => 20,
            BytecodeOpcode::ConstInt32 => 21,
            BytecodeOpcode::ConstInt64 => 22,
            BytecodeOpcode::ConstString => 23,
            BytecodeOpcode::ConstUInt8 => 24,
            BytecodeOpcode::TestEq => 25,
            BytecodeOpcode::TestNe => 26,
            BytecodeOpcode::TestGt => 27,
            BytecodeOpcode::TestGe => 28,
            BytecodeOpcode::TestLt => 29,
            BytecodeOpcode::TestLe => 30,
            BytecodeOpcode::TestIdentity => 31,
            BytecodeOpcode::JumpIfFalse => 32,
            BytecodeOpcode::JumpIfTrue => 33,
            BytecodeOpcode::Jump => 34,
            BytecodeOpcode::JumpLoop => 35,
            BytecodeOpcode::LoopStart => 36,
            BytecodeOpcode::JumpIfFalseConst => 37,
            BytecodeOpcode::JumpIfTrueConst => 38,
            BytecodeOpcode::JumpConst => 39,
            BytecodeOpcode::LoadField => 40,
            BytecodeOpcode::StoreField => 41,
            BytecodeOpcode::LoadStructField => 42,
            BytecodeOpcode::LoadTupleElement => 43,
            BytecodeOpcode::LoadEnumElement => 44,
            BytecodeOpcode::LoadEnumVariant => 45,
            BytecodeOpcode::LoadGlobal => 46,
            BytecodeOpcode::StoreGlobal => 47,
            BytecodeOpcode::LoadArray => 48,
            BytecodeOpcode::StoreArray => 49,
            BytecodeOpcode::ArrayLength => 50,
            BytecodeOpcode::NewArray => 51,
            BytecodeOpcode::NewObject => 52,
            BytecodeOpcode::NewObjectInitialized => 53,
            BytecodeOpcode::NewTuple => 54,
            BytecodeOpcode::NewEnum => 55,
            BytecodeOpcode::NewStruct => 56,
            BytecodeOpcode::NewLambda => 57,
            BytecodeOpcode::NewTraitObject => 58,
            BytecodeOpcode::PushRegister => 59,
            BytecodeOpcode::InvokeDirect => 60,
            BytecodeOpcode::InvokeStatic => 61,
            BytecodeOpcode::InvokeVirtual => 62,
            BytecodeOpcode::InvokeLambda => 63,
            BytecodeOpcode::InvokeGenericStatic => 64,
            BytecodeOpcode::InvokeGenericDirect => 65,
            BytecodeOpcode::Ret => 66,
            BytecodeOpcode::LoadTraitObjectValue => 67,
        }
    }

    pub open spec fn num_spec(self) -> u8 {
        match self {
            BytecodeOpcode::Add => 0,
            BytecodeOpcode::Sub => 1,
            BytecodeOpcode::Mul => 2,
            BytecodeOpcode::Div => 3,
            BytecodeOpcode::Mod => 4,
            BytecodeOpcode::Neg => 5,
            BytecodeOpcode::And => 6,
            BytecodeOpcode::Or => 7,
            BytecodeOpcode::Xor => 8,
            BytecodeOpcode::Not => 9,
            BytecodeOpcode::Shl => 10,
            BytecodeOpcode::Shr => 11,
            BytecodeOpcode::Sar => 12,
            BytecodeOpcode::Mov => 13,
            BytecodeOpcode::ConstTrue => 14,
            BytecodeOpcode::ConstFalse => 15,
            BytecodeOpcode::ConstZeroUInt8 => 16,
            BytecodeOpcode::ConstZeroChar => 17,
            BytecodeOpcode::ConstZeroInt32 => 18,
            BytecodeOpcode::ConstZeroInt64 => 19,
            BytecodeOpcode::ConstChar => 20,
            BytecodeOpcode::ConstInt32 => 21,
            BytecodeOpcode::ConstInt64 => 22,
            BytecodeOpcode::ConstString => 23,
            BytecodeOpcode::ConstUInt8 => 24,
            BytecodeOpcode::TestEq => 25,
            BytecodeOpcode::TestNe => 26,
            BytecodeOpcode::TestGt => 27,
            BytecodeOpcode::TestGe => 28,
            BytecodeOpcode::TestLt => 29,
            BytecodeOpcode::TestLe => 30,
            BytecodeOpcode::TestIdentity => 31,
            BytecodeOpcode::JumpIfFalse => 32,
            BytecodeOpcode::JumpIfTrue => 33,
            BytecodeOpcode::Jump => 34,
            BytecodeOpcode::JumpLoop => 35,
            BytecodeOpcode::LoopStart => 36,
            BytecodeOpcode::JumpIfFalseConst => 37,
            BytecodeOpcode::JumpIfTrueConst => 38,
            BytecodeOpcode::JumpConst => 39,
            BytecodeOpcode::LoadField => 40,
            BytecodeOpcode::StoreField => 41,
            BytecodeOpcode::LoadStructField => 42,
            BytecodeOpcode::LoadTupleElement => 43,
            BytecodeOpcode::LoadEnumElement => 44,
            BytecodeOpcode::LoadEnumVariant => 45,
            BytecodeOpcode::LoadGlobal => 46,
            BytecodeOpcode::StoreGlobal => 47,
            BytecodeOpcode::LoadArray => 48,
            BytecodeOpcode::StoreArray => 49,
            BytecodeOpcode::ArrayLength => 50,
            BytecodeOpcode::NewArray => 51,
            BytecodeOpcode::NewObject => 52,
            BytecodeOpcode::NewObjectInitialized => 53,
            BytecodeOpcode::NewTuple => 54,
            BytecodeOpcode::NewEnum => 55,
            BytecodeOpcode::NewStruct => 56,
            BytecodeOpcode::NewLambda => 57,
            BytecodeOpcode::NewTraitObject => 58,
            BytecodeOpcode::PushRegister => 59,
            BytecodeOpcode::InvokeDirect => 60,
            BytecodeOpcode::InvokeStatic => 61,
            BytecodeOpcode::InvokeVirtual => 62,
            BytecodeOpcode::InvokeLambda => 63,
            BytecodeOpcode::InvokeGenericStatic => 64,
            BytecodeOpcode::InvokeGenericDirect => 65,
            BytecodeOpcode::Ret => 66,
            BytecodeOpcode::LoadTraitObjectValue => 67,
        }
    }

    /// How many operands the opcode takes.
    pub fn arity(self) -> (r: usize)
        ensures
            r == self.arity_spec(),
    {
        match self {
            BytecodeOpcode::Add => 3,
            BytecodeOpcode::Sub => 3,
            BytecodeOpcode::Mul => 3,
            BytecodeOpcode::Div => 3,
            BytecodeOpcode::Mod => 3,
            BytecodeOpcode::Neg => 2,
            BytecodeOpcode::And => 3,
            BytecodeOpcode::Or => 3,
            BytecodeOpcode::Xor => 3,
            BytecodeOpcode::Not => 2,
            BytecodeOpcode::Shl => 3,
            BytecodeOpcode::Shr => 3,
            BytecodeOpcode::Sar => 3,
            BytecodeOpcode::Mov => 2,
            BytecodeOpcode::ConstTrue => 1,
            BytecodeOpcode::ConstFalse => 1,
            BytecodeOpcode::ConstZeroUInt8 => 1,
            BytecodeOpcode::ConstZeroChar => 1,
            BytecodeOpcode::ConstZeroInt32 => 1,
            BytecodeOpcode::ConstZeroInt64 => 1,
            BytecodeOpcode::ConstChar => 2,
            BytecodeOpcode::ConstInt32 => 2,
            BytecodeOpcode::ConstInt64 => 2,
            BytecodeOpcode::ConstString => 2,
            BytecodeOpcode::ConstUInt8 => 2,
            BytecodeOpcode::TestEq => 3,
            BytecodeOpcode::TestNe => 3,
            BytecodeOpcode::TestGt => 3,
            BytecodeOpcode::TestGe => 3,
            BytecodeOpcode::TestLt => 3,
            BytecodeOpcode::TestLe => 3,
            BytecodeOpcode::TestIdentity => 3,
            BytecodeOpcode::JumpIfFalse => 2,
            BytecodeOpcode::JumpIfTrue => 2,
            BytecodeOpcode::Jump => 1,
            BytecodeOpcode::JumpLoop => 1,
            BytecodeOpcode::LoopStart => 0,
            BytecodeOpcode::JumpIfFalseConst => 2,
            BytecodeOpcode::JumpIfTrueConst => 2,
            BytecodeOpcode::JumpConst => 1,
            BytecodeOpcode::LoadField => 3,
            BytecodeOpcode::StoreField => 3,
            BytecodeOpcode::LoadStructField => 3,
            BytecodeOpcode::LoadTupleElement => 3,
            BytecodeOpcode::LoadEnumElement => 3,
            BytecodeOpcode::LoadEnumVariant => 3,
            BytecodeOpcode::LoadGlobal => 2,
            BytecodeOpcode::StoreGlobal => 2,
            BytecodeOpcode::LoadArray => 3,
            BytecodeOpcode::StoreArray => 3,
            BytecodeOpcode::ArrayLength => 2,
            BytecodeOpcode::NewArray => 3,
            BytecodeOpcode::NewObject => 2,
            BytecodeOpcode::NewObjectInitialized => 2,
            BytecodeOpcode::NewTuple => 2,
            BytecodeOpcode::NewEnum => 2,
            BytecodeOpcode::NewStruct => 2,
            BytecodeOpcode::NewLambda => 2,
            BytecodeOpcode::NewTraitObject => 3,
            BytecodeOpcode::PushRegister => 1,
            BytecodeOpcode::InvokeDirect => 2,
            BytecodeOpcode::InvokeStatic => 2,
            BytecodeOpcode::InvokeVirtual => 2,
            BytecodeOpcode::InvokeLambda => 2,
            BytecodeOpcode::InvokeGenericStatic => 2,
            BytecodeOpcode::InvokeGenericDirect => 2,
            BytecodeOpcode::Ret => 1,
            BytecodeOpcode::LoadTraitObjectValue => 2,
        }
    }

    pub open spec fn arity_spec(self) -> int {
        match self {
            BytecodeOpcode::Add => 3,
            BytecodeOpcode::Sub => 3,
            BytecodeOpcode::Mul => 3,
            BytecodeOpcode::Div => 3,
            BytecodeOpcode::Mod => 3,
            BytecodeOpcode::Neg => 2,
            BytecodeOpcode::And => 3,
            BytecodeOpcode::Or => 3,
            BytecodeOpcode::Xor => 3,
            BytecodeOpcode::Not => 2,
            BytecodeOpcode::Shl => 3,
            BytecodeOpcode::Shr => 3,
            BytecodeOpcode::Sar => 3,
            BytecodeOpcode::Mov => 2,
            BytecodeOpcode::ConstTrue => 1,
            BytecodeOpcode::ConstFalse => 1,
            BytecodeOpcode::ConstZeroUInt8 => 1,
            BytecodeOpcode::ConstZeroChar => 1,
            BytecodeOpcode::ConstZeroInt32 => 1,
            BytecodeOpcode::ConstZeroInt64 => 1,
            BytecodeOpcode::ConstChar => 2,
            BytecodeOpcode::ConstInt32 => 2,
            BytecodeOpcode::ConstInt64 => 2,
            BytecodeOpcode::ConstString => 2,
            BytecodeOpcode::ConstUInt8 => 2,
            BytecodeOpcode::TestEq => 3,
            BytecodeOpcode::TestNe => 3,
            BytecodeOpcode::TestGt => 3,
            BytecodeOpcode::TestGe => 3,
            BytecodeOpcode::TestLt => 3,
            BytecodeOpcode::TestLe => 3,
            BytecodeOpcode::TestIdentity => 3,
            BytecodeOpcode::JumpIfFalse => 2,
            BytecodeOpcode::JumpIfTrue => 2,
            BytecodeOpcode::Jump => 1,
            BytecodeOpcode::JumpLoop => 1,
            BytecodeOpcode::LoopStart => 0,
            BytecodeOpcode::JumpIfFalseConst => 2,
            BytecodeOpcode::JumpIfTrueConst => 2,
            BytecodeOpcode::JumpConst => 1,
            BytecodeOpcode::LoadField => 3,
            BytecodeOpcode::StoreField => 3,
            BytecodeOpcode::LoadStructField => 3,
            BytecodeOpcode::LoadTupleElement => 3,
            BytecodeOpcode::LoadEnumElement => 3,
            BytecodeOpcode::LoadEnumVariant => 3,
            BytecodeOpcode::LoadGlobal => 2,
            BytecodeOpcode::StoreGlobal => 2,
            BytecodeOpcode::LoadArray => 3,
            BytecodeOpcode::StoreArray => 3,
            BytecodeOpcode::ArrayLength => 2,
            BytecodeOpcode::NewArray => 3,
            BytecodeOpcode::NewObject => 2,
            BytecodeOpcode::NewObjectInitialized => 2,
            BytecodeOpcode::NewTuple => 2,
            BytecodeOpcode::NewEnum => 2,
            BytecodeOpcode::NewStruct => 2,
            BytecodeOpcode::NewLambda => 2,
            BytecodeOpcode::NewTraitObject => 3,
            BytecodeOpcode::PushRegister => 1,
            BytecodeOpcode::InvokeDirect => 2,
            BytecodeOpcode::InvokeStatic => 2,
            BytecodeOpcode::InvokeVirtual => 2,
            BytecodeOpcode::InvokeLambda => 2,
            BytecodeOpcode::InvokeGenericStatic => 2,
            BytecodeOpcode::InvokeGenericDirect => 2,
            BytecodeOpcode::Ret => 1,
            BytecodeOpcode::LoadTraitObjectValue => 2,
        }
    }
}

/// The opcode a one-byte number stands for, if any.
pub open spec fn opcode_of_spec(num: u8) -> Option<BytecodeOpcode> {
    match num {
        0 => Some(BytecodeOpcode::Add),
        1 => Some(BytecodeOpcode::Sub),
        2 => Some(BytecodeOpcode::Mul),
        3 => Some(BytecodeOpcode::Div),
        4 => Some(BytecodeOpcode::Mod),
        5 => Some(BytecodeOpcode::Neg),
        6 => Some(BytecodeOpcode::And),
        7 => Some(BytecodeOpcode::Or),
        8 => Some(BytecodeOpcode::Xor),
        9 => Some(BytecodeOpcode::Not),
        10 => Some(BytecodeOpcode::Shl),
        11 => Some(BytecodeOpcode::Shr),
        12 => Some(BytecodeOpcode::Sar),
        13 => Some(BytecodeOpcode::Mov),
        14 => Some(BytecodeOpcode::ConstTrue),
        15 => Some(BytecodeOpcode::ConstFalse),
        16 => Some(BytecodeOpcode::ConstZeroUInt8),
        17 => Some(BytecodeOpcode::ConstZeroChar),
        18 => Some(BytecodeOpcode::ConstZeroInt32),
        19 => Some(BytecodeOpcode::ConstZeroInt64),
        20 => Some(BytecodeOpcode::ConstChar),
        21 => Some(BytecodeOpcode::ConstInt32),
        22 => Some(BytecodeOpcode::ConstInt64),
        23 => Some(BytecodeOpcode::ConstString),
        24 => Some(BytecodeOpcode::ConstUInt8),
        25 => Some(BytecodeOpcode::TestEq),
        26 => Some(BytecodeOpcode::TestNe),
        27 => Some(BytecodeOpcode::TestGt),
        28 => Some(BytecodeOpcode::TestGe),
        29 => Some(BytecodeOpcode::TestLt),
        30 => Some(BytecodeOpcode::TestLe),
        31 => Some(BytecodeOpcode::TestIdentity),
        32 => Some(BytecodeOpcode::JumpIfFalse),
        33 => Some(BytecodeOpcode::JumpIfTrue),
        34 => Some(BytecodeOpcode::Jump),
        35 => Some(BytecodeOpcode::JumpLoop),
        36 => Some(BytecodeOpcode::LoopStart),
        37 => Some(BytecodeOpcode::JumpIfFalseConst),
        38 => Some(BytecodeOpcode::JumpIfTrueConst),
        39 => Some(BytecodeOpcode::JumpConst),
        40 => Some(BytecodeOpcode::LoadField),
        41 => Some(BytecodeOpcode::StoreField),
        42 => Some(BytecodeOpcode::LoadStructField),
        43 => Some(BytecodeOpcode::LoadTupleElement),
        44 => Some(BytecodeOpcode::LoadEnumElement),
        45 => Some(BytecodeOpcode::LoadEnumVariant),
        46 => Some(BytecodeOpcode::LoadGlobal),
        47 => Some(BytecodeOpcode::StoreGlobal),
        48 => Some(BytecodeOpcode::LoadArray),
        49 => Some(BytecodeOpcode::StoreArray),
        50 => Some(BytecodeOpcode::ArrayLength),
        51 => Some(BytecodeOpcode::NewArray),
        52 => Some(BytecodeOpcode::NewObject),
        53 => Some(BytecodeOpcode::NewObjectInitialized),
        54 => Some(BytecodeOpcode::NewTuple),
        55 => Some(BytecodeOpcode::NewEnum),
        56 => Some(BytecodeOpcode::NewStruct),
        57 => Some(BytecodeOpcode::NewLambda),
        58 => Some(BytecodeOpcode::NewTraitObject),
        59 => Some(BytecodeOpcode::PushRegister),
        60 => Some(BytecodeOpcode::InvokeDirect),
        61 => Some(BytecodeOpcode::InvokeStatic),
        62 => Some(BytecodeOpcode::InvokeVirtual),
        63 => Some(BytecodeOpcode::InvokeLambda),
        64 => Some(BytecodeOpcode::InvokeGenericStatic),
        65 => Some(BytecodeOpcode::InvokeGenericDirect),
        66 => Some(BytecodeOpcode::Ret),
        67 => Some(BytecodeOpcode::LoadTraitObjectValue),
        _ => None,
    }
}

pub fn opcode_of(num: u8) -> (r: Option<BytecodeOpcode>)
    ensures
        r == opcode_of_spec(num),
{
    match num {
        0 => Some(BytecodeOpcode::Add),
        1 => Some(BytecodeOpcode::Sub),
        2 => Some(BytecodeOpcode::Mul),
        3 => Some(BytecodeOpcode::Div),
        4 => Some(BytecodeOpcode::Mod),
        5 => Some(BytecodeOpcode::Neg),
        6 => Some(BytecodeOpcode::And),
        7 => Some(BytecodeOpcode::Or),
        8 => Some(BytecodeOpcode::Xor),
        9 => Some(BytecodeOpcode::Not),
        10 => Some(BytecodeOpcode::Shl),
        11 => Some(BytecodeOpcode::Shr),
        12 => Some(BytecodeOpcode::Sar),
        13 => Some(BytecodeOpcode::Mov),
        14 => Some(BytecodeOpcode::ConstTrue),
        15 => Some(BytecodeOpcode::ConstFalse),
        16 => Some(BytecodeOpcode::ConstZeroUInt8),
        17 => Some(BytecodeOpcode::ConstZeroChar),
        18 => Some(BytecodeOpcode::ConstZeroInt32),
        19 => Some(BytecodeOpcode::ConstZeroInt64),
        20 => Some(BytecodeOpcode::ConstChar),
        21 => Some(BytecodeOpcode::ConstInt32),
        22 => Some(BytecodeOpcode::ConstInt64),
        23 => Some(BytecodeOpcode::ConstString),
        24 => Some(BytecodeOpcode::ConstUInt8),
        25 => Some(BytecodeOpcode::TestEq),
        26 => Some(BytecodeOpcode::TestNe),
        27 => Some(BytecodeOpcode::TestGt),
        28 => Some(BytecodeOpcode::TestGe),
        29 => Some(BytecodeOpcode::TestLt),
        30 => Some(BytecodeOpcode::TestLe),
        31 => Some(BytecodeOpcode::TestIdentity),
        32 => Some(BytecodeOpcode::JumpIfFalse),
        33 => Some(BytecodeOpcode::JumpIfTrue),
        34 => Some(BytecodeOpcode::Jump),
        35 => Some(BytecodeOpcode::JumpLoop),
        36 => Some(BytecodeOpcode::LoopStart),
        37 => Some(BytecodeOpcode::JumpIfFalseConst),
        38 => Some(BytecodeOpcode::JumpIfTrueConst),
        39 => Some(BytecodeOpcode::JumpConst),
        40 => Some(BytecodeOpcode::LoadField),
        41 => Some(BytecodeOpcode::StoreField),
        42 => Some(BytecodeOpcode::LoadStructField),
        43 => Some(BytecodeOpcode::LoadTupleElement),
        44 => Some(BytecodeOpcode::LoadEnumElement),
        45 => Some(BytecodeOpcode::LoadEnumVariant),
        46 => Some(BytecodeOpcode::LoadGlobal),
        47 => Some(BytecodeOpcode::StoreGlobal),
        48 => Some(BytecodeOpcode::LoadArray),
        49 => Some(BytecodeOpcode::StoreArray),
        50 => Some(BytecodeOpcode::ArrayLength),
        51 => Some(BytecodeOpcode::NewArray),
        52 => Some(BytecodeOpcode::NewObject),
        53 => Some(BytecodeOpcode::NewObjectInitialized),
        54 => Some(BytecodeOpcode::NewTuple),
        55 => Some(BytecodeOpcode::NewEnum),
        56 => Some(BytecodeOpcode::NewStruct),
        57 => Some(BytecodeOpcode::NewLambda),
        58 => Some(BytecodeOpcode::NewTraitObject),
        59 => Some(BytecodeOpcode::PushRegister),
        60 => Some(BytecodeOpcode::InvokeDirect),
        61 => Some(BytecodeOpcode::InvokeStatic),
        62 => Some(BytecodeOpcode::InvokeVirtual),
        63 => Some(BytecodeOpcode::InvokeLambda),
        64 => Some(BytecodeOpcode::InvokeGenericStatic),
        65 => Some(BytecodeOpcode::InvokeGenericDirect),
        66 => Some(BytecodeOpcode::Ret),
        67 => Some(BytecodeOpcode::LoadTraitObjectValue),
        _ => None,
    }
}

/// The opcode numbering and the opcode table are inverse to each other,
/// and no opcode collides with the width prefixes.
pub proof fn lemma_opcode_num_inverse(op: BytecodeOpcode)
    ensures
        opcode_of_spec(op.num_spec()) == Some(op),
        op.num_spec() != WIDE_PREFIX,
        op.num_spec() != EXTRAWIDE_PREFIX,
{
}

/// One decoded instruction: the opcode and its operand values.
#[derive(Clone, Debug, PartialEq)]
pub struct Instruction {
    pub op: BytecodeOpcode,
    pub operands: Vec<u32>,
}

impl Instruction {
    /// The operand count matches the opcode.
    pub open spec fn wf(self) -> bool {
        self.operands@.len() == self.op.arity_spec()
    }
}

/// The operand width an instruction is encoded with: one byte unless some
/// operand needs two or four.
pub open spec fn width_of(operands: Seq<u32>) -> int {
    if forall|i: int| 0 <= i < operands.len() ==> (#[trigger] operands[i]) < 256 {
        1
    } else if forall|i: int| 0 <= i < operands.len() ==> (#[trigger] operands[i]) < 65536 {
        2
    } else {
        4
    }
}

/// The little-endian bytes of one operand at the given width.
pub open spec fn operand_bytes(v: u32, width: int) -> Seq<u8> {
    if width == 1 {
        seq![(v % 256) as u8]
    } else if width == 2 {
        seq![(v % 256) as u8, ((v / 256) % 256) as u8]
    } else {
        seq![
            (v % 256) as u8,
            ((v / 256) % 256) as u8,
            ((v / 65536) % 256) as u8,
            ((v / 16777216) % 256) as u8,
        ]
    }
}

/// The bytes of an operand list at one width, in order.
pub open spec fn operands_bytes(operands: Seq<u32>, width: int) -> Seq<u8>
    decreases operands,
{
    if operands.len() == 0 {
        Seq::<u8>::empty()
    } else {
        operand_bytes(operands[0], width) + operands_bytes(operands.drop_first(), width)
    }
}

/// The encoding of one instruction: an optional width prefix, the opcode
/// byte, then the operands.
pub open spec fn instruction_bytes(op: BytecodeOpcode, operands: Seq<u32>) -> Seq<u8> {
    let width = width_of(operands);
    let prefix = if width == 1 {
        Seq::<u8>::empty()
    } else if width == 2 {
        seq![WIDE_PREFIX]
    } else {
        seq![EXTRAWIDE_PREFIX]
    };
    prefix + seq![op.num_spec()] + operands_bytes(operands, width)
}

/// The operand value read from `width` little-endian bytes.
pub open spec fn read_operand(bytes: Seq<u8>, pos: int, width: int) -> u32 {
    if width == 1 {
        bytes[pos] as u32
    } else if width == 2 {
        (bytes[pos] + 256 * (bytes[pos + 1] as u32)) as u32
    } else {
        (bytes[pos] + 256 * (bytes[pos + 1] as u32) + 65536 * (bytes[pos + 2] as u32) + 16777216 * (
        bytes[pos + 3] as u32)) as u32
    }
}

/// `n` operands read from `pos` on.
pub open spec fn read_operands(bytes: Seq<u8>, pos: int, n: int, width: int) -> Seq<u32>
    decreases n,
{
    if n <= 0 {
        Seq::<u32>::empty()
    } else {
        seq![read_operand(bytes, pos, width)] + read_operands(bytes, pos + width, n - 1, width)
    }
}

/// One instruction decoded at `pos`: its opcode, operands and the position
/// after it; `None` on malformed input.
pub open spec fn decode_spec(bytes: Seq<u8>, pos: int) -> Option<(BytecodeOpcode, Seq<u32>, int)> {
    if 0 <= pos < bytes.len() {
        let b0 = bytes[pos];
        let width: int = if b0 == WIDE_PREFIX {
            2
        } else if b0 == EXTRAWIDE_PREFIX {
            4
        } else {
            1
        };
        let oppos: int = if width == 1 {
            pos
        } else {
            pos + 1
        };
        if oppos < bytes.len() {
            match opcode_of_spec(bytes[oppos]) {
                Some(op) => {
                    let end = oppos + 1 + op.arity_spec() * width;
                    if end <= bytes.len() {
                        Some((op, read_operands(bytes, oppos + 1, op.arity_spec(), width), end))
                    } else {
                        None
                    }
                },
                None => None,
            }
        } else {
            None
        }
    } else {
        None
    }
}

/// Reading an operand back gives the value written, when it fits the width.
proof fn lemma_operand_roundtrip(bytes: Seq<u8>, pos: int, v: u32, width: int)
    requires
        width == 1 || width == 2 || width == 4,
        width == 1 ==> v < 256,
        width == 2 ==> v < 65536,
        0 <= pos,
        pos + width <= bytes.len(),
        bytes.subrange(pos, pos + width) == operand_bytes(v, width),
    ensures
        read_operand(bytes, pos, width) == v,
{
    assert(bytes[pos] == operand_bytes(v, width)[0]);
    if width >= 2 {
        assert(bytes[pos + 1] == operand_bytes(v, width)[1]);
    }
    if width == 4 {
        assert(bytes[pos + 2] == operand_bytes(v, width)[2]);
        assert(bytes[pos + 3] == operand_bytes(v, width)[3]);
    }
    if width == 1 {
        assert(v % 256 == v) by (nonlinear_arith)
            requires
                v < 256,
        ;
    } else if width == 2 {
        assert(v % 256 + 256 * ((v / 256) % 256) == v) by (nonlinear_arith)
            requires
                v < 65536,
        ;
    } else {
        assert(v % 256 + 256 * ((v / 256) % 256) + 65536 * ((v / 65536) % 256) + 16777216 * ((v
            / 16777216) % 256) == v) by (nonlinear_arith)
            requires
                v < 0x1_0000_0000,
        ;
    }
}

/// The byte length of an operand list.
proof fn lemma_operands_bytes_len(operands: Seq<u32>, width: int)
    requires
        width == 1 || width == 2 || width == 4,
    ensures
        operands_bytes(operands, width).len() == operands.len() * width,
    decreases operands,
{
    if operands.len() > 0 {
        lemma_operands_bytes_len(operands.drop_first(), width);
        assert(operands.len() * width == width + (operands.len() - 1) * width) by (nonlinear_arith);
        assert(operand_bytes(operands[0], width).len() == width);
    }
}

/// Operands written and then read back are unchanged, when each fits the
/// width.
proof fn lemma_operands_roundtrip(bytes: Seq<u8>, pos: int, operands: Seq<u32>, width: int)
    requires
        width == 1 || width == 2 || width == 4,
        width == 1 ==> forall|i: int| 0 <= i < operands.len() ==> (#[trigger] operands[i]) < 256,
        width == 2 ==> forall|i: int| 0 <= i < operands.len() ==> (#[trigger] operands[i]) < 65536,
        0 <= pos,
        pos + operands.len() * width <= bytes.len(),
        bytes.subrange(pos, pos + operands.len() * width) == operands_bytes(operands, width),
    ensures
        read_operands(bytes, pos, operands.len() as int, width) == operands,
    decreases operands,
{
    lemma_operands_bytes_len(operands, width);
    if operands.len() > 0 {
        let n = operands.len() as int;
        lemma_operands_bytes_len(operands.drop_first(), width);
        assert(n * width == width + (n - 1) * width) by (nonlinear_arith);
        assert(bytes.subrange(pos, pos + width) =~= operands_bytes(operands, width).subrange(
            0,
            width,
        ));
        assert(operands_bytes(operands, width).subrange(0, width) =~= operand_bytes(
            operands[0],
            width,
        ));
        lemma_operand_roundtrip(bytes, pos, operands[0], width);
        assert(bytes.subrange(pos + width, pos + n * width) =~= operands_bytes(
            operands,
            width,
        ).subrange(width, n * width));
        assert(operands_bytes(operands, width).subrange(width, n * width) =~= operands_bytes(
            operands.drop_first(),
            width,
        ));
        lemma_operands_roundtrip(bytes, pos + width, operands.drop_first(), width);
        assert(read_operands(bytes, pos, n, width) =~= operands);
    } else {
        assert(read_operands(bytes, pos, 0, width) =~= operands);
    }
}

/// Decoding one encoded instruction in the middle of a buffer yields the
/// opcode and operands it was encoded from, and stops right after it.
pub proof fn lemma_instruction_roundtrip(
    bytes: Seq<u8>,
    pos: int,
    op: BytecodeOpcode,
    operands: Seq<u32>,
)
    requires
        operands.len() == op.arity_spec(),
        0 <= pos,
        pos + instruction_bytes(op, operands).len() <= bytes.len(),
        bytes.subrange(pos, pos + instruction_bytes(op, operands).len()) == instruction_bytes(
            op,
            operands,
        ),
    ensures
        decode_spec(bytes, pos) == Some(
            (op, operands, pos + instruction_bytes(op, operands).len()),
        ),
{
    lemma_opcode_num_inverse(op);
    let width = width_of(operands);
    let enc = instruction_bytes(op, operands);
    lemma_operands_bytes_len(operands, width);
    let oppos: int = if width == 1 {
        pos
    } else {
        pos + 1
    };
    assert(bytes[oppos] == enc[oppos - pos]);
    assert(enc[oppos - pos] == op.num_spec());
    if width != 1 {
        assert(bytes[pos] == enc[0]);
    }
    assert(opcode_of_spec(bytes[oppos]) == Some(op));
    assert(bytes.subrange(oppos + 1, oppos + 1 + operands.len() * width) =~= enc.subrange(
        oppos - pos + 1,
        oppos - pos + 1 + operands.len() * width,
    ));
    assert(enc.subrange(oppos - pos + 1, oppos - pos + 1 + operands.len() * width)
        =~= operands_bytes(operands, width));
    lemma_operands_roundtrip(bytes, oppos + 1, operands, width);
}

/// The encoding of an instruction sequence: each instruction's bytes in
/// order.
pub open spec fn stream_bytes(insts: Seq<(BytecodeOpcode, Seq<u32>)>) -> Seq<u8>
    decreases insts,
{
    if insts.len() == 0 {
        Seq::<u8>::empty()
    } else {
        instruction_bytes(insts[0].0, insts[0].1) + stream_bytes(insts.drop_first())
    }
}

/// Every instruction of the stream carries the operand count its opcode
/// demands.
pub open spec fn stream_wf(insts: Seq<(BytecodeOpcode, Seq<u32>)>) -> bool {
    forall|i: int| 0 <= i < insts.len() ==> (#[trigger] insts[i]).1.len() == insts[i].0.arity_spec()
}

/// The whole buffer from `pos` on decoded as instructions; the fuel bounds
/// the number of instructions and only rules out non-termination.
pub open spec fn decode_stream_spec(bytes: Seq<u8>, pos: int, fuel: nat) -> Option<
    Seq<(BytecodeOpcode, Seq<u32>)>,
>
    decreases fuel,
{
    if pos == bytes.len() {
        Some(Seq::<(BytecodeOpcode, Seq<u32>)>::empty())
    } else if fuel == 0 {
        None
    } else {
        match decode_spec(bytes, pos) {
            Some((op, operands, next)) => match decode_stream_spec(
                bytes,
                next,
                (fuel - 1) as nat,
            ) {
                Some(rest) => Some(seq![(op, operands)] + rest),
                None => None,
            },
            None => None,
        }
    }
}

/// Decoding a tail that holds exactly an encoded stream gives the stream
/// back.
proof fn lemma_stream_roundtrip_at(
    bytes: Seq<u8>,
    pos: int,
    insts: Seq<(BytecodeOpcode, Seq<u32>)>,
    fuel: nat,
)
    requires
        stream_wf(insts),
        fuel >= insts.len(),
        0 <= pos <= bytes.len(),
        bytes.subrange(pos, bytes.len() as int) == stream_bytes(insts),
    ensures
        decode_stream_spec(bytes, pos, fuel) == Some(insts),
    decreases insts,
{
    if insts.len() == 0 {
        assert(pos == bytes.len());
    } else {
        let enc = instruction_bytes(insts[0].0, insts[0].1);
        let rest = stream_bytes(insts.drop_first());
        assert(bytes.subrange(pos, bytes.len() as int) == enc + rest);
        assert(bytes.len() - pos == enc.len() + rest.len());
        assert(bytes.subrange(pos, pos + enc.len()) =~= enc) by {
            assert forall|i: int| 0 <= i < enc.len() implies bytes.subrange(
                pos,
                pos + enc.len() as int,
            )[i] == enc[i] by {
                assert(bytes.subrange(pos, bytes.len() as int)[i] == (enc + rest)[i]);
            }
        }
        lemma_instruction_roundtrip(bytes, pos, insts[0].0, insts[0].1);
        let next = pos + enc.len();
        assert(bytes.subrange(next, bytes.len() as int) =~= rest) by {
            assert forall|i: int| 0 <= i < rest.len() implies bytes.subrange(
                next,
                bytes.len() as int,
            )[i] == rest[i] by {
                assert(bytes.subrange(pos, bytes.len() as int)[enc.len() + i] == (enc + rest)[
                    enc.len() + i]);
            }
        }
        lemma_stream_roundtrip_at(bytes, next, insts.drop_first(), (fuel - 1) as nat);
        assert(seq![(insts[0].0, insts[0].1)] + insts.drop_first() =~= insts);
    }
}

/// Decoding an encoded instruction stream gives every instruction back,
/// unchanged and in order.
pub proof fn lemma_bytecode_round_trip(insts: Seq<(BytecodeOpcode, Seq<u32>)>, fuel: nat)
    requires
        stream_wf(insts),
        fuel >= insts.len(),
    ensures
        decode_stream_spec(stream_bytes(insts), 0, fuel) == Some(insts),
{
    let bytes = stream_bytes(insts);
    assert(bytes.subrange(0, bytes.len() as int) =~= bytes);
    lemma_stream_roundtrip_at(bytes, 0, insts, fuel);
}

/// Pushing one more instruction extends the encoding at the end.
proof fn lemma_stream_bytes_push(insts: Seq<(BytecodeOpcode, Seq<u32>)>, op: BytecodeOpcode, operands: Seq<u32>)
    ensures
        stream_bytes(insts.push((op, operands))) == stream_bytes(insts) + instruction_bytes(
            op,
            operands,
        ),
    decreases insts,
{
    if insts.len() == 0 {
        reveal_with_fuel(stream_bytes, 3);
        assert(insts.push((op, operands))[0] == (op, operands));
        assert(insts.push((op, operands)).drop_first() =~= Seq::<(BytecodeOpcode, Seq<u32>)>::empty());
        assert(stream_bytes(insts.push((op, operands))) =~= instruction_bytes(op, operands));
        assert(stream_bytes(insts) + instruction_bytes(op, operands) =~= instruction_bytes(
            op,
            operands,
        ));
    } else {
        assert(insts.push((op, operands))[0] == insts[0]);
        assert(insts.push((op, operands)).drop_first() =~= insts.drop_first().push((op, operands)));
        lemma_stream_bytes_push(insts.drop_first(), op, operands);
        assert(stream_bytes(insts.push((op, operands))) =~= stream_bytes(insts)
            + instruction_bytes(op, operands));
    }
}

/// Appending one operand extends its list's bytes at the end.
proof fn lemma_operands_bytes_push(operands: Seq<u32>, v: u32, width: int)
    ensures
        operands_bytes(operands.push(v), width) == operands_bytes(operands, width) + operand_bytes(
            v,
            width,
        ),
    decreases operands,
{
    if operands.len() == 0 {
        reveal_with_fuel(operands_bytes, 3);
        assert(operands.push(v)[0] == v);
        assert(operands.push(v).drop_first() =~= Seq::<u32>::empty());
        assert(operands_bytes(operands.push(v), width) =~= operand_bytes(v, width));
        assert(operands_bytes(operands, width) + operand_bytes(v, width) =~= operand_bytes(
            v,
            width,
        ));
    } else {
        assert(operands.push(v)[0] == operands[0]);
        assert(operands.push(v).drop_first() =~= operands.drop_first().push(v));
        lemma_operands_bytes_push(operands.drop_first(), v, width);
        assert(operands_bytes(operands.push(v), width) =~= operands_bytes(operands, width)
            + operand_bytes(v, width));
    }
}

/// Appends the encoding of one instruction: width prefix when needed, the
/// opcode byte, then every operand at the chosen width.
pub fn encode_instruction(op: BytecodeOpcode, operands: &Vec<u32>, out: &mut Vec<u8>)
    ensures
        final (out)@ == old(out)@ + instruction_bytes(op, operands@),
{
    // pick the smallest width every operand fits
    let mut all_byte = true;
    let mut all_word = true;
    let mut i: usize = 0;
    while i < operands.len()
        invariant
            i <= operands@.len(),
            all_byte == (forall|k: int| 0 <= k < i ==> (#[trigger] operands@[k]) < 256),
            all_word == (forall|k: int| 0 <= k < i ==> (#[trigger] operands@[k]) < 65536),
        decreases operands@.len() - i,
    {
        if operands[i] >= 256 {
            all_byte = false;
        }
        if operands[i] >= 65536 {
            all_word = false;
        }
        i = i + 1;
    }
    let width: usize = if all_byte {
        1
    } else if all_word {
        2
    } else {
        4
    };
    proof {
        assert(width == width_of(operands@));
    }
    if width == 2 {
        out.push(WIDE_PREFIX);
    } else if width == 4 {
        out.push(EXTRAWIDE_PREFIX);
    }
    out.push(op.num());
    let ghost mid = out@;
    let mut j: usize = 0;
    proof {
        assert(operands@.subrange(0, 0) =~= Seq::<u32>::empty());
        assert(out@ =~= mid + operands_bytes(operands@.subrange(0, 0), width as int));
    }
    while j < operands.len()
        invariant
            j <= operands@.len(),
            width == width_of(operands@),
            width == 1 || width == 2 || width == 4,
            width == 1 ==> forall|k: int| 0 <= k < operands@.len() ==> (#[trigger] operands@[k])
                < 256,
            width == 2 ==> forall|k: int| 0 <= k < operands@.len() ==> (#[trigger] operands@[k])
                < 65536,
            out@ == mid + operands_bytes(operands@.subrange(0, j as int), width as int),
        decreases operands@.len() - j,
    {
        let v = operands[j];
        let ghost before = out@;
        if width == 1 {
            out.push((v % 256) as u8);
        } else if width == 2 {
            out.push((v % 256) as u8);
            out.push(((v / 256) % 256) as u8);
        } else {
            out.push((v % 256) as u8);
            out.push(((v / 256) % 256) as u8);
            out.push(((v / 65536) % 256) as u8);
            out.push(((v / 16777216) % 256) as u8);
        }
        j = j + 1;
        proof {
            assert(out@ =~= before + operand_bytes(v, width as int));
            lemma_operands_bytes_push(operands@.subrange(0, j as int - 1), v, width as int);
            assert(operands@.subrange(0, j as int) =~= operands@.subrange(0, j as int - 1).push(
                v,
            ));
            assert(out@ =~= mid + operands_bytes(operands@.subrange(0, j as int), width as int));
        }
    }
    proof {
        assert(operands@.subrange(0, operands@.len() as int) =~= operands@);
        assert(final (out)@ =~= old(out)@ + instruction_bytes(op, operands@));
    }
}

/// Decodes the instruction at `pos`, returning it and the position after
/// it; `None` on malformed or truncated input.
pub fn decode_instruction(bytes: &Vec<u8>, pos: usize) -> (r: Option<(Instruction, usize)>)
    ensures
        r is Some <==> decode_spec(bytes@, pos as int) is Some,
        r matches Some((inst, next)) ==> (decode_spec(bytes@, pos as int) matches Some(d)
            && inst.op == d.0 && inst.operands@ == d.1 && next as int == d.2 && inst.wf()),
{
    if pos >= bytes.len() {
        return None;
    }
    let b0 = bytes[pos];
    let (width, oppos): (usize, usize) = if b0 == WIDE_PREFIX {
        (2, pos + 1)
    } else if b0 == EXTRAWIDE_PREFIX {
        (4, pos + 1)
    } else {
        (1, pos)
    };
    if oppos >= bytes.len() {
        return None;
    }
    let op = match opcode_of(bytes[oppos]) {
        Some(op) => op,
        None => {
            return None;
        },
    };
    let arity = op.arity();
    if arity > (bytes.len() - oppos - 1) / width {
        proof {
            assert(op.arity_spec() * width > bytes@.len() - oppos - 1) by (nonlinear_arith)
                requires
                    op.arity_spec() > (bytes@.len() - oppos - 1) / (width as int),
                    width == 1 || width == 2 || width == 4,
                    0 <= op.arity_spec(),
                    oppos + 1 <= bytes@.len(),
            ;
        }
        return None;
    }
    proof {
        assert(op.arity_spec() * width <= bytes@.len() - oppos - 1) by (nonlinear_arith)
            requires
                op.arity_spec() <= (bytes@.len() - oppos - 1) / (width as int),
                width == 1 || width == 2 || width == 4,
                0 <= op.arity_spec(),
                oppos + 1 <= bytes@.len(),
        ;
    }
    let mut operands: Vec<u32> = Vec::new();
    let mut k: usize = 0;
    let mut cur = oppos + 1;
    let blen = bytes.len();
    while k < arity
        invariant
            arity == op.arity_spec(),
            width == 1 || width == 2 || width == 4,
            k <= arity,
            cur == oppos + 1 + k * width,
            blen == bytes@.len(),
            oppos + 1 + arity * width <= blen,
            operands@.len() == k,
            operands@ =~= read_operands(bytes@, oppos + 1, k as int, width as int),
        decreases arity - k,
    {
        proof {
            assert((k + 1) * width == k * width + width) by (nonlinear_arith);
            assert(k * width <= arity * width) by (nonlinear_arith)
                requires
                    k < arity,
                    0 < width,
            ;
            assert((k + 1) * width <= arity * width) by (nonlinear_arith)
                requires
                    k + 1 <= arity,
                    0 < width,
            ;
            assert(oppos + 1 + (k + 1) * width <= blen);
            assert(cur + width <= blen);
        }
        let v: u32 = if width == 1 {
            bytes[cur] as u32
        } else if width == 2 {
            bytes[cur] as u32 + 256 * (bytes[cur + 1] as u32)
        } else {
            bytes[cur] as u32 + 256 * (bytes[cur + 1] as u32) + 65536 * (bytes[cur + 2] as u32)
                + 16777216 * (bytes[cur + 3] as u32)
        };
        operands.push(v);
        k = k + 1;
        cur = cur + width;
        proof {
            lemma_read_operands_push(bytes@, oppos + 1, k as int, width as int);
        }
    }
    Some((Instruction { op, operands }, cur))
}

/// Reading one more operand extends the list at the end.
proof fn lemma_read_operands_push(bytes: Seq<u8>, pos: int, n: int, width: int)
    requires
        n >= 1,
    ensures
        read_operands(bytes, pos, n, width) == read_operands(bytes, pos, n - 1, width).push(
            read_operand(bytes, pos + (n - 1) * width, width),
        ),
    decreases n,
{
    if n == 1 {
        reveal_with_fuel(read_operands, 3);
        assert(read_operands(bytes, pos, 1, width) =~= read_operands(bytes, pos, 0, width).push(
            read_operand(bytes, pos, width),
        ));
    } else {
        lemma_read_operands_push(bytes, pos + width, n - 1, width);
        assert((n - 1) * width == (n - 2) * width + width) by (nonlinear_arith);
        assert(read_operands(bytes, pos, n, width) =~= read_operands(bytes, pos, n - 1, width).push(
            read_operand(bytes, pos + (n - 1) * width, width),
        ));
    }
}

/// One encoded function: the instruction bytes, the register types, the
/// constant pool, the source locations per offset and the argument count.
/// Only the instructions are byte-encoded; pool and locations are carried
/// as they are, so decoding the code bytes recovers the whole function.
#[derive(Clone, Debug)]
pub struct BytecodeFunction {
    pub code: Vec<u8>,
    pub registers: Vec<BytecodeType>,
    pub const_pool: Vec<ConstPoolEntry>,
    pub locations: Vec<(u32, u32)>,
    pub arguments: u32,
}

impl BytecodeFunction {
    pub fn code(&self) -> (r: &Vec<u8>)
        ensures
            r@ == self.code@,
    {
        &self.code
    }

    pub fn arguments(&self) -> (r: u32)
        ensures
            r == self.arguments,
    {
        self.arguments
    }

    /// The constant-pool entry at `idx`; total over all indices below the
    /// pool's length.
    pub fn const_pool(&self, idx: ConstPoolIdx) -> (r: &ConstPoolEntry)
        requires
            (idx.0 as int) < self.const_pool@.len(),
        ensures
            *r == self.const_pool@[idx.0 as int],
    {
        &self.const_pool[idx.0 as usize]
    }
}

/// The whole buffer decoded with each instruction's byte offset recorded.
pub open spec fn decode_items(bytes: Seq<u8>, pos: int, fuel: nat) -> Option<
    Seq<(BytecodeOpcode, Seq<u32>, int)>,
>
    decreases fuel,
{
    if pos == bytes.len() {
        Some(Seq::<(BytecodeOpcode, Seq<u32>, int)>::empty())
    } else if fuel == 0 {
        None
    } else {
        match decode_spec(bytes, pos) {
            Some((op, operands, next)) => match decode_items(bytes, next, (fuel - 1) as nat) {
                Some(rest) => Some(seq![(op, operands, pos)] + rest),
                None => None,
            },
            None => None,
        }
    }
}

/// A decoded instruction always moves the cursor forward and stays inside
/// the buffer.
pub proof fn lemma_decode_progress(bytes: Seq<u8>, pos: int)
    requires
        decode_spec(bytes, pos) is Some,
    ensures
        pos < (decode_spec(bytes, pos)->0).2 <= bytes.len(),
{
    let b0 = bytes[pos];
    let width: int = if b0 == WIDE_PREFIX {
        2
    } else if b0 == EXTRAWIDE_PREFIX {
        4
    } else {
        1
    };
    let oppos: int = if width == 1 {
        pos
    } else {
        pos + 1
    };
    let op = opcode_of_spec(bytes[oppos])->0;
    assert(op.arity_spec() * width >= 0) by (nonlinear_arith)
        requires
            op.arity_spec() >= 0,
            width >= 1,
    ;
}

} // verus!
