use vstd::prelude::*;

use crate::bytecode::{
    decode_spec, instruction_bytes, BytecodeFunction, BytecodeOpcode, ConstPoolEntry, Instruction,
};
use crate::bty::{BytecodeType, BytecodeTypeKind};
use crate::utils::{dec_str, dec_str_signed, push_char, push_dec, push_dec64, push_dec_signed, push_str};

verus! {

/// The mnemonic of each opcode, as the dump prints it.
pub open spec fn opcode_name(op: BytecodeOpcode) -> Seq<char> {
    match op {
        BytecodeOpcode::Add => "Add"@,
        BytecodeOpcode::Sub => "Sub"@,
        BytecodeOpcode::Mul => "Mul"@,
        BytecodeOpcode::Div => "Div"@,
        BytecodeOpcode::Mod => "Mod"@,
        BytecodeOpcode::Neg => "Neg"@,
        BytecodeOpcode::And => "And"@,
        BytecodeOpcode::Or => "Or"@,
        BytecodeOpcode::Xor => "Xor"@,
        BytecodeOpcode::Not => "Not"@,
        BytecodeOpcode::Shl => "Shl"@,
        BytecodeOpcode::Shr => "Shr"@,
        BytecodeOpcode::Sar => "Sar"@,
        BytecodeOpcode::Mov => "Mov"@,
        BytecodeOpcode::ConstTrue => "ConstTrue"@,
        BytecodeOpcode::ConstFalse => "ConstFalse"@,
        BytecodeOpcode::ConstZeroUInt8 => "ConstZeroUInt8"@,
        BytecodeOpcode::ConstZeroChar => "ConstZeroChar"@,
        BytecodeOpcode::ConstZeroInt32 => "ConstZeroInt32"@,
        BytecodeOpcode::ConstZeroInt64 => "ConstZeroInt64"@,
        BytecodeOpcode::ConstChar => "ConstChar"@,
        BytecodeOpcode::ConstInt32 => "ConstInt32"@,
        BytecodeOpcode::ConstInt64 => "ConstInt64"@,
        BytecodeOpcode::ConstString => "ConstString"@,
        BytecodeOpcode::ConstUInt8 => "ConstUInt8"@,
        BytecodeOpcode::TestEq => "TestEq"@,
        BytecodeOpcode::TestNe => "TestNe"@,
        BytecodeOpcode::TestGt => "TestGt"@,
        BytecodeOpcode::TestGe => "TestGe"@,
        BytecodeOpcode::TestLt => "TestLt"@,
        BytecodeOpcode::TestLe => "TestLe"@,
        BytecodeOpcode::TestIdentity => "TestIdentity"@,
        BytecodeOpcode::JumpIfFalse => "JumpIfFalse"@,
        BytecodeOpcode::JumpIfTrue => "JumpIfTrue"@,
        BytecodeOpcode::Jump => "Jump"@,
        BytecodeOpcode::JumpLoop => "JumpLoop"@,
        BytecodeOpcode::LoopStart => "LoopStart"@,
        BytecodeOpcode::JumpIfFalseConst => "JumpIfFalseConst"@,
        BytecodeOpcode::JumpIfTrueConst => "JumpIfTrueConst"@,
        BytecodeOpcode::JumpConst => "JumpConst"@,
        BytecodeOpcode::LoadField => "LoadField"@,
        BytecodeOpcode::StoreField => "StoreField"@,
        BytecodeOpcode::LoadStructField => "LoadStructField"@,
        BytecodeOpcode::LoadTupleElement => "LoadTupleElement"@,
        BytecodeOpcode::LoadEnumElement => "LoadEnumElement"@,
        BytecodeOpcode::LoadEnumVariant => "LoadEnumVariant"@,
        BytecodeOpcode::LoadGlobal => "LoadGlobal"@,
        BytecodeOpcode::StoreGlobal => "StoreGlobal"@,
        BytecodeOpcode::LoadArray => "LoadArray"@,
        BytecodeOpcode::StoreArray => "StoreArray"@,
        BytecodeOpcode::ArrayLength => "ArrayLength"@,
        BytecodeOpcode::NewArray => "NewArray"@,
        BytecodeOpcode::NewObject => "NewObject"@,
        BytecodeOpcode::NewObjectInitialized => "NewObjectInitialized"@,
        BytecodeOpcode::NewTuple => "NewTuple"@,
        BytecodeOpcode::NewEnum => "NewEnum"@,
        BytecodeOpcode::NewStruct => "NewStruct"@,
        BytecodeOpcode::NewLambda => "NewLambda"@,
        BytecodeOpcode::NewTraitObject => "NewTraitObject"@,
        BytecodeOpcode::PushRegister => "PushRegister"@,
        BytecodeOpcode::InvokeDirect => "InvokeDirect"@,
        BytecodeOpcode::InvokeStatic => "InvokeStatic"@,
        BytecodeOpcode::InvokeVirtual => "InvokeVirtual"@,
        BytecodeOpcode::InvokeLambda => "InvokeLambda"@,
        BytecodeOpcode::InvokeGenericStatic => "InvokeGenericStatic"@,
        BytecodeOpcode::InvokeGenericDirect => "InvokeGenericDirect"@,
        BytecodeOpcode::Ret => "Ret"@,
        BytecodeOpcode::LoadTraitObjectValue => "LoadTraitObjectValue"@,
    }
}

fn opcode_name_str(op: BytecodeOpcode) -> (r: &'static str)
    ensures
        r@ == opcode_name(op),
{
    match op {
        BytecodeOpcode::Add => "Add",
        BytecodeOpcode::Sub => "Sub",
        BytecodeOpcode::Mul => "Mul",
        BytecodeOpcode::Div => "Div",
        BytecodeOpcode::Mod => "Mod",
        BytecodeOpcode::Neg => "Neg",
        BytecodeOpcode::And => "And",
        BytecodeOpcode::Or => "Or",
        BytecodeOpcode::Xor => "Xor",
        BytecodeOpcode::Not => "Not",
        BytecodeOpcode::Shl => "Shl",
        BytecodeOpcode::Shr => "Shr",
        BytecodeOpcode::Sar => "Sar",
        BytecodeOpcode::Mov => "Mov",
        BytecodeOpcode::ConstTrue => "ConstTrue",
        BytecodeOpcode::ConstFalse => "ConstFalse",
        BytecodeOpcode::ConstZeroUInt8 => "ConstZeroUInt8",
        BytecodeOpcode::ConstZeroChar => "ConstZeroChar",
        BytecodeOpcode::ConstZeroInt32 => "ConstZeroInt32",
        BytecodeOpcode::ConstZeroInt64 => "ConstZeroInt64",
        BytecodeOpcode::ConstChar => "ConstChar",
        BytecodeOpcode::ConstInt32 => "ConstInt32",
        BytecodeOpcode::ConstInt64 => "ConstInt64",
        BytecodeOpcode::ConstString => "ConstString",
        BytecodeOpcode::ConstUInt8 => "ConstUInt8",
        BytecodeOpcode::TestEq => "TestEq",
        BytecodeOpcode::TestNe => "TestNe",
        BytecodeOpcode::TestGt => "TestGt",
        BytecodeOpcode::TestGe => "TestGe",
        BytecodeOpcode::TestLt => "TestLt",
        BytecodeOpcode::TestLe => "TestLe",
        BytecodeOpcode::TestIdentity => "TestIdentity",
        BytecodeOpcode::JumpIfFalse => "JumpIfFalse",
        BytecodeOpcode::JumpIfTrue => "JumpIfTrue",
        BytecodeOpcode::Jump => "Jump",
        BytecodeOpcode::JumpLoop => "JumpLoop",
        BytecodeOpcode::LoopStart => "LoopStart",
        BytecodeOpcode::JumpIfFalseConst => "JumpIfFalseConst",
        BytecodeOpcode::JumpIfTrueConst => "JumpIfTrueConst",
        BytecodeOpcode::JumpConst => "JumpConst",
        BytecodeOpcode::LoadField => "LoadField",
        BytecodeOpcode::StoreField => "StoreField",
        BytecodeOpcode::LoadStructField => "LoadStructField",
        BytecodeOpcode::LoadTupleElement => "LoadTupleElement",
        BytecodeOpcode::LoadEnumElement => "LoadEnumElement",
        BytecodeOpcode::LoadEnumVariant => "LoadEnumVariant",
        BytecodeOpcode::LoadGlobal => "LoadGlobal",
        BytecodeOpcode::StoreGlobal => "StoreGlobal",
        BytecodeOpcode::LoadArray => "LoadArray",
        BytecodeOpcode::StoreArray => "StoreArray",
        BytecodeOpcode::ArrayLength => "ArrayLength",
        BytecodeOpcode::NewArray => "NewArray",
        BytecodeOpcode::NewObject => "NewObject",
        BytecodeOpcode::NewObjectInitialized => "NewObjectInitialized",
        BytecodeOpcode::NewTuple => "NewTuple",
        BytecodeOpcode::NewEnum => "NewEnum",
        BytecodeOpcode::NewStruct => "NewStruct",
        BytecodeOpcode::NewLambda => "NewLambda",
        BytecodeOpcode::NewTraitObject => "NewTraitObject",
        BytecodeOpcode::PushRegister => "PushRegister",
        BytecodeOpcode::InvokeDirect => "InvokeDirect",
        BytecodeOpcode::InvokeStatic => "InvokeStatic",
        BytecodeOpcode::InvokeVirtual => "InvokeVirtual",
        BytecodeOpcode::InvokeLambda => "InvokeLambda",
        BytecodeOpcode::InvokeGenericStatic => "InvokeGenericStatic",
        BytecodeOpcode::InvokeGenericDirect => "InvokeGenericDirect",
        BytecodeOpcode::Ret => "Ret",
        BytecodeOpcode::LoadTraitObjectValue => "LoadTraitObjectValue",
    }
}

/// The printed name of a type's kind.
pub open spec fn kind_name(k: BytecodeTypeKind) -> Seq<char> {
    match k {
        BytecodeTypeKind::Unit => "Unit"@,
        BytecodeTypeKind::Bool => "Bool"@,
        BytecodeTypeKind::UInt8 => "UInt8"@,
        BytecodeTypeKind::Char => "Char"@,
        BytecodeTypeKind::Int32 => "Int32"@,
        BytecodeTypeKind::Int64 => "Int64"@,
        BytecodeTypeKind::Float32 => "Float32"@,
        BytecodeTypeKind::Float64 => "Float64"@,
        BytecodeTypeKind::Ptr => "Ptr"@,
        BytecodeTypeKind::Tuple => "Tuple"@,
        BytecodeTypeKind::TypeParam => "TypeParam"@,
        BytecodeTypeKind::Enum => "Enum"@,
        BytecodeTypeKind::Struct => "Struct"@,
        BytecodeTypeKind::Class => "Class"@,
        BytecodeTypeKind::Trait => "Trait"@,
        BytecodeTypeKind::Lambda => "Lambda"@,
    }
}

fn kind_name_str(k: BytecodeTypeKind) -> (r: &'static str)
    ensures
        r@ == kind_name(k),
{
    match k {
        BytecodeTypeKind::Unit => "Unit",
        BytecodeTypeKind::Bool => "Bool",
        BytecodeTypeKind::UInt8 => "UInt8",
        BytecodeTypeKind::Char => "Char",
        BytecodeTypeKind::Int32 => "Int32",
        BytecodeTypeKind::Int64 => "Int64",
        BytecodeTypeKind::Float32 => "Float32",
        BytecodeTypeKind::Float64 => "Float64",
        BytecodeTypeKind::Ptr => "Ptr",
        BytecodeTypeKind::Tuple => "Tuple",
        BytecodeTypeKind::TypeParam => "TypeParam",
        BytecodeTypeKind::Enum => "Enum",
        BytecodeTypeKind::Struct => "Struct",
        BytecodeTypeKind::Class => "Class",
        BytecodeTypeKind::Trait => "Trait",
        BytecodeTypeKind::Lambda => "Lambda",
    }
}

/// A byte offset, right-aligned to three columns as the dump prints it.
pub open spec fn pad3(n: nat) -> Seq<char> {
    if n < 10 {
        seq![' ', ' '] + dec_str(n)
    } else if n < 100 {
        seq![' '] + dec_str(n)
    } else {
        dec_str(n)
    }
}

fn push_pad3(s: &mut String, n: u32)
    ensures
        final (s)@ == old(s)@ + pad3(n as nat),
{
    if n < 10 {
        push_char(s, ' ');
        push_char(s, ' ');
    } else if n < 100 {
        push_char(s, ' ');
    }
    push_dec(s, n);
    assert(s@ =~= old(s)@ + pad3(n as nat));
}

/// The operand list of one instruction line: a space before the first
/// operand, a comma between the others.
pub open spec fn operands_text(operands: Seq<u32>) -> Seq<char>
    decreases operands,
{
    if operands.len() == 0 {
        Seq::<char>::empty()
    } else {
        operands_text(operands.drop_last()) + (if operands.len() == 1 {
            seq![' ']
        } else {
            seq![',', ' ']
        }) + dec_str(operands.last() as nat)
    }
}

fn push_operands(s: &mut String, operands: &Vec<u32>)
    ensures
        final (s)@ == old(s)@ + operands_text(operands@),
{
    let mut i: usize = 0;
    proof {
        assert(operands@.subrange(0, 0) =~= Seq::<u32>::empty());
        assert(s@ =~= old(s)@ + operands_text(operands@.subrange(0, 0)));
    }
    while i < operands.len()
        invariant
            i <= operands@.len(),
            s@ == old(s)@ + operands_text(operands@.subrange(0, i as int)),
        decreases operands@.len() - i,
    {
        if i == 0 {
            push_char(s, ' ');
        } else {
            push_char(s, ',');
            push_char(s, ' ');
        }
        push_dec(s, operands[i]);
        i = i + 1;
        proof {
            assert(operands@.subrange(0, i as int).drop_last() =~= operands@.subrange(
                0,
                i as int - 1,
            ));
            assert(operands@.subrange(0, i as int).last() == operands@[i as int - 1]);
            assert(s@ =~= old(s)@ + operands_text(operands@.subrange(0, i as int)));
        }
    }
    proof {
        assert(operands@.subrange(0, operands@.len() as int) =~= operands@);
    }
}

/// One instruction line: padded offset, mnemonic and operands.
pub open spec fn instruction_line(pos: nat, op: BytecodeOpcode, operands: Seq<u32>) -> Seq<char> {
    pad3(pos) + ": "@ + opcode_name(op) + operands_text(operands) + "\n"@
}

/// The instruction lines of a decoded stream, each at its byte offset.
pub open spec fn insts_text(items: Seq<(BytecodeOpcode, Seq<u32>, int)>) -> Seq<char>
    decreases items,
{
    if items.len() == 0 {
        Seq::<char>::empty()
    } else {
        insts_text(items.drop_last()) + instruction_line(
            items.last().2 as nat,
            items.last().0,
            items.last().1,
        )
    }
}

/// The register section: one `idx => kind` line per register.
pub open spec fn registers_text(regs: Seq<BytecodeType>) -> Seq<char>
    decreases regs,
{
    if regs.len() == 0 {
        Seq::<char>::empty()
    } else {
        registers_text(regs.drop_last()) + "   "@ + dec_str((regs.len() - 1) as nat) + " => "@
            + kind_name(regs.last().kind_spec()) + "\n"@
    }
}

/// The printed form of one constant-pool entry: its kind and its value, or
/// the ids it names.
pub open spec fn entry_text(entry: ConstPoolEntry) -> Seq<char> {
    match entry {
        ConstPoolEntry::String(v) => "String \""@ + v@ + "\""@,
        ConstPoolEntry::Int32(v) => "Int32 "@ + dec_str_signed(v as int),
        ConstPoolEntry::Int64(v) => "Int64 "@ + dec_str_signed(v as int),
        ConstPoolEntry::Float32Bits(b) => "Float32Bits "@ + dec_str(b as nat),
        ConstPoolEntry::Float64Bits(b) => "Float64Bits "@ + dec_str(b as nat),
        ConstPoolEntry::Char(c) => "Char "@ + seq![c],
        ConstPoolEntry::Class(id, _) => "Class("@ + dec_str(id.0 as nat) + ")"@,
        ConstPoolEntry::Struct(id, _) => "Struct("@ + dec_str(id.0 as nat) + ")"@,
        ConstPoolEntry::StructField(id, _, f) => "StructField("@ + dec_str(id.0 as nat) + "."@
            + dec_str(f as nat) + ")"@,
        ConstPoolEntry::Enum(id, _) => "Enum("@ + dec_str(id.0 as nat) + ")"@,
        ConstPoolEntry::EnumVariant(id, _, v) => "EnumVariant("@ + dec_str(id.0 as nat) + "."@
            + dec_str(v as nat) + ")"@,
        ConstPoolEntry::EnumElement(id, _, v, e) => "EnumElement("@ + dec_str(id.0 as nat) + "."@
            + dec_str(v as nat) + "."@ + dec_str(e as nat) + ")"@,
        ConstPoolEntry::Field(id, _, f) => "Field("@ + dec_str(id.0 as nat) + "."@ + dec_str(
            f as nat,
        ) + ")"@,
        ConstPoolEntry::Fct(id, _) => "Fct("@ + dec_str(id.0 as nat) + ")"@,
        ConstPoolEntry::Generic(tp, id, _) => "Generic("@ + dec_str(tp as nat) + ", "@ + dec_str(
            id.0 as nat,
        ) + ")"@,
        ConstPoolEntry::Trait(id, _, _) => "Trait("@ + dec_str(id.0 as nat) + ")"@,
        ConstPoolEntry::Tuple(_) => "Tuple"@,
        ConstPoolEntry::TupleElement(_, i) => "TupleElement "@ + dec_str(i as nat),
        ConstPoolEntry::Lambda(_, _) => "Lambda"@,
    }
}

/// The constant section: one `idx => entry` line per pool entry.
pub open spec fn constants_text(pool: Seq<ConstPoolEntry>) -> Seq<char>
    decreases pool,
{
    if pool.len() == 0 {
        Seq::<char>::empty()
    } else {
        constants_text(pool.drop_last()) + "   "@ + dec_str((pool.len() - 1) as nat) + " => "@
            + entry_text(pool.last()) + "\n"@
    }
}

/// The location section: one `offset => line` entry each.
pub open spec fn locations_text(locs: Seq<(u32, u32)>) -> Seq<char>
    decreases locs,
{
    if locs.len() == 0 {
        Seq::<char>::empty()
    } else {
        locations_text(locs.drop_last()) + "   "@ + dec_str(locs.last().0 as nat) + " => "@
            + dec_str(locs.last().1 as nat) + "\n"@
    }
}

/// The whole dump: the instruction lines, then the register, constant and
/// location sections.
pub open spec fn dump_text(
    items: Seq<(BytecodeOpcode, Seq<u32>, int)>,
    regs: Seq<BytecodeType>,
    pool: Seq<ConstPoolEntry>,
    locs: Seq<(u32, u32)>,
) -> Seq<char> {
    insts_text(items) + "\n  Registers:\n"@ + registers_text(regs) + "\n  Constants:\n"@
        + constants_text(pool) + "\n  Locations:\n"@ + locations_text(locs)
}

/// Builds the textual dump of one encoded function: its decoded
/// instructions at their byte offsets, then the register, constant and
/// location sections. `None` when the code bytes are malformed.
pub fn dump_function(bc: &BytecodeFunction) -> (r: Option<String>)
    requires
        bc.code@.len() <= 0xffff_ffff,
    ensures
        r is Some <==> crate::bytecode::decode_items(bc.code@, 0, bc.code@.len() + 1) is Some,
        r matches Some(s) ==> (crate::bytecode::decode_items(bc.code@, 0, bc.code@.len() + 1)
            matches Some(items) && s@ == dump_text(
            items,
            bc.registers@,
            bc.const_pool@,
            bc.locations@,
        )),
{
    let n = bc.code.len();
    let ghost fuel: nat = (n + 1) as nat;
    let mut insts: Vec<Instruction> = Vec::new();
    let mut posns: Vec<u32> = Vec::new();
    let ghost mut gitems: Seq<(BytecodeOpcode, Seq<u32>, int)> = Seq::empty();
    let mut pos: usize = 0;
    let mut steps: usize = 0;
    proof {
        assert(gitems + crate::bytecode::decode_items(bc.code@, 0, fuel)->0 =~= crate::bytecode::decode_items(
            bc.code@,
            0,
            fuel,
        )->0);
    }
    while pos < n
        invariant
            n == bc.code@.len(),
            n <= 0xffff_ffff,
            pos <= n,
            steps <= pos,
            insts@.len() == gitems.len(),
            posns@.len() == gitems.len(),
            forall|k: int|
                0 <= k < gitems.len() ==> #[trigger] gitems[k] == (
                    insts@[k].op,
                    insts@[k].operands@,
                    posns@[k] as int,
                ),
            (crate::bytecode::decode_items(bc.code@, pos as int, (fuel - steps) as nat) matches Some(
                rest,
            ) ==> crate::bytecode::decode_items(bc.code@, 0, fuel) == Some(gitems + rest)),
            (crate::bytecode::decode_items(bc.code@, pos as int, (fuel - steps) as nat) is None
                ==> crate::bytecode::decode_items(bc.code@, 0, fuel) is None),
            fuel == n + 1,
        decreases n - pos,
    {
        let decoded = crate::bytecode::decode_instruction(&bc.code, pos);
        match decoded {
            Some((inst, next)) => {
                proof {
                    crate::bytecode::lemma_decode_progress(bc.code@, pos as int);
                }
                let ghost trip = (inst.op, inst.operands@, pos as int);
                proof {
                    let f = (fuel - steps) as nat;
                    assert(f >= 1);
                    assert(crate::bytecode::decode_items(bc.code@, pos as int, f) == (
                    match crate::bytecode::decode_items(bc.code@, next as int, (f - 1) as nat) {
                        Some(rest) => Some(seq![trip] + rest),
                        None => None,
                    }));
                    if crate::bytecode::decode_items(bc.code@, next as int, (f - 1) as nat)
                        is Some {
                        let rest = crate::bytecode::decode_items(
                            bc.code@,
                            next as int,
                            (f - 1) as nat,
                        )->0;
                        assert(gitems + (seq![trip] + rest) =~= gitems.push(trip) + rest);
                    }
                }
                insts.push(inst);
                posns.push(pos as u32);
                proof {
                    gitems = gitems.push(trip);
                }
                pos = next;
                steps = steps + 1;
            },
            None => {
                proof {
                    assert(crate::bytecode::decode_items(
                        bc.code@,
                        pos as int,
                        (fuel - steps) as nat,
                    ) is None);
                }
                return None;
            },
        }
    }
    proof {
        assert(crate::bytecode::decode_items(bc.code@, pos as int, (fuel - steps) as nat) == Some(
            Seq::<(BytecodeOpcode, Seq<u32>, int)>::empty(),
        ));
        assert(gitems + Seq::<(BytecodeOpcode, Seq<u32>, int)>::empty() =~= gitems);
        assert(crate::bytecode::decode_items(bc.code@, 0, fuel) == Some(gitems));
    }
    // the instruction lines
    let mut s = String::new();
    let mut k: usize = 0;
    proof {
        assert(gitems.subrange(0, 0) =~= Seq::<(BytecodeOpcode, Seq<u32>, int)>::empty());
        assert(s@ =~= insts_text(gitems.subrange(0, 0)));
    }
    while k < insts.len()
        invariant
            insts@.len() == gitems.len(),
            posns@.len() == gitems.len(),
            forall|m: int|
                0 <= m < gitems.len() ==> #[trigger] gitems[m] == (
                    insts@[m].op,
                    insts@[m].operands@,
                    posns@[m] as int,
                ),
            k <= insts@.len(),
            s@ == insts_text(gitems.subrange(0, k as int)),
        decreases insts@.len() - k,
    {
        push_pad3(&mut s, posns[k]);
        push_str(&mut s, ": ");
        push_str(&mut s, opcode_name_str(insts[k].op));
        push_operands(&mut s, &insts[k].operands);
        push_str(&mut s, "\n");
        k = k + 1;
        proof {
            assert(gitems.subrange(0, k as int).drop_last() =~= gitems.subrange(0, k as int - 1));
            assert(gitems.subrange(0, k as int).last() == gitems[k as int - 1]);
            assert(s@ =~= insts_text(gitems.subrange(0, k as int)));
        }
    }
    proof {
        assert(gitems.subrange(0, gitems.len() as int) =~= gitems);
    }
    // the register section
    push_str(&mut s, "\n  Registers:\n");
    let ghost after_insts = s@;
    let mut k: usize = 0;
    proof {
        assert(bc.registers@.subrange(0, 0) =~= Seq::<BytecodeType>::empty());
        assert(s@ =~= after_insts + registers_text(bc.registers@.subrange(0, 0)));
    }
    while k < bc.registers.len()
        invariant
            k <= bc.registers@.len(),
            s@ == after_insts + registers_text(bc.registers@.subrange(0, k as int)),
        decreases bc.registers@.len() - k,
    {
        push_str(&mut s, "   ");
        push_dec64(&mut s, k as u64);
        push_str(&mut s, " => ");
        push_str(&mut s, kind_name_str(bc.registers[k].kind()));
        push_str(&mut s, "\n");
        k = k + 1;
        proof {
            assert(bc.registers@.subrange(0, k as int).drop_last() =~= bc.registers@.subrange(
                0,
                k as int - 1,
            ));
            assert(bc.registers@.subrange(0, k as int).last() == bc.registers@[k as int - 1]);
            assert(s@ =~= after_insts + registers_text(bc.registers@.subrange(0, k as int)));
        }
    }
    proof {
        assert(bc.registers@.subrange(0, bc.registers@.len() as int) =~= bc.registers@);
    }
    // the constant section
    push_str(&mut s, "\n  Constants:\n");
    let ghost after_regs = s@;
    let mut k: usize = 0;
    proof {
        assert(bc.const_pool@.subrange(0, 0) =~= Seq::<ConstPoolEntry>::empty());
        assert(s@ =~= after_regs + constants_text(bc.const_pool@.subrange(0, 0)));
    }
    while k < bc.const_pool.len()
        invariant
            k <= bc.const_pool@.len(),
            s@ == after_regs + constants_text(bc.const_pool@.subrange(0, k as int)),
        decreases bc.const_pool@.len() - k,
    {
        push_str(&mut s, "   ");
        push_dec64(&mut s, k as u64);
        push_str(&mut s, " => ");
        push_entry(&mut s, &bc.const_pool[k]);
        push_str(&mut s, "\n");
        k = k + 1;
        proof {
            assert(bc.const_pool@.subrange(0, k as int).drop_last() =~= bc.const_pool@.subrange(
                0,
                k as int - 1,
            ));
            assert(bc.const_pool@.subrange(0, k as int).last() == bc.const_pool@[k as int - 1]);
            assert(s@ =~= after_regs + constants_text(bc.const_pool@.subrange(0, k as int)));
        }
    }
    proof {
        assert(bc.const_pool@.subrange(0, bc.const_pool@.len() as int) =~= bc.const_pool@);
    }
    // the location section
    push_str(&mut s, "\n  Locations:\n");
    let ghost after_pool = s@;
    let mut k: usize = 0;
    proof {
        assert(bc.locations@.subrange(0, 0) =~= Seq::<(u32, u32)>::empty());
        assert(s@ =~= after_pool + locations_text(bc.locations@.subrange(0, 0)));
    }
    while k < bc.locations.len()
        invariant
            k <= bc.locations@.len(),
            s@ == after_pool + locations_text(bc.locations@.subrange(0, k as int)),
        decreases bc.locations@.len() - k,
    {
        push_str(&mut s, "   ");
        push_dec(&mut s, bc.locations[k].0);
        push_str(&mut s, " => ");
        push_dec(&mut s, bc.locations[k].1);
        push_str(&mut s, "\n");
        k = k + 1;
        proof {
            assert(bc.locations@.subrange(0, k as int).drop_last() =~= bc.locations@.subrange(
                0,
                k as int - 1,
            ));
            assert(bc.locations@.subrange(0, k as int).last() == bc.locations@[k as int - 1]);
            assert(s@ =~= after_pool + locations_text(bc.locations@.subrange(0, k as int)));
        }
    }
    proof {
        assert(bc.locations@.subrange(0, bc.locations@.len() as int) =~= bc.locations@);
        assert(s@ =~= dump_text(gitems, bc.registers@, bc.const_pool@, bc.locations@));
    }
    Some(s)
}

/// Appends one constant-pool entry's printed form.
fn push_entry(s: &mut String, entry: &ConstPoolEntry)
    ensures
        final (s)@ == old(s)@ + entry_text(*entry),
{
    match entry {
        ConstPoolEntry::String(v) => {
            push_str(s, "String \"");
            push_str(s, v.as_str());
            push_str(s, "\"");
            proof {
                assert(s@ =~= old(s)@ + entry_text(*entry));
            }
        },
        ConstPoolEntry::Int32(v) => {
            push_str(s, "Int32 ");
            push_dec_signed(s, *v as i64);
            proof {
                assert(s@ =~= old(s)@ + entry_text(*entry));
            }
        },
        ConstPoolEntry::Int64(v) => {
            push_str(s, "Int64 ");
            push_dec_signed(s, *v);
            proof {
                assert(s@ =~= old(s)@ + entry_text(*entry));
            }
        },
        ConstPoolEntry::Float32Bits(b) => {
            push_str(s, "Float32Bits ");
            push_dec(s, *b);
            proof {
                assert(s@ =~= old(s)@ + entry_text(*entry));
            }
        },
        ConstPoolEntry::Float64Bits(b) => {
            push_str(s, "Float64Bits ");
            push_dec64(s, *b);
            proof {
                assert(s@ =~= old(s)@ + entry_text(*entry));
            }
        },
        ConstPoolEntry::Char(c) => {
            push_str(s, "Char ");
            push_char(s, *c);
            proof {
                assert(s@ =~= old(s)@ + entry_text(*entry));
            }
        },
        ConstPoolEntry::Class(id, _) => {
            push_str(s, "Class(");
            push_dec(s, id.0);
            push_str(s, ")");
            proof {
                assert(s@ =~= old(s)@ + entry_text(*entry));
            }
        },
        ConstPoolEntry::Struct(id, _) => {
            push_str(s, "Struct(");
            push_dec(s, id.0);
            push_str(s, ")");
            proof {
                assert(s@ =~= old(s)@ + entry_text(*entry));
            }
        },
        ConstPoolEntry::StructField(id, _, f) => {
            push_str(s, "StructField(");
            push_dec(s, id.0);
            push_str(s, ".");
            push_dec(s, *f);
            push_str(s, ")");
            proof {
                assert(s@ =~= old(s)@ + entry_text(*entry));
            }
        },
        ConstPoolEntry::Enum(id, _) => {
            push_str(s, "Enum(");
            push_dec(s, id.0);
            push_str(s, ")");
            proof {
                assert(s@ =~= old(s)@ + entry_text(*entry));
            }
        },
        ConstPoolEntry::EnumVariant(id, _, v) => {
            push_str(s, "EnumVariant(");
            push_dec(s, id.0);
            push_str(s, ".");
            push_dec(s, *v);
            push_str(s, ")");
            proof {
                assert(s@ =~= old(s)@ + entry_text(*entry));
            }
        },
        ConstPoolEntry::EnumElement(id, _, v, e) => {
            push_str(s, "EnumElement(");
            push_dec(s, id.0);
            push_str(s, ".");
            push_dec(s, *v);
            push_str(s, ".");
            push_dec(s, *e);
            push_str(s, ")");
            proof {
                assert(s@ =~= old(s)@ + entry_text(*entry));
            }
        },
        ConstPoolEntry::Field(id, _, f) => {
            push_str(s, "Field(");
            push_dec(s, id.0);
            push_str(s, ".");
            push_dec(s, *f);
            push_str(s, ")");
            proof {
                assert(s@ =~= old(s)@ + entry_text(*entry));
            }
        },
        ConstPoolEntry::Fct(id, _) => {
            push_str(s, "Fct(");
            push_dec(s, id.0);
            push_str(s, ")");
            proof {
                assert(s@ =~= old(s)@ + entry_text(*entry));
            }
        },
        ConstPoolEntry::Generic(tp, id, _) => {
            push_str(s, "Generic(");
            push_dec(s, *tp);
            push_str(s, ", ");
            push_dec(s, id.0);
            push_str(s, ")");
            proof {
                assert(s@ =~= old(s)@ + entry_text(*entry));
            }
        },
        ConstPoolEntry::Trait(id, _, _) => {
            push_str(s, "Trait(");
            push_dec(s, id.0);
            push_str(s, ")");
            proof {
                assert(s@ =~= old(s)@ + entry_text(*entry));
            }
        },
        ConstPoolEntry::Tuple(_) => {
            push_str(s, "Tuple");
            proof {
                assert(s@ =~= old(s)@ + entry_text(*entry));
            }
        },
        ConstPoolEntry::TupleElement(_, i) => {
            push_str(s, "TupleElement ");
            push_dec(s, *i);
            proof {
                assert(s@ =~= old(s)@ + entry_text(*entry));
            }
        },
        ConstPoolEntry::Lambda(_, _) => {
            push_str(s, "Lambda");
            proof {
                assert(s@ =~= old(s)@ + entry_text(*entry));
            }
        },
    }
}

} // verus!
