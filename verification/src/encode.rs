use vstd::prelude::*;

use crate::cpu::{FReg, Reg};
use crate::masm::{le32, CondCode, ForwardJump, Label, MacroAssembler};

verus! {

pub const VEXM_0F: u8 = 1;

pub const VEXM_0F38: u8 = 2;

pub const VEXM_0F3A: u8 = 3;

pub const VEXL_Z: u8 = 0;

pub const VEXL_128: u8 = 0;

pub const VEXL_256: u8 = 1;

pub const VEXP_NONE: u8 = 0;

pub const VEXP_66: u8 = 1;

pub const VEXP_F3: u8 = 2;

pub const VEXP_F2: u8 = 3;

pub fn emit_u64(buf: &mut MacroAssembler, val: u64)
    ensures
        MacroAssembler::emitted(*old(buf), *final (buf), crate::masm::le64(val)),
        old(buf).wf() ==> final (buf).wf(),
{
    buf.emit_u64(val)
}

pub fn emit_u32(buf: &mut MacroAssembler, val: u32)
    ensures
        MacroAssembler::emitted(*old(buf), *final (buf), le32(val)),
        old(buf).wf() ==> final (buf).wf(),
{
    buf.emit_u32(val)
}

pub fn emit_u8(buf: &mut MacroAssembler, val: u8)
    ensures
        MacroAssembler::emitted(*old(buf), *final (buf), seq![val]),
        old(buf).wf() ==> final (buf).wf(),
{
    buf.emit_u8(val)
}

pub fn emit_op(buf: &mut MacroAssembler, opcode: u8)
    ensures
        MacroAssembler::emitted(*old(buf), *final (buf), seq![opcode]),
        old(buf).wf() ==> final (buf).wf(),
{
    buf.emit_u8(opcode);
}

/// Second byte of a three-byte vex prefix: inverted r/x/b extension bits and
/// the opcode-map selector.
pub open spec fn vex3_rxbm_byte(r: u8, x: u8, b: u8, m: u8) -> u8 {
    !r << 7 | (!x << 6) & 0b1000000 | (!b << 5) & 0b100000 | m
}

pub fn emit_vex3_rxbm(buf: &mut MacroAssembler, r: u8, x: u8, b: u8, m: u8)
    requires
        r == 0 || r == 1,
        x == 0 || x == 1,
        b == 0 || b == 1,
        m > 1 && m < 4,
    ensures
        MacroAssembler::emitted(
            *old(buf),
            *final (buf),
            seq![0b11000100u8, vex3_rxbm_byte(r, x, b, m)],
        ),
        old(buf).wf() ==> final (buf).wf(),
{
    buf.emit_u8(0b11000100);
    buf.emit_u8(!r << 7 | (!x << 6) & 0b1000000 | (!b << 5) & 0b100000 | m);
    assert(final (buf).data@ =~= old(buf).data@ + seq![
        0b11000100u8,
        vex3_rxbm_byte(r, x, b, m),
    ]);
}

/// Third byte of a three-byte vex prefix: width bit, inverted extra operand,
/// vector length and mandatory-prefix selector.
pub open spec fn vex3_wvlp_byte(w: bool, v: u8, l: u8, p: u8) -> u8 {
    (w as u8) << 7 | (!v << 3) & 0b1111000 | l << 2 | p
}

pub fn emit_vex3_wvlp(buf: &mut MacroAssembler, w: bool, v: u8, l: u8, p: u8)
    requires
        v < 16,
        l == 0 || l == 1,
        p < 4,
    ensures
        MacroAssembler::emitted(*old(buf), *final (buf), seq![vex3_wvlp_byte(w, v, l, p)]),
        old(buf).wf() ==> final (buf).wf(),
{
    buf.emit_u8((w as u8) << 7 | (!v << 3) & 0b1111000 | l << 2 | p);
}

pub open spec fn vex2_byte(r: u8, v: u8, l: u8, p: u8) -> u8 {
    !r << 7 | (!v << 3) & 0b1111000 | l << 2 | p
}

pub fn emit_vex2(buf: &mut MacroAssembler, r: u8, v: u8, l: u8, p: u8)
    requires
        r == 0 || r == 1,
        v < 16,
        l == 0 || l == 1,
        p < 4,
    ensures
        MacroAssembler::emitted(*old(buf), *final (buf), seq![0b11000101u8, vex2_byte(r, v, l, p)]),
        old(buf).wf() ==> final (buf).wf(),
{
    buf.emit_u8(0b11000101);
    buf.emit_u8(!r << 7 | (!v << 3) & 0b1111000 | l << 2 | p);
    assert(final (buf).data@ =~= old(buf).data@ + seq![0b11000101u8, vex2_byte(r, v, l, p)]);
}

/// A rex prefix byte.
pub open spec fn rex_byte(w: bool, r: u8, x: u8, b: u8) -> u8 {
    0x40 | (w as u8) << 3 | r << 2 | x << 1 | b
}

pub fn emit_rex(buf: &mut MacroAssembler, w: bool, r: u8, x: u8, b: u8)
    requires
        r == 0 || r == 1,
        x == 0 || x == 1,
        b == 0 || b == 1,
    ensures
        MacroAssembler::emitted(*old(buf), *final (buf), seq![rex_byte(w, r, x, b)]),
        old(buf).wf() ==> final (buf).wf(),
{
    buf.emit_u8(0x40 | (w as u8) << 3 | r << 2 | x << 1 | b);
}

/// A modrm byte.
pub open spec fn modrm_byte(mode: u8, reg: u8, rm: u8) -> u8 {
    mode << 6 | reg << 3 | rm
}

pub fn emit_modrm(buf: &mut MacroAssembler, mode: u8, reg: u8, rm: u8)
    requires
        mode < 4,
        reg < 8,
        rm < 8,
    ensures
        MacroAssembler::emitted(*old(buf), *final (buf), seq![modrm_byte(mode, reg, rm)]),
        old(buf).wf() ==> final (buf).wf(),
{
    buf.emit_u8(mode << 6 | reg << 3 | rm);
}

/// A sib byte.
pub open spec fn sib_byte(scale: u8, index: u8, base: u8) -> u8 {
    scale << 6 | index << 3 | base
}

pub fn emit_sib(buf: &mut MacroAssembler, scale: u8, index: u8, base: u8)
    requires
        scale < 4,
        index < 8,
        base < 8,
    ensures
        MacroAssembler::emitted(*old(buf), *final (buf), seq![sib_byte(scale, index, base)]),
        old(buf).wf() ==> final (buf).wf(),
{
    buf.emit_u8(scale << 6 | index << 3 | base);
}

pub fn fits_i8(imm: i32) -> (r: bool)
    ensures
        r == (-128 <= imm <= 127),
{
    imm == (imm as i8) as i32
}

/// The long-form opcode byte (after 0x0f) of a conditional jump.
pub open spec fn jcc_opcode(cond: CondCode) -> u8 {
    match cond {
        CondCode::Zero | CondCode::Equal => 0x84,
        CondCode::NonZero | CondCode::NotEqual => 0x85,
        CondCode::Greater => 0x8F,
        CondCode::GreaterEq => 0x8D,
        CondCode::Less => 0x8C,
        CondCode::LessEq => 0x8E,
        CondCode::UnsignedGreater => 0x87,
        CondCode::UnsignedGreaterEq => 0x83,
        CondCode::UnsignedLess => 0x82,
        CondCode::UnsignedLessEq => 0x86,
    }
}

/// What emitting an instruction that ends in a four-byte label displacement
/// does to the assembler: the opcode bytes `prefix` are appended, then a
/// bound label gets its distance and an unbound one a placeholder plus a
/// recorded forward jump.
pub open spec fn jump_emitted(
    pre: MacroAssembler,
    post: MacroAssembler,
    prefix: Seq<u8>,
    lbl: Label,
) -> bool {
    &&& post.labels@ == pre.labels@
    &&& post.bailouts@ == pre.bailouts@
    &&& post.dseg@ == pre.dseg@
    &&& post.lazy_compilation_sites@ == pre.lazy_compilation_sites@
    &&& post.data@.len() == pre.data@.len() + prefix.len() + 4
    &&& (pre.labels@[lbl.0 as int] matches Some(t) ==> {
        &&& post.data@ == pre.data@ + prefix + MacroAssembler::jump_disp(
            pre.data@.len() + prefix.len() as int,
            t as int,
        )
        &&& post.jumps@ == pre.jumps@
    })
    &&& (pre.labels@[lbl.0 as int] is None ==> {
        &&& post.data@ == pre.data@ + prefix + le32(0)
        &&& post.jumps@ == pre.jumps@.push(
            ForwardJump { at: (pre.data@.len() + prefix.len()) as usize, to: lbl },
        )
    })
}

pub fn emit_jcc(buf: &mut MacroAssembler, cond: CondCode, lbl: Label)
    requires
        lbl.0 < old(buf).labels@.len(),
        old(buf).data@.len() + 6 <= 0xffff_ffff,
        old(buf).wf(),
    ensures
        final (buf).wf(),
        jump_emitted(*old(buf), *final (buf), seq![0x0fu8, jcc_opcode(cond)], lbl),
{
    let opcode: u8 = match cond {
        CondCode::Zero | CondCode::Equal => 0x84,
        CondCode::NonZero | CondCode::NotEqual => 0x85,
        CondCode::Greater => 0x8F,
        CondCode::GreaterEq => 0x8D,
        CondCode::Less => 0x8C,
        CondCode::LessEq => 0x8E,
        CondCode::UnsignedGreater => 0x87,  // above
        CondCode::UnsignedGreaterEq => 0x83,  // above or equal
        CondCode::UnsignedLess => 0x82,  // below
        CondCode::UnsignedLessEq => 0x86,  // below or equal
    };

    emit_op(buf, 0x0f);
    emit_op(buf, opcode);
    buf.emit_label(lbl);
    proof {
        assert(old(buf).data@ + seq![0x0fu8] + seq![jcc_opcode(cond)] =~= old(buf).data@ + seq![
            0x0fu8,
            jcc_opcode(cond),
        ]);
        lemma_jump_suffix(*old(buf), *final (buf), seq![0x0fu8, jcc_opcode(cond)], lbl);
    }
}

pub fn emit_jmp(buf: &mut MacroAssembler, lbl: Label)
    requires
        lbl.0 < old(buf).labels@.len(),
        old(buf).data@.len() + 5 <= 0xffff_ffff,
        old(buf).wf(),
    ensures
        final (buf).wf(),
        jump_emitted(*old(buf), *final (buf), seq![0xe9u8], lbl),
{
    emit_op(buf, 0xe9);
    buf.emit_label(lbl);
    proof {
        lemma_jump_suffix(*old(buf), *final (buf), seq![0xe9u8], lbl);
    }
}

/// Establishes `jump_emitted` from the state after the prefix bytes went out
/// and `emit_label` ran.
proof fn lemma_jump_suffix(pre: MacroAssembler, post: MacroAssembler, prefix: Seq<u8>, lbl: Label)
    requires
        lbl.0 < pre.labels@.len(),
        post.labels@ == pre.labels@,
        post.bailouts@ == pre.bailouts@,
        post.dseg@ == pre.dseg@,
        post.lazy_compilation_sites@ == pre.lazy_compilation_sites@,
        post.data@.len() == pre.data@.len() + prefix.len() + 4,
        pre.labels@[lbl.0 as int] matches Some(t) ==> {
            &&& post.data@ == (pre.data@ + prefix) + MacroAssembler::jump_disp(
                pre.data@.len() + prefix.len() as int,
                t as int,
            )
            &&& post.jumps@ == pre.jumps@
        },
        pre.labels@[lbl.0 as int] is None ==> {
            &&& post.data@ == (pre.data@ + prefix) + le32(0)
            &&& post.jumps@ == pre.jumps@.push(
                ForwardJump { at: (pre.data@.len() + prefix.len()) as usize, to: lbl },
            )
        },
    ensures
        jump_emitted(pre, post, prefix, lbl),
{
    if pre.labels@[lbl.0 as int] is Some {
        let t = pre.labels@[lbl.0 as int]->0;
        assert((pre.data@ + prefix) + MacroAssembler::jump_disp(
            pre.data@.len() + prefix.len() as int,
            t as int,
        ) =~= pre.data@ + prefix + MacroAssembler::jump_disp(
            pre.data@.len() + prefix.len() as int,
            t as int,
        ));
    } else {
        assert((pre.data@ + prefix) + le32(0) =~= pre.data@ + prefix + le32(0));
    }
}

pub fn emit_shlx(buf: &mut MacroAssembler, x64: bool, dest: Reg, lhs: Reg, rhs: Reg)
    requires
        dest.valid(),
        lhs.valid(),
        rhs.valid(),
    ensures
        MacroAssembler::emitted(
            *old(buf),
            *final (buf),
            seq![
                0b11000100u8,
                vex3_rxbm_byte(dest.0 / 8, 0, lhs.0 / 8, VEXM_0F38),
                vex3_wvlp_byte(x64, rhs.0, VEXL_Z, VEXP_66),
                0xF7u8,
                modrm_byte(0b11, dest.0 % 8, lhs.0 % 8),
            ],
        ),
        old(buf).wf() ==> final (buf).wf(),
{
    emit_vex3_rxbm(buf, dest.msb(), 0, lhs.msb(), VEXM_0F38);
    emit_vex3_wvlp(buf, x64, rhs.num(), VEXL_Z, VEXP_66);
    emit_u8(buf, 0xF7);
    emit_modrm(buf, 0b11, dest.and7(), lhs.and7());
    assert(final (buf).data@ =~= old(buf).data@ + seq![
        0b11000100u8,
        vex3_rxbm_byte(dest.0 / 8, 0, lhs.0 / 8, VEXM_0F38),
        vex3_wvlp_byte(x64, rhs.0, VEXL_Z, VEXP_66),
        0xF7u8,
        modrm_byte(0b11, dest.0 % 8, lhs.0 % 8),
    ]);
}

pub fn emit_shrx(buf: &mut MacroAssembler, x64: bool, dest: Reg, lhs: Reg, rhs: Reg)
    requires
        dest.valid(),
        lhs.valid(),
        rhs.valid(),
    ensures
        MacroAssembler::emitted(
            *old(buf),
            *final (buf),
            seq![
                0b11000100u8,
                vex3_rxbm_byte(dest.0 / 8, 0, lhs.0 / 8, VEXM_0F38),
                vex3_wvlp_byte(x64, rhs.0, VEXL_Z, VEXP_F2),
                0xF7u8,
                modrm_byte(0b11, dest.0 % 8, lhs.0 % 8),
            ],
        ),
        old(buf).wf() ==> final (buf).wf(),
{
    emit_vex3_rxbm(buf, dest.msb(), 0, lhs.msb(), VEXM_0F38);
    emit_vex3_wvlp(buf, x64, rhs.num(), VEXL_Z, VEXP_F2);
    emit_u8(buf, 0xF7);
    emit_modrm(buf, 0b11, dest.and7(), lhs.and7());
    assert(final (buf).data@ =~= old(buf).data@ + seq![
        0b11000100u8,
        vex3_rxbm_byte(dest.0 / 8, 0, lhs.0 / 8, VEXM_0F38),
        vex3_wvlp_byte(x64, rhs.0, VEXL_Z, VEXP_F2),
        0xF7u8,
        modrm_byte(0b11, dest.0 % 8, lhs.0 % 8),
    ]);
}

pub fn emit_sarx(buf: &mut MacroAssembler, x64: bool, dest: Reg, lhs: Reg, rhs: Reg)
    requires
        dest.valid(),
        lhs.valid(),
        rhs.valid(),
    ensures
        MacroAssembler::emitted(
            *old(buf),
            *final (buf),
            seq![
                0b11000100u8,
                vex3_rxbm_byte(dest.0 / 8, 0, lhs.0 / 8, VEXM_0F38),
                vex3_wvlp_byte(x64, rhs.0, VEXL_Z, VEXP_F3),
                0xF7u8,
                modrm_byte(0b11, dest.0 % 8, lhs.0 % 8),
            ],
        ),
        old(buf).wf() ==> final (buf).wf(),
{
    emit_vex3_rxbm(buf, dest.msb(), 0, lhs.msb(), VEXM_0F38);
    emit_vex3_wvlp(buf, x64, rhs.num(), VEXL_Z, VEXP_F3);
    emit_u8(buf, 0xF7);
    emit_modrm(buf, 0b11, dest.and7(), lhs.and7());
    assert(final (buf).data@ =~= old(buf).data@ + seq![
        0b11000100u8,
        vex3_rxbm_byte(dest.0 / 8, 0, lhs.0 / 8, VEXM_0F38),
        vex3_wvlp_byte(x64, rhs.0, VEXL_Z, VEXP_F3),
        0xF7u8,
        modrm_byte(0b11, dest.0 % 8, lhs.0 % 8),
    ]);
}

pub fn emit_shlq_reg(buf: &mut MacroAssembler, imm: u8, dest: Reg)
    requires
        dest.valid(),
    ensures
        MacroAssembler::emitted(
            *old(buf),
            *final (buf),
            seq![
                rex_byte(true, 0, 0, dest.0 / 8),
                0xC1u8,
                modrm_byte(0b11, 0b100, dest.0 % 8),
                imm,
            ],
        ),
        old(buf).wf() ==> final (buf).wf(),
{
    emit_rex(buf, true, 0, 0, dest.msb());
    emit_op(buf, 0xC1);
    emit_modrm(buf, 0b11, 0b100, dest.and7());
    emit_u8(buf, imm);
    assert(final (buf).data@ =~= old(buf).data@ + seq![
        rex_byte(true, 0, 0, dest.0 / 8),
        0xC1u8,
        modrm_byte(0b11, 0b100, dest.0 % 8),
        imm,
    ]);
}

/// Bytes of an optional rex prefix: present exactly when `need` holds.
pub open spec fn opt_rex(need: bool, w: bool, r: u8, x: u8, b: u8) -> Seq<u8> {
    if need {
        seq![rex_byte(w, r, x, b)]
    } else {
        Seq::<u8>::empty()
    }
}

pub fn emit_shll_reg(buf: &mut MacroAssembler, imm: u8, dest: Reg)
    requires
        dest.valid(),
    ensures
        MacroAssembler::emitted(
            *old(buf),
            *final (buf),
            opt_rex(dest.0 / 8 != 0, false, 0, 0, dest.0 / 8) + seq![
                0xC1u8,
                modrm_byte(0b11, 0b100, dest.0 % 8),
                imm,
            ],
        ),
        old(buf).wf() ==> final (buf).wf(),
{
    if dest.msb() != 0 {
        emit_rex(buf, false, 0, 0, dest.msb());
    }
    emit_op(buf, 0xC1);
    emit_modrm(buf, 0b11, 0b100, dest.and7());
    emit_u8(buf, imm);
    assert(final (buf).data@ =~= old(buf).data@ + (opt_rex(dest.0 / 8 != 0, false, 0, 0, dest.0 / 8)
        + seq![0xC1u8, modrm_byte(0b11, 0b100, dest.0 % 8), imm]));
}

pub fn emit_shl_reg_cl(buf: &mut MacroAssembler, x64: bool, dest: Reg)
    requires
        dest.valid(),
    ensures
        MacroAssembler::emitted(
            *old(buf),
            *final (buf),
            opt_rex(dest.0 / 8 != 0 || x64, x64, 0, 0, dest.0 / 8) + seq![
                0xD3u8,
                modrm_byte(0b11, 0b100, dest.0 % 8),
            ],
        ),
        old(buf).wf() ==> final (buf).wf(),
{
    if dest.msb() != 0 || x64 {
        emit_rex(buf, x64, 0, 0, dest.msb());
    }
    emit_op(buf, 0xD3);
    emit_modrm(buf, 0b11, 0b100, dest.and7());
    assert(final (buf).data@ =~= old(buf).data@ + (opt_rex(
        dest.0 / 8 != 0 || x64,
        x64,
        0,
        0,
        dest.0 / 8,
    ) + seq![0xD3u8, modrm_byte(0b11, 0b100, dest.0 % 8)]));
}

pub fn emit_shr_reg_cl(buf: &mut MacroAssembler, x64: bool, dest: Reg)
    requires
        dest.valid(),
    ensures
        MacroAssembler::emitted(
            *old(buf),
            *final (buf),
            opt_rex(dest.0 / 8 != 0 || x64, x64, 0, 0, dest.0 / 8) + seq![
                0xD3u8,
                modrm_byte(0b11, 0b101, dest.0 % 8),
            ],
        ),
        old(buf).wf() ==> final (buf).wf(),
{
    if dest.msb() != 0 || x64 {
        emit_rex(buf, x64, 0, 0, dest.msb());
    }
    emit_op(buf, 0xD3);
    emit_modrm(buf, 0b11, 0b101, dest.and7());
    assert(final (buf).data@ =~= old(buf).data@ + (opt_rex(
        dest.0 / 8 != 0 || x64,
        x64,
        0,
        0,
        dest.0 / 8,
    ) + seq![0xD3u8, modrm_byte(0b11, 0b101, dest.0 % 8)]));
}

pub fn emit_shr_reg_imm(buf: &mut MacroAssembler, x64: bool, dest: Reg, imm: u8)
    requires
        dest.valid(),
    ensures
        MacroAssembler::emitted(
            *old(buf),
            *final (buf),
            opt_rex(dest.0 / 8 != 0 || x64, x64, 0, 0, dest.0 / 8) + seq![
                if imm == 1 {
                    0xD1u8
                } else {
                    0xC1u8
                },
                modrm_byte(0b11, 0b101, dest.0 % 8),
            ] + if imm != 1 {
                seq![imm]
            } else {
                Seq::<u8>::empty()
            },
        ),
        old(buf).wf() ==> final (buf).wf(),
{
    if dest.msb() != 0 || x64 {
        emit_rex(buf, x64, 0, 0, dest.msb());
    }
    emit_op(
        buf,
        if imm == 1 {
            0xD1
        } else {
            0xC1
        },
    );
    emit_modrm(buf, 0b11, 0b101, dest.and7());

    if imm != 1 {
        emit_u8(buf, imm);
    }
    assert(final (buf).data@ =~= old(buf).data@ + (opt_rex(
        dest.0 / 8 != 0 || x64,
        x64,
        0,
        0,
        dest.0 / 8,
    ) + seq![
        if imm == 1 {
            0xD1u8
        } else {
            0xC1u8
        },
        modrm_byte(0b11, 0b101, dest.0 % 8),
    ] + if imm != 1 {
        seq![imm]
    } else {
        Seq::<u8>::empty()
    }));
}

pub fn emit_sar_reg_cl(buf: &mut MacroAssembler, x64: bool, dest: Reg)
    requires
        dest.valid(),
    ensures
        MacroAssembler::emitted(
            *old(buf),
            *final (buf),
            opt_rex(dest.0 / 8 != 0 || x64, x64, 0, 0, dest.0 / 8) + seq![
                0xD3u8,
                modrm_byte(0b11, 0b111, dest.0 % 8),
            ],
        ),
        old(buf).wf() ==> final (buf).wf(),
{
    if dest.msb() != 0 || x64 {
        emit_rex(buf, x64, 0, 0, dest.msb());
    }
    emit_op(buf, 0xD3);
    emit_modrm(buf, 0b11, 0b111, dest.and7());
    assert(final (buf).data@ =~= old(buf).data@ + (opt_rex(
        dest.0 / 8 != 0 || x64,
        x64,
        0,
        0,
        dest.0 / 8,
    ) + seq![0xD3u8, modrm_byte(0b11, 0b111, dest.0 % 8)]));
}

pub fn emit_rol_reg_cl(buf: &mut MacroAssembler, x64: bool, dest: Reg)
    requires
        dest.valid(),
    ensures
        MacroAssembler::emitted(
            *old(buf),
            *final (buf),
            opt_rex(dest.0 / 8 != 0 || x64, x64, dest.0 / 8, 0, dest.0 / 8) + seq![
                0xD3u8,
                modrm_byte(0b11, 0b000, dest.0 % 8),
            ],
        ),
        old(buf).wf() ==> final (buf).wf(),
{
    if dest.msb() != 0 || x64 {
        emit_rex(buf, x64, dest.msb(), 0, dest.msb());
    }
    emit_op(buf, 0xD3);
    emit_modrm(buf, 0b11, 0b000, dest.and7());
    assert(final (buf).data@ =~= old(buf).data@ + (opt_rex(
        dest.0 / 8 != 0 || x64,
        x64,
        dest.0 / 8,
        0,
        dest.0 / 8,
    ) + seq![0xD3u8, modrm_byte(0b11, 0b000, dest.0 % 8)]));
}

pub fn emit_ror_reg_cl(buf: &mut MacroAssembler, x64: bool, dest: Reg)
    requires
        dest.valid(),
    ensures
        MacroAssembler::emitted(
            *old(buf),
            *final (buf),
            opt_rex(dest.0 / 8 != 0 || x64, x64, dest.0 / 8, 0, dest.0 / 8) + seq![
                0xD3u8,
                modrm_byte(0b11, 0b001, dest.0 % 8),
            ],
        ),
        old(buf).wf() ==> final (buf).wf(),
{
    if dest.msb() != 0 || x64 {
        emit_rex(buf, x64, dest.msb(), 0, dest.msb());
    }
    emit_op(buf, 0xD3);
    emit_modrm(buf, 0b11, 0b001, dest.and7());
    assert(final (buf).data@ =~= old(buf).data@ + (opt_rex(
        dest.0 / 8 != 0 || x64,
        x64,
        dest.0 / 8,
        0,
        dest.0 / 8,
    ) + seq![0xD3u8, modrm_byte(0b11, 0b001, dest.0 % 8)]));
}

/// Bytes of an sse conversion from an xmm register to a general register:
/// mandatory prefix, optional rex, 0x0f escape, opcode and modrm.
pub open spec fn sse_float_reg_freg_bytes(dbl: bool, op: u8, x64: bool, dest: Reg, src: FReg) -> Seq<
    u8,
> {
    seq![
        if dbl {
            0xf2u8
        } else {
            0xf3u8
        },
    ] + opt_rex(x64 || dest.0 / 8 != 0 || src.0 / 8 != 0, x64, dest.0 / 8, 0, src.0 / 8) + seq![
        0x0fu8,
        op,
        modrm_byte(0b11, dest.0 % 8, src.0 % 8),
    ]
}

fn sse_float_reg_freg(buf: &mut MacroAssembler, dbl: bool, op: u8, x64: bool, dest: Reg, src: FReg)
    requires
        dest.valid(),
        src.valid(),
    ensures
        MacroAssembler::emitted(
            *old(buf),
            *final (buf),
            sse_float_reg_freg_bytes(dbl, op, x64, dest, src),
        ),
        old(buf).wf() ==> final (buf).wf(),
{
    let prefix: u8 = if dbl {
        0xf2
    } else {
        0xf3
    };

    emit_op(buf, prefix);

    if x64 || dest.msb() != 0 || src.msb() != 0 {
        emit_rex(buf, x64, dest.msb(), 0, src.msb());
    }
    emit_op(buf, 0x0f);
    emit_op(buf, op);
    emit_modrm(buf, 0b11, dest.and7(), src.and7());
    assert(final (buf).data@ =~= old(buf).data@ + sse_float_reg_freg_bytes(
        dbl,
        op,
        x64,
        dest,
        src,
    ));
}

pub fn cvttss2si(buf: &mut MacroAssembler, x64: bool, dest: Reg, src: FReg)
    requires
        dest.valid(),
        src.valid(),
    ensures
        MacroAssembler::emitted(
            *old(buf),
            *final (buf),
            sse_float_reg_freg_bytes(false, 0x2c, x64, dest, src),
        ),
        old(buf).wf() ==> final (buf).wf(),
{
    sse_float_reg_freg(buf, false, 0x2c, x64, dest, src);
}

pub fn cvttsd2si(buf: &mut MacroAssembler, x64: bool, dest: Reg, src: FReg)
    requires
        dest.valid(),
        src.valid(),
    ensures
        MacroAssembler::emitted(
            *old(buf),
            *final (buf),
            sse_float_reg_freg_bytes(true, 0x2c, x64, dest, src),
        ),
        old(buf).wf() ==> final (buf).wf(),
{
    sse_float_reg_freg(buf, true, 0x2c, x64, dest, src);
}

/// Bytes of a two-operand register alu instruction: optional rex, opcode,
/// modrm with both registers.
pub open spec fn alu_rr_bytes(x64: u8, opcode: u8, src: Reg, dest: Reg) -> Seq<u8> {
    opt_rex(
        x64 != 0 || src.0 / 8 != 0 || dest.0 / 8 != 0,
        x64 != 0,
        src.0 / 8,
        0,
        dest.0 / 8,
    ) + seq![opcode, modrm_byte(0b11, src.0 % 8, dest.0 % 8)]
}

fn emit_alu_rr(buf: &mut MacroAssembler, x64: u8, opcode: u8, src: Reg, dest: Reg)
    requires
        x64 == 0 || x64 == 1,
        src.valid(),
        dest.valid(),
    ensures
        MacroAssembler::emitted(*old(buf), *final (buf), alu_rr_bytes(x64, opcode, src, dest)),
        old(buf).wf() ==> final (buf).wf(),
{
    if x64 != 0 || src.msb() != 0 || dest.msb() != 0 {
        emit_rex(buf, x64 != 0, src.msb(), 0, dest.msb());
    }
    emit_op(buf, opcode);
    emit_modrm(buf, 0b11, src.and7(), dest.and7());
    assert(final (buf).data@ =~= old(buf).data@ + alu_rr_bytes(x64, opcode, src, dest));
}

/// A two-operand alu instruction with an explicit opcode.
pub fn emit_alu_rr_pub(buf: &mut MacroAssembler, x64: u8, opcode: u8, src: Reg, dest: Reg)
    requires
        x64 == 0 || x64 == 1,
        src.valid(),
        dest.valid(),
    ensures
        MacroAssembler::emitted(*old(buf), *final (buf), alu_rr_bytes(x64, opcode, src, dest)),
        old(buf).wf() ==> final (buf).wf(),
{
    emit_alu_rr(buf, x64, opcode, src, dest);
}

pub fn emit_mov_reg_reg(buf: &mut MacroAssembler, x64: u8, src: Reg, dest: Reg)
    requires
        x64 == 0 || x64 == 1,
        src.valid(),
        dest.valid(),
    ensures
        MacroAssembler::emitted(*old(buf), *final (buf), alu_rr_bytes(x64, 0x89, src, dest)),
        old(buf).wf() ==> final (buf).wf(),
{
    emit_alu_rr(buf, x64, 0x89, src, dest);
}

pub fn emit_add_reg_reg(buf: &mut MacroAssembler, x64: u8, src: Reg, dest: Reg)
    requires
        x64 == 0 || x64 == 1,
        src.valid(),
        dest.valid(),
    ensures
        MacroAssembler::emitted(*old(buf), *final (buf), alu_rr_bytes(x64, 0x01, src, dest)),
        old(buf).wf() ==> final (buf).wf(),
{
    emit_alu_rr(buf, x64, 0x01, src, dest);
}

pub fn emit_sub_reg_reg(buf: &mut MacroAssembler, x64: u8, src: Reg, dest: Reg)
    requires
        x64 == 0 || x64 == 1,
        src.valid(),
        dest.valid(),
    ensures
        MacroAssembler::emitted(*old(buf), *final (buf), alu_rr_bytes(x64, 0x29, src, dest)),
        old(buf).wf() ==> final (buf).wf(),
{
    emit_alu_rr(buf, x64, 0x29, src, dest);
}

pub fn emit_or_reg_reg(buf: &mut MacroAssembler, x64: u8, src: Reg, dest: Reg)
    requires
        x64 == 0 || x64 == 1,
        src.valid(),
        dest.valid(),
    ensures
        MacroAssembler::emitted(*old(buf), *final (buf), alu_rr_bytes(x64, 0x09, src, dest)),
        old(buf).wf() ==> final (buf).wf(),
{
    emit_alu_rr(buf, x64, 0x09, src, dest);
}

pub fn emit_and_reg_reg(buf: &mut MacroAssembler, x64: u8, src: Reg, dest: Reg)
    requires
        x64 == 0 || x64 == 1,
        src.valid(),
        dest.valid(),
    ensures
        MacroAssembler::emitted(*old(buf), *final (buf), alu_rr_bytes(x64, 0x21, src, dest)),
        old(buf).wf() ==> final (buf).wf(),
{
    emit_alu_rr(buf, x64, 0x21, src, dest);
}

pub fn emit_xor_reg_reg(buf: &mut MacroAssembler, x64: u8, src: Reg, dest: Reg)
    requires
        x64 == 0 || x64 == 1,
        src.valid(),
        dest.valid(),
    ensures
        MacroAssembler::emitted(*old(buf), *final (buf), alu_rr_bytes(x64, 0x31, src, dest)),
        old(buf).wf() ==> final (buf).wf(),
{
    emit_alu_rr(buf, x64, 0x31, src, dest);
}

pub fn emit_cmp_reg_reg(buf: &mut MacroAssembler, x64: u8, src: Reg, dest: Reg)
    requires
        x64 == 0 || x64 == 1,
        src.valid(),
        dest.valid(),
    ensures
        MacroAssembler::emitted(*old(buf), *final (buf), alu_rr_bytes(x64, 0x39, src, dest)),
        old(buf).wf() ==> final (buf).wf(),
{
    emit_alu_rr(buf, x64, 0x39, src, dest);
}

pub fn emit_testl_reg_reg(buf: &mut MacroAssembler, op1: Reg, op2: Reg)
    requires
        op1.valid(),
        op2.valid(),
    ensures
        MacroAssembler::emitted(*old(buf), *final (buf), alu_rr_bytes(0, 0x85, op1, op2)),
        old(buf).wf() ==> final (buf).wf(),
{
    emit_alu_rr(buf, 0, 0x85, op1, op2);
}

pub fn emit_testq_reg_reg(buf: &mut MacroAssembler, op1: Reg, op2: Reg)
    requires
        op1.valid(),
        op2.valid(),
    ensures
        MacroAssembler::emitted(*old(buf), *final (buf), alu_rr_bytes(1, 0x85, op1, op2)),
        old(buf).wf() ==> final (buf).wf(),
{
    emit_alu_rr(buf, 1, 0x85, op1, op2);
}

/// Bytes of a one-operand group instruction (0xF7 family): optional rex,
/// opcode, modrm with the extension field selecting the operation.
pub open spec fn unary_rr_bytes(x64: u8, opcode: u8, ext: u8, reg: Reg) -> Seq<u8> {
    opt_rex(x64 != 0 || reg.0 / 8 != 0, x64 != 0, 0, 0, reg.0 / 8) + seq![
        opcode,
        modrm_byte(0b11, ext, reg.0 % 8),
    ]
}

fn emit_unary_rr(buf: &mut MacroAssembler, x64: u8, opcode: u8, ext: u8, reg: Reg)
    requires
        x64 == 0 || x64 == 1,
        ext < 8,
        reg.valid(),
    ensures
        MacroAssembler::emitted(*old(buf), *final (buf), unary_rr_bytes(x64, opcode, ext, reg)),
        old(buf).wf() ==> final (buf).wf(),
{
    if x64 != 0 || reg.msb() != 0 {
        emit_rex(buf, x64 != 0, 0, 0, reg.msb());
    }
    emit_op(buf, opcode);
    emit_modrm(buf, 0b11, ext, reg.and7());
    assert(final (buf).data@ =~= old(buf).data@ + unary_rr_bytes(x64, opcode, ext, reg));
}

pub fn emit_idiv_reg_reg(buf: &mut MacroAssembler, x64: u8, reg: Reg)
    requires
        x64 == 0 || x64 == 1,
        reg.valid(),
    ensures
        MacroAssembler::emitted(*old(buf), *final (buf), unary_rr_bytes(x64, 0xF7, 0b111, reg)),
        old(buf).wf() ==> final (buf).wf(),
{
    emit_unary_rr(buf, x64, 0xF7, 0b111, reg);
}

pub fn emit_neg_reg(buf: &mut MacroAssembler, x64: u8, reg: Reg)
    requires
        x64 == 0 || x64 == 1,
        reg.valid(),
    ensures
        MacroAssembler::emitted(*old(buf), *final (buf), unary_rr_bytes(x64, 0xF7, 0b011, reg)),
        old(buf).wf() ==> final (buf).wf(),
{
    emit_unary_rr(buf, x64, 0xF7, 0b011, reg);
}

pub fn emit_not_reg(buf: &mut MacroAssembler, x64: u8, reg: Reg)
    requires
        x64 == 0 || x64 == 1,
        reg.valid(),
    ensures
        MacroAssembler::emitted(*old(buf), *final (buf), unary_rr_bytes(x64, 0xF7, 0b010, reg)),
        old(buf).wf() ==> final (buf).wf(),
{
    emit_unary_rr(buf, x64, 0xF7, 0b010, reg);
}

/// A byte-width operand needs a rex prefix for spl/bpl/sil/dil and the
/// extended registers.
pub open spec fn byte_reg_needs_rex(reg: Reg) -> bool {
    reg.0 > 3
}

pub open spec fn not_reg_byte_bytes(reg: Reg) -> Seq<u8> {
    opt_rex(byte_reg_needs_rex(reg), false, 0, 0, reg.0 / 8) + seq![
        0xF6u8,
        modrm_byte(0b11, 0b010, reg.0 % 8),
    ]
}

pub fn emit_not_reg_byte(buf: &mut MacroAssembler, reg: Reg)
    requires
        reg.valid(),
    ensures
        MacroAssembler::emitted(*old(buf), *final (buf), not_reg_byte_bytes(reg)),
        old(buf).wf() ==> final (buf).wf(),
{
    if reg.num() > 3 {
        emit_rex(buf, false, 0, 0, reg.msb());
    }
    emit_op(buf, 0xF6);
    emit_modrm(buf, 0b11, 0b010, reg.and7());
    assert(final (buf).data@ =~= old(buf).data@ + not_reg_byte_bytes(reg));
}

pub fn emit_cqo(buf: &mut MacroAssembler)
    ensures
        MacroAssembler::emitted(*old(buf), *final (buf), seq![rex_byte(true, 0, 0, 0), 0x99u8]),
        old(buf).wf() ==> final (buf).wf(),
{
    emit_rex(buf, true, 0, 0, 0);
    emit_op(buf, 0x99);
    assert(final (buf).data@ =~= old(buf).data@ + seq![rex_byte(true, 0, 0, 0), 0x99u8]);
}

pub fn emit_cdq(buf: &mut MacroAssembler)
    ensures
        MacroAssembler::emitted(*old(buf), *final (buf), seq![0x99u8]),
        old(buf).wf() ==> final (buf).wf(),
{
    emit_op(buf, 0x99);
}

/// imul dest, src (0F AF): note that dest goes into the reg field.
pub open spec fn imul_rr_bytes(x64: u8, src: Reg, dest: Reg) -> Seq<u8> {
    opt_rex(
        x64 != 0 || src.0 / 8 != 0 || dest.0 / 8 != 0,
        x64 != 0,
        dest.0 / 8,
        0,
        src.0 / 8,
    ) + seq![0x0Fu8, 0xAFu8, modrm_byte(0b11, dest.0 % 8, src.0 % 8)]
}

pub fn emit_imul_reg_reg(buf: &mut MacroAssembler, x64: u8, src: Reg, dest: Reg)
    requires
        x64 == 0 || x64 == 1,
        src.valid(),
        dest.valid(),
    ensures
        MacroAssembler::emitted(*old(buf), *final (buf), imul_rr_bytes(x64, src, dest)),
        old(buf).wf() ==> final (buf).wf(),
{
    if x64 != 0 || src.msb() != 0 || dest.msb() != 0 {
        emit_rex(buf, x64 != 0, dest.msb(), 0, src.msb());
    }
    emit_op(buf, 0x0F);
    emit_op(buf, 0xAF);
    emit_modrm(buf, 0b11, dest.and7(), src.and7());
    assert(final (buf).data@ =~= old(buf).data@ + imul_rr_bytes(x64, src, dest));
}

pub fn emit_pushq_reg(buf: &mut MacroAssembler, reg: Reg)
    requires
        reg.valid(),
    ensures
        MacroAssembler::emitted(
            *old(buf),
            *final (buf),
            opt_rex(reg.0 / 8 != 0, false, 0, 0, reg.0 / 8) + seq![(0x50 + reg.0 % 8) as u8],
        ),
        old(buf).wf() ==> final (buf).wf(),
{
    if reg.msb() != 0 {
        emit_rex(buf, false, 0, 0, reg.msb());
    }
    emit_op(buf, 0x50 + reg.and7());
    assert(final (buf).data@ =~= old(buf).data@ + (opt_rex(reg.0 / 8 != 0, false, 0, 0, reg.0 / 8)
        + seq![(0x50 + reg.0 % 8) as u8]));
}

pub fn emit_popq_reg(buf: &mut MacroAssembler, reg: Reg)
    requires
        reg.valid(),
    ensures
        MacroAssembler::emitted(
            *old(buf),
            *final (buf),
            opt_rex(reg.0 / 8 != 0, false, 0, 0, reg.0 / 8) + seq![(0x58 + reg.0 % 8) as u8],
        ),
        old(buf).wf() ==> final (buf).wf(),
{
    if reg.msb() != 0 {
        emit_rex(buf, false, 0, 0, reg.msb());
    }
    emit_op(buf, 0x58 + reg.and7());
    assert(final (buf).data@ =~= old(buf).data@ + (opt_rex(reg.0 / 8 != 0, false, 0, 0, reg.0 / 8)
        + seq![(0x58 + reg.0 % 8) as u8]));
}

pub fn emit_retq(buf: &mut MacroAssembler)
    ensures
        MacroAssembler::emitted(*old(buf), *final (buf), seq![0xC3u8]),
        old(buf).wf() ==> final (buf).wf(),
{
    emit_op(buf, 0xC3);
}

pub fn emit_callq_reg(buf: &mut MacroAssembler, reg: Reg)
    requires
        reg.valid(),
    ensures
        MacroAssembler::emitted(
            *old(buf),
            *final (buf),
            opt_rex(reg.0 / 8 != 0, false, 0, 0, reg.0 / 8) + seq![
                0xFFu8,
                modrm_byte(0b11, 0b010, reg.0 % 8),
            ],
        ),
        old(buf).wf() ==> final (buf).wf(),
{
    if reg.msb() != 0 {
        emit_rex(buf, false, 0, 0, reg.msb());
    }
    emit_op(buf, 0xFF);
    emit_modrm(buf, 0b11, 0b010, reg.and7());
    assert(final (buf).data@ =~= old(buf).data@ + (opt_rex(reg.0 / 8 != 0, false, 0, 0, reg.0 / 8)
        + seq![0xFFu8, modrm_byte(0b11, 0b010, reg.0 % 8)]));
}

/// The low byte of a 32-bit immediate, as stored in a disp8 field.
pub open spec fn byte_of(v: i32) -> u8 {
    (v % 256) as u8
}

/// The 32-bit two's-complement encoding of a signed immediate.
pub open spec fn imm32(v: i32) -> u32 {
    crate::masm::disp32(v as int)
}

fn emit_u8_trunc(buf: &mut MacroAssembler, v: i32)
    requires
        -128 <= v <= 127,
    ensures
        MacroAssembler::emitted(*old(buf), *final (buf), seq![byte_of(v)]),
        old(buf).wf() ==> final (buf).wf(),
{
    let b: u8 = if v >= 0 {
        v as u8
    } else {
        (256 + v) as u8
    };
    proof {
        if v >= 0 {
            vstd::arithmetic::div_mod::lemma_small_mod(v as nat, 256);
        } else {
            vstd::arithmetic::div_mod::lemma_mod_multiples_vanish(-1, 256 + v, 256);
            vstd::arithmetic::div_mod::lemma_small_mod((256 + v) as nat, 256);
        }
    }
    emit_u8(buf, b);
}

fn emit_u32_trunc(buf: &mut MacroAssembler, v: i32)
    ensures
        MacroAssembler::emitted(*old(buf), *final (buf), le32(imm32(v))),
        old(buf).wf() ==> final (buf).wf(),
{
    let w: u32 = if v >= 0 {
        v as u32
    } else {
        let k: i64 = 0x1_0000_0000i64 + v as i64;
        k as u32
    };
    proof {
        let m: int = 0x1_0000_0000;
        if v >= 0 {
            vstd::arithmetic::div_mod::lemma_small_mod(v as nat, m as nat);
        } else {
            vstd::arithmetic::div_mod::lemma_mod_multiples_vanish(-1, m + v, m);
            vstd::arithmetic::div_mod::lemma_small_mod((m + v) as nat, m as nat);
        }
    }
    emit_u32(buf, w);
}

pub fn emit_movl_imm_reg(buf: &mut MacroAssembler, imm: i32, reg: Reg)
    requires
        reg.valid(),
    ensures
        MacroAssembler::emitted(
            *old(buf),
            *final (buf),
            opt_rex(reg.0 / 8 != 0, false, 0, 0, reg.0 / 8) + seq![(0xB8 + reg.0 % 8) as u8] + le32(
                imm32(imm),
            ),
        ),
        old(buf).wf() ==> final (buf).wf(),
{
    if reg.msb() != 0 {
        emit_rex(buf, false, 0, 0, reg.msb());
    }
    emit_op(buf, 0xB8 + reg.and7());
    emit_u32_trunc(buf, imm);
    assert(final (buf).data@ =~= old(buf).data@ + (opt_rex(reg.0 / 8 != 0, false, 0, 0, reg.0 / 8)
        + seq![(0xB8 + reg.0 % 8) as u8] + le32(imm32(imm))));
}

pub fn emit_movq_imm_reg(buf: &mut MacroAssembler, imm: i32, reg: Reg)
    requires
        reg.valid(),
    ensures
        MacroAssembler::emitted(
            *old(buf),
            *final (buf),
            seq![rex_byte(true, 0, 0, reg.0 / 8), 0xC7u8, modrm_byte(0b11, 0, reg.0 % 8)] + le32(
                imm32(imm),
            ),
        ),
        old(buf).wf() ==> final (buf).wf(),
{
    emit_rex(buf, true, 0, 0, reg.msb());
    emit_op(buf, 0xC7);
    emit_modrm(buf, 0b11, 0, reg.and7());
    emit_u32_trunc(buf, imm);
    assert(final (buf).data@ =~= old(buf).data@ + (seq![
        rex_byte(true, 0, 0, reg.0 / 8),
        0xC7u8,
        modrm_byte(0b11, 0, reg.0 % 8),
    ] + le32(imm32(imm))));
}

/// The 64-bit two's-complement encoding of a signed immediate.
pub open spec fn imm64(v: i64) -> u64 {
    (v as int % 0x1_0000_0000_0000_0000) as u64
}

fn emit_u64_trunc(buf: &mut MacroAssembler, v: i64)
    ensures
        MacroAssembler::emitted(*old(buf), *final (buf), crate::masm::le64(imm64(v))),
        old(buf).wf() ==> final (buf).wf(),
{
    let w: u64 = if v >= 0 {
        v as u64
    } else {
        let k: u64 = ((-(v + 1)) as u64);
        0xffff_ffff_ffff_ffffu64 - k
    };
    proof {
        let m: int = 0x1_0000_0000_0000_0000;
        if v >= 0 {
            vstd::arithmetic::div_mod::lemma_small_mod(v as nat, m as nat);
        } else {
            vstd::arithmetic::div_mod::lemma_mod_multiples_vanish(-1, m + v, m);
            vstd::arithmetic::div_mod::lemma_small_mod((m + v) as nat, m as nat);
        }
    }
    emit_u64(buf, w);
}

pub fn emit_movq_imm64_reg(buf: &mut MacroAssembler, imm: i64, reg: Reg)
    requires
        reg.valid(),
    ensures
        MacroAssembler::emitted(
            *old(buf),
            *final (buf),
            seq![rex_byte(true, 0, 0, reg.0 / 8), (0xB8 + reg.0 % 8) as u8] + crate::masm::le64(
                imm64(imm),
            ),
        ),
        old(buf).wf() ==> final (buf).wf(),
{
    emit_rex(buf, true, 0, 0, reg.msb());
    emit_op(buf, 0xB8 + reg.and7());
    emit_u64_trunc(buf, imm);
    assert(final (buf).data@ =~= old(buf).data@ + (seq![
        rex_byte(true, 0, 0, reg.0 / 8),
        (0xB8 + reg.0 % 8) as u8,
    ] + crate::masm::le64(imm64(imm))));
}

/// Bytes of an arithmetic instruction with a signed 32-bit immediate on a
/// 64-bit register: the short 0x83 form with a sign-extended byte where the
/// immediate fits, the long 0x81 form otherwise.
pub open spec fn aluq_imm_bytes(ext: u8, imm: i32, reg: Reg) -> Seq<u8> {
    seq![rex_byte(true, 0, 0, reg.0 / 8)] + (if -128 <= imm <= 127 {
        seq![0x83u8, modrm_byte(0b11, ext, reg.0 % 8), byte_of(imm)]
    } else {
        seq![0x81u8, modrm_byte(0b11, ext, reg.0 % 8)] + le32(imm32(imm))
    })
}

fn emit_aluq_imm_reg(buf: &mut MacroAssembler, ext: u8, imm: i32, reg: Reg)
    requires
        ext < 8,
        reg.valid(),
    ensures
        MacroAssembler::emitted(*old(buf), *final (buf), aluq_imm_bytes(ext, imm, reg)),
        old(buf).wf() ==> final (buf).wf(),
{
    emit_rex(buf, true, 0, 0, reg.msb());
    if fits_i8(imm) {
        emit_op(buf, 0x83);
        emit_modrm(buf, 0b11, ext, reg.and7());
        emit_u8_trunc(buf, imm);
    } else {
        emit_op(buf, 0x81);
        emit_modrm(buf, 0b11, ext, reg.and7());
        emit_u32_trunc(buf, imm);
    }
    assert(final (buf).data@ =~= old(buf).data@ + aluq_imm_bytes(ext, imm, reg));
}

/// A group-1 instruction with immediate on a 64-bit register, with the
/// extension field chosen by the caller.
pub fn emit_aluq_imm_reg_pub(buf: &mut MacroAssembler, ext: u8, imm: i32, reg: Reg)
    requires
        ext < 8,
        reg.valid(),
    ensures
        MacroAssembler::emitted(*old(buf), *final (buf), aluq_imm_bytes(ext, imm, reg)),
        old(buf).wf() ==> final (buf).wf(),
{
    emit_aluq_imm_reg(buf, ext, imm, reg);
}

pub fn emit_addq_imm_reg(buf: &mut MacroAssembler, imm: i32, reg: Reg)
    requires
        reg.valid(),
    ensures
        MacroAssembler::emitted(*old(buf), *final (buf), aluq_imm_bytes(0b000, imm, reg)),
        old(buf).wf() ==> final (buf).wf(),
{
    emit_aluq_imm_reg(buf, 0b000, imm, reg);
}

pub fn emit_subq_imm_reg(buf: &mut MacroAssembler, imm: i32, reg: Reg)
    requires
        reg.valid(),
    ensures
        MacroAssembler::emitted(*old(buf), *final (buf), aluq_imm_bytes(0b101, imm, reg)),
        old(buf).wf() ==> final (buf).wf(),
{
    emit_aluq_imm_reg(buf, 0b101, imm, reg);
}

/// A register that may stand as the base of a memory operand: a real
/// register or the rip pseudo-register.
pub open spec fn base_valid(r: Reg) -> bool {
    r.valid() || r.0 == 16
}

/// Extension bit of a base register; the rip pseudo-register has none.
pub open spec fn base_msb(r: Reg) -> u8 {
    r.0 / 8 % 2
}

/// The modrm tail of an instruction with a base+displacement memory operand:
/// modrm byte, optional sib byte and a displacement sized to fit. rsp and
/// r12 force a sib byte; rbp and r13 force a displacement; a rip base takes
/// the modrm 00/101 form with a 32-bit displacement.
pub open spec fn membase_bytes(base: Reg, disp: i32, dest7: u8) -> Seq<u8> {
    if base.0 % 8 == 4 && base.0 != 16 {
        if disp == 0 {
            seq![modrm_byte(0, dest7, 0b100), sib_byte(0, 0b100, base.0 % 8)]
        } else if -128 <= disp <= 127 {
            seq![modrm_byte(1, dest7, 0b100), sib_byte(0, 0b100, base.0 % 8), byte_of(disp)]
        } else {
            seq![modrm_byte(2, dest7, 0b100), sib_byte(0, 0b100, base.0 % 8)] + le32(imm32(disp))
        }
    } else if disp == 0 && base.0 % 8 != 5 && base.0 != 16 {
        seq![modrm_byte(0, dest7, base.0 % 8)]
    } else if base.0 == 16 {
        seq![modrm_byte(0, dest7, 0b101)] + le32(imm32(disp))
    } else if -128 <= disp <= 127 {
        seq![modrm_byte(1, dest7, base.0 % 8), byte_of(disp)]
    } else {
        seq![modrm_byte(2, dest7, base.0 % 8)] + le32(imm32(disp))
    }
}

fn emit_membase(buf: &mut MacroAssembler, base: Reg, disp: i32, dest7: u8)
    requires
        base_valid(base),
        dest7 < 8,
    ensures
        MacroAssembler::emitted(*old(buf), *final (buf), membase_bytes(base, disp, dest7)),
        old(buf).wf() ==> final (buf).wf(),
{
    if base.and7() == 4 && base.num() != 16 {
        if disp == 0 {
            emit_modrm(buf, 0, dest7, 0b100);
            emit_sib(buf, 0, 0b100, base.and7());
        } else if fits_i8(disp) {
            emit_modrm(buf, 1, dest7, 0b100);
            emit_sib(buf, 0, 0b100, base.and7());
            emit_u8_trunc(buf, disp);
        } else {
            emit_modrm(buf, 2, dest7, 0b100);
            emit_sib(buf, 0, 0b100, base.and7());
            emit_u32_trunc(buf, disp);
        }
    } else if disp == 0 && base.and7() != 5 && base.num() != 16 {
        emit_modrm(buf, 0, dest7, base.and7());
    } else if base.num() == 16 {
        emit_modrm(buf, 0, dest7, 0b101);
        emit_u32_trunc(buf, disp);
    } else if fits_i8(disp) {
        emit_modrm(buf, 1, dest7, base.and7());
        emit_u8_trunc(buf, disp);
    } else {
        emit_modrm(buf, 2, dest7, base.and7());
        emit_u32_trunc(buf, disp);
    }
    assert(final (buf).data@ =~= old(buf).data@ + membase_bytes(base, disp, dest7));
}

/// Bytes of a load or store with a base+displacement operand: optional rex,
/// opcode bytes, then the membase tail.
pub open spec fn mem_rr_bytes(
    need_rex: bool,
    w: bool,
    reg: Reg,
    base: Reg,
    opcodes: Seq<u8>,
    disp: i32,
) -> Seq<u8> {
    opt_rex(need_rex, w, reg.0 / 8, 0, base_msb(base)) + opcodes + membase_bytes(
        base,
        disp,
        reg.0 % 8,
    )
}

pub fn emit_movzbl_memq_reg(buf: &mut MacroAssembler, base: Reg, disp: i32, dest: Reg)
    requires
        base_valid(base),
        dest.valid(),
    ensures
        MacroAssembler::emitted(
            *old(buf),
            *final (buf),
            mem_rr_bytes(
                dest.0 / 8 != 0 || base_msb(base) != 0,
                false,
                dest,
                base,
                seq![0x0Fu8, 0xB6u8],
                disp,
            ),
        ),
        old(buf).wf() ==> final (buf).wf(),
{
    if dest.msb() != 0 || base.msb() != 0 {
        emit_rex(buf, false, dest.msb(), 0, base.msb());
    }
    emit_op(buf, 0x0F);
    emit_op(buf, 0xB6);
    emit_membase(buf, base, disp, dest.and7());
    assert(final (buf).data@ =~= old(buf).data@ + mem_rr_bytes(
        dest.0 / 8 != 0 || base_msb(base) != 0,
        false,
        dest,
        base,
        seq![0x0Fu8, 0xB6u8],
        disp,
    ));
}

pub fn emit_movl_memq_reg(buf: &mut MacroAssembler, base: Reg, disp: i32, dest: Reg)
    requires
        base_valid(base),
        dest.valid(),
    ensures
        MacroAssembler::emitted(
            *old(buf),
            *final (buf),
            mem_rr_bytes(
                dest.0 / 8 != 0 || base_msb(base) != 0,
                false,
                dest,
                base,
                seq![0x8Bu8],
                disp,
            ),
        ),
        old(buf).wf() ==> final (buf).wf(),
{
    if dest.msb() != 0 || base.msb() != 0 {
        emit_rex(buf, false, dest.msb(), 0, base.msb());
    }
    emit_op(buf, 0x8B);
    emit_membase(buf, base, disp, dest.and7());
    assert(final (buf).data@ =~= old(buf).data@ + mem_rr_bytes(
        dest.0 / 8 != 0 || base_msb(base) != 0,
        false,
        dest,
        base,
        seq![0x8Bu8],
        disp,
    ));
}

pub fn emit_movq_memq_reg(buf: &mut MacroAssembler, base: Reg, disp: i32, dest: Reg)
    requires
        base_valid(base),
        dest.valid(),
    ensures
        MacroAssembler::emitted(
            *old(buf),
            *final (buf),
            mem_rr_bytes(true, true, dest, base, seq![0x8Bu8], disp),
        ),
        old(buf).wf() ==> final (buf).wf(),
{
    emit_rex(buf, true, dest.msb(), 0, base.msb());
    emit_op(buf, 0x8B);
    emit_membase(buf, base, disp, dest.and7());
    assert(final (buf).data@ =~= old(buf).data@ + mem_rr_bytes(
        true,
        true,
        dest,
        base,
        seq![0x8Bu8],
        disp,
    ));
}

pub fn emit_movb_reg_memq(buf: &mut MacroAssembler, src: Reg, base: Reg, disp: i32)
    requires
        src.valid(),
        base_valid(base),
    ensures
        MacroAssembler::emitted(
            *old(buf),
            *final (buf),
            mem_rr_bytes(
                src.0 > 3 || base_msb(base) != 0,
                false,
                src,
                base,
                seq![0x88u8],
                disp,
            ),
        ),
        old(buf).wf() ==> final (buf).wf(),
{
    if src.num() > 3 || base.msb() != 0 {
        emit_rex(buf, false, src.msb(), 0, base.msb());
    }
    emit_op(buf, 0x88);
    emit_membase(buf, base, disp, src.and7());
    assert(final (buf).data@ =~= old(buf).data@ + mem_rr_bytes(
        src.0 > 3 || base_msb(base) != 0,
        false,
        src,
        base,
        seq![0x88u8],
        disp,
    ));
}

pub fn emit_movl_reg_memq(buf: &mut MacroAssembler, src: Reg, base: Reg, disp: i32)
    requires
        src.valid(),
        base_valid(base),
    ensures
        MacroAssembler::emitted(
            *old(buf),
            *final (buf),
            mem_rr_bytes(
                src.0 / 8 != 0 || base_msb(base) != 0,
                false,
                src,
                base,
                seq![0x89u8],
                disp,
            ),
        ),
        old(buf).wf() ==> final (buf).wf(),
{
    if src.msb() != 0 || base.msb() != 0 {
        emit_rex(buf, false, src.msb(), 0, base.msb());
    }
    emit_op(buf, 0x89);
    emit_membase(buf, base, disp, src.and7());
    assert(final (buf).data@ =~= old(buf).data@ + mem_rr_bytes(
        src.0 / 8 != 0 || base_msb(base) != 0,
        false,
        src,
        base,
        seq![0x89u8],
        disp,
    ));
}

pub fn emit_movq_reg_memq(buf: &mut MacroAssembler, src: Reg, base: Reg, disp: i32)
    requires
        src.valid(),
        base_valid(base),
    ensures
        MacroAssembler::emitted(
            *old(buf),
            *final (buf),
            mem_rr_bytes(true, true, src, base, seq![0x89u8], disp),
        ),
        old(buf).wf() ==> final (buf).wf(),
{
    emit_rex(buf, true, src.msb(), 0, base.msb());
    emit_op(buf, 0x89);
    emit_membase(buf, base, disp, src.and7());
    assert(final (buf).data@ =~= old(buf).data@ + mem_rr_bytes(
        true,
        true,
        src,
        base,
        seq![0x89u8],
        disp,
    ));
}

/// mov byte [base + disp], imm.
pub fn emit_movb_imm_memq(buf: &mut MacroAssembler, imm: u8, base: Reg, disp: i32)
    requires
        base_valid(base),
    ensures
        MacroAssembler::emitted(
            *old(buf),
            *final (buf),
            opt_rex(base_msb(base) != 0, false, 0, 0, base_msb(base)) + seq![0xC6u8]
                + membase_bytes(base, disp, 0) + seq![imm],
        ),
        old(buf).wf() ==> final (buf).wf(),
{
    if base.msb() != 0 {
        emit_rex(buf, false, 0, 0, base.msb());
    }
    emit_op(buf, 0xC6);
    emit_membase(buf, base, disp, 0);
    emit_u8(buf, imm);
    assert(final (buf).data@ =~= old(buf).data@ + (opt_rex(
        base_msb(base) != 0,
        false,
        0,
        0,
        base_msb(base),
    ) + seq![0xC6u8] + membase_bytes(base, disp, 0) + seq![imm]));
}

/// The opcode byte (after 0x0f) of a setcc instruction.
pub open spec fn setcc_opcode(cond: CondCode) -> u8 {
    match cond {
        CondCode::Zero | CondCode::Equal => 0x94,
        CondCode::NonZero | CondCode::NotEqual => 0x95,
        CondCode::Greater => 0x9F,
        CondCode::GreaterEq => 0x9D,
        CondCode::Less => 0x9C,
        CondCode::LessEq => 0x9E,
        CondCode::UnsignedGreater => 0x97,
        CondCode::UnsignedGreaterEq => 0x93,
        CondCode::UnsignedLess => 0x92,
        CondCode::UnsignedLessEq => 0x96,
    }
}

pub open spec fn setb_reg_bytes(op: CondCode, reg: Reg) -> Seq<u8> {
    opt_rex(byte_reg_needs_rex(reg), false, 0, 0, reg.0 / 8) + seq![
        0x0Fu8,
        setcc_opcode(op),
        modrm_byte(0b11, 0, reg.0 % 8),
    ]
}

pub fn emit_setb_reg(buf: &mut MacroAssembler, op: CondCode, reg: Reg)
    requires
        reg.valid(),
    ensures
        MacroAssembler::emitted(*old(buf), *final (buf), setb_reg_bytes(op, reg)),
        old(buf).wf() ==> final (buf).wf(),
{
    if reg.num() > 3 {
        emit_rex(buf, false, 0, 0, reg.msb());
    }
    let opcode: u8 = match op {
        CondCode::Zero | CondCode::Equal => 0x94,
        CondCode::NonZero | CondCode::NotEqual => 0x95,
        CondCode::Greater => 0x9F,
        CondCode::GreaterEq => 0x9D,
        CondCode::Less => 0x9C,
        CondCode::LessEq => 0x9E,
        CondCode::UnsignedGreater => 0x97,
        CondCode::UnsignedGreaterEq => 0x93,
        CondCode::UnsignedLess => 0x92,
        CondCode::UnsignedLessEq => 0x96,
    };
    emit_op(buf, 0x0F);
    emit_op(buf, opcode);
    emit_modrm(buf, 0b11, 0, reg.and7());
    assert(final (buf).data@ =~= old(buf).data@ + setb_reg_bytes(op, reg));
}

pub open spec fn movzbl_rr_bytes(src: Reg, dest: Reg) -> Seq<u8> {
    opt_rex(
        src.0 > 3 || src.0 / 8 != 0 || dest.0 / 8 != 0,
        false,
        dest.0 / 8,
        0,
        src.0 / 8,
    ) + seq![0x0Fu8, 0xB6u8, modrm_byte(0b11, dest.0 % 8, src.0 % 8)]
}

pub fn emit_movzbl_reg_reg(buf: &mut MacroAssembler, src: Reg, dest: Reg)
    requires
        src.valid(),
        dest.valid(),
    ensures
        MacroAssembler::emitted(*old(buf), *final (buf), movzbl_rr_bytes(src, dest)),
        old(buf).wf() ==> final (buf).wf(),
{
    if src.num() > 3 || src.msb() != 0 || dest.msb() != 0 {
        emit_rex(buf, false, dest.msb(), 0, src.msb());
    }
    emit_op(buf, 0x0F);
    emit_op(buf, 0xB6);
    emit_modrm(buf, 0b11, dest.and7(), src.and7());
    assert(final (buf).data@ =~= old(buf).data@ + movzbl_rr_bytes(src, dest));
}

/// movsxlq: sign-extend a 32-bit register into a 64-bit one.
pub fn emit_movsx(buf: &mut MacroAssembler, src: Reg, dest: Reg)
    requires
        src.valid(),
        dest.valid(),
    ensures
        MacroAssembler::emitted(
            *old(buf),
            *final (buf),
            seq![
                rex_byte(true, dest.0 / 8, 0, src.0 / 8),
                0x63u8,
                modrm_byte(0b11, dest.0 % 8, src.0 % 8),
            ],
        ),
        old(buf).wf() ==> final (buf).wf(),
{
    emit_rex(buf, true, dest.msb(), 0, src.msb());
    emit_op(buf, 0x63);
    emit_modrm(buf, 0b11, dest.and7(), src.and7());
    assert(final (buf).data@ =~= old(buf).data@ + seq![
        rex_byte(true, dest.0 / 8, 0, src.0 / 8),
        0x63u8,
        modrm_byte(0b11, dest.0 % 8, src.0 % 8),
    ]);
}

pub open spec fn movzx_byte_bytes(x64: u8, src: Reg, dest: Reg) -> Seq<u8> {
    opt_rex(
        x64 != 0 || src.0 > 3 || src.0 / 8 != 0 || dest.0 / 8 != 0,
        x64 != 0,
        dest.0 / 8,
        0,
        src.0 / 8,
    ) + seq![0x0Fu8, 0xB6u8, modrm_byte(0b11, dest.0 % 8, src.0 % 8)]
}

pub fn emit_movzx_byte(buf: &mut MacroAssembler, x64: u8, src: Reg, dest: Reg)
    requires
        x64 == 0 || x64 == 1,
        src.valid(),
        dest.valid(),
    ensures
        MacroAssembler::emitted(*old(buf), *final (buf), movzx_byte_bytes(x64, src, dest)),
        old(buf).wf() ==> final (buf).wf(),
{
    if x64 != 0 || src.num() > 3 || src.msb() != 0 || dest.msb() != 0 {
        emit_rex(buf, x64 != 0, dest.msb(), 0, src.msb());
    }
    emit_op(buf, 0x0F);
    emit_op(buf, 0xB6);
    emit_modrm(buf, 0b11, dest.and7(), src.and7());
    assert(final (buf).data@ =~= old(buf).data@ + movzx_byte_bytes(x64, src, dest));
}

/// Bytes of a byte-width group-1 instruction with immediate (0x80 family).
pub open spec fn alub_imm_bytes(ext: u8, imm: u8, reg: Reg) -> Seq<u8> {
    opt_rex(byte_reg_needs_rex(reg), false, 0, 0, reg.0 / 8) + seq![
        0x80u8,
        modrm_byte(0b11, ext, reg.0 % 8),
        imm,
    ]
}

fn emit_alub_imm_reg(buf: &mut MacroAssembler, ext: u8, imm: u8, reg: Reg)
    requires
        ext < 8,
        reg.valid(),
    ensures
        MacroAssembler::emitted(*old(buf), *final (buf), alub_imm_bytes(ext, imm, reg)),
        old(buf).wf() ==> final (buf).wf(),
{
    if reg.num() > 3 {
        emit_rex(buf, false, 0, 0, reg.msb());
    }
    emit_op(buf, 0x80);
    emit_modrm(buf, 0b11, ext, reg.and7());
    emit_u8(buf, imm);
    assert(final (buf).data@ =~= old(buf).data@ + alub_imm_bytes(ext, imm, reg));
}

pub fn emit_xorb_imm_reg(buf: &mut MacroAssembler, imm: u8, reg: Reg)
    requires
        reg.valid(),
    ensures
        MacroAssembler::emitted(*old(buf), *final (buf), alub_imm_bytes(0b110, imm, reg)),
        old(buf).wf() ==> final (buf).wf(),
{
    emit_alub_imm_reg(buf, 0b110, imm, reg);
}

pub fn emit_andb_imm_reg(buf: &mut MacroAssembler, imm: u8, reg: Reg)
    requires
        reg.valid(),
    ensures
        MacroAssembler::emitted(*old(buf), *final (buf), alub_imm_bytes(0b100, imm, reg)),
        old(buf).wf() ==> final (buf).wf(),
{
    emit_alub_imm_reg(buf, 0b100, imm, reg);
}

/// Bytes of cmp with an immediate against a register, for each machine mode:
/// byte compares use the 0x80 form, wider ones the sign-extended 0x83 form
/// where the immediate fits and the long 0x81 form otherwise.
pub open spec fn cmp_imm_reg_bytes(mode: crate::cpu::MachineMode, imm: i32, reg: Reg) -> Seq<u8> {
    if mode == crate::cpu::MachineMode::Int8 {
        opt_rex(byte_reg_needs_rex(reg), false, 0, 0, reg.0 / 8) + seq![
            0x80u8,
            modrm_byte(0b11, 0b111, reg.0 % 8),
            byte_of(imm),
        ]
    } else {
        let w = mode == crate::cpu::MachineMode::Int64 || mode == crate::cpu::MachineMode::Ptr;
        opt_rex(w || reg.0 / 8 != 0, w, 0, 0, reg.0 / 8) + (if -128 <= imm <= 127 {
            seq![0x83u8, modrm_byte(0b11, 0b111, reg.0 % 8), byte_of(imm)]
        } else {
            seq![0x81u8, modrm_byte(0b11, 0b111, reg.0 % 8)] + le32(imm32(imm))
        })
    }
}

pub fn emit_cmp_imm_reg(buf: &mut MacroAssembler, mode: crate::cpu::MachineMode, imm: i32, reg: Reg)
    requires
        mode != crate::cpu::MachineMode::Float32,
        mode != crate::cpu::MachineMode::Float64,
        mode == crate::cpu::MachineMode::Int8 ==> -128 <= imm <= 127,
        reg.valid(),
    ensures
        MacroAssembler::emitted(*old(buf), *final (buf), cmp_imm_reg_bytes(mode, imm, reg)),
        old(buf).wf() ==> final (buf).wf(),
{
    if mode.is_int8() {
        if reg.num() > 3 {
            emit_rex(buf, false, 0, 0, reg.msb());
        }
        emit_op(buf, 0x80);
        emit_modrm(buf, 0b11, 0b111, reg.and7());
        emit_u8_trunc(buf, imm);
    } else {
        let w = mode.is64();
        if w || reg.msb() != 0 {
            emit_rex(buf, w, 0, 0, reg.msb());
        }
        if fits_i8(imm) {
            emit_op(buf, 0x83);
            emit_modrm(buf, 0b11, 0b111, reg.and7());
            emit_u8_trunc(buf, imm);
        } else {
            emit_op(buf, 0x81);
            emit_modrm(buf, 0b11, 0b111, reg.and7());
            emit_u32_trunc(buf, imm);
        }
    }
    assert(final (buf).data@ =~= old(buf).data@ + cmp_imm_reg_bytes(mode, imm, reg));
}

/// The opcode byte of a cmp between memory and a register, by width.
pub open spec fn cmp_mem_opcode(mode: crate::cpu::MachineMode) -> u8 {
    if mode == crate::cpu::MachineMode::Int8 {
        0x38
    } else {
        0x39
    }
}

pub fn emit_cmp_mem_reg(
    buf: &mut MacroAssembler,
    mode: crate::cpu::MachineMode,
    base: Reg,
    disp: i32,
    rhs: Reg,
)
    requires
        mode != crate::cpu::MachineMode::Float32,
        mode != crate::cpu::MachineMode::Float64,
        base_valid(base),
        rhs.valid(),
    ensures
        MacroAssembler::emitted(
            *old(buf),
            *final (buf),
            mem_rr_bytes(
                mode == crate::cpu::MachineMode::Int64 || mode == crate::cpu::MachineMode::Ptr
                    || rhs.0 / 8 != 0 || base_msb(base) != 0 || (mode
                    == crate::cpu::MachineMode::Int8 && rhs.0 > 3),
                mode == crate::cpu::MachineMode::Int64 || mode == crate::cpu::MachineMode::Ptr,
                rhs,
                base,
                seq![cmp_mem_opcode(mode)],
                disp,
            ),
        ),
        old(buf).wf() ==> final (buf).wf(),
{
    let w = mode.is64();
    if w || rhs.msb() != 0 || base.msb() != 0 || (mode.is_int8() && rhs.num() > 3) {
        emit_rex(buf, w, rhs.msb(), 0, base.msb());
    }
    if mode.is_int8() {
        emit_op(buf, 0x38);
    } else {
        emit_op(buf, 0x39);
    }
    emit_membase(buf, base, disp, rhs.and7());
    assert(final (buf).data@ =~= old(buf).data@ + mem_rr_bytes(
        mode == crate::cpu::MachineMode::Int64 || mode == crate::cpu::MachineMode::Ptr || rhs.0 / 8
            != 0 || base_msb(base) != 0 || (mode == crate::cpu::MachineMode::Int8 && rhs.0 > 3),
        mode == crate::cpu::MachineMode::Int64 || mode == crate::cpu::MachineMode::Ptr,
        rhs,
        base,
        seq![cmp_mem_opcode(mode)],
        disp,
    ));
}

/// cmp [base + disp], imm with the 0x81/0x83 selection by immediate size.
pub open spec fn cmp_mem_imm_bytes(
    mode: crate::cpu::MachineMode,
    base: Reg,
    disp: i32,
    imm: i32,
) -> Seq<u8> {
    let w = mode == crate::cpu::MachineMode::Int64 || mode == crate::cpu::MachineMode::Ptr;
    if mode == crate::cpu::MachineMode::Int8 {
        opt_rex(base_msb(base) != 0, false, 0, 0, base_msb(base)) + seq![0x80u8] + membase_bytes(
            base,
            disp,
            0b111,
        ) + seq![byte_of(imm)]
    } else if -128 <= imm <= 127 {
        opt_rex(w || base_msb(base) != 0, w, 0, 0, base_msb(base)) + seq![0x83u8] + membase_bytes(
            base,
            disp,
            0b111,
        ) + seq![byte_of(imm)]
    } else {
        opt_rex(w || base_msb(base) != 0, w, 0, 0, base_msb(base)) + seq![0x81u8] + membase_bytes(
            base,
            disp,
            0b111,
        ) + le32(imm32(imm))
    }
}

pub fn emit_cmp_mem_imm(
    buf: &mut MacroAssembler,
    mode: crate::cpu::MachineMode,
    base: Reg,
    disp: i32,
    imm: i32,
)
    requires
        mode != crate::cpu::MachineMode::Float32,
        mode != crate::cpu::MachineMode::Float64,
        mode == crate::cpu::MachineMode::Int8 ==> -128 <= imm <= 127,
        base_valid(base),
    ensures
        MacroAssembler::emitted(*old(buf), *final (buf), cmp_mem_imm_bytes(mode, base, disp, imm)),
        old(buf).wf() ==> final (buf).wf(),
{
    let w = mode.is64();
    if mode.is_int8() {
        if base.msb() != 0 {
            emit_rex(buf, false, 0, 0, base.msb());
        }
        emit_op(buf, 0x80);
        emit_membase(buf, base, disp, 0b111);
        emit_u8_trunc(buf, imm);
    } else if fits_i8(imm) {
        if w || base.msb() != 0 {
            emit_rex(buf, w, 0, 0, base.msb());
        }
        emit_op(buf, 0x83);
        emit_membase(buf, base, disp, 0b111);
        emit_u8_trunc(buf, imm);
    } else {
        if w || base.msb() != 0 {
            emit_rex(buf, w, 0, 0, base.msb());
        }
        emit_op(buf, 0x81);
        emit_membase(buf, base, disp, 0b111);
        emit_u32_trunc(buf, imm);
    }
    assert(final (buf).data@ =~= old(buf).data@ + cmp_mem_imm_bytes(mode, base, disp, imm));
}

/// The two-bit scale field of a sib byte for an element size of 1, 2, 4 or 8.
pub open spec fn scale_bits(scale: i32) -> u8 {
    if scale == 1 {
        0
    } else if scale == 2 {
        1
    } else if scale == 4 {
        2
    } else {
        3
    }
}

/// The modrm tail of an instruction with a base+index*scale+displacement
/// operand: modrm byte selecting a sib, the sib byte, and a displacement
/// sized to fit (rbp and r13 as base force one).
pub open spec fn memindex_bytes(
    base: Reg,
    index: Reg,
    scale: i32,
    disp: i32,
    dest7: u8,
) -> Seq<u8> {
    let sib = sib_byte(scale_bits(scale), index.0 % 8, base.0 % 8);
    if disp == 0 && base.0 % 8 != 5 {
        seq![modrm_byte(0, dest7, 0b100), sib]
    } else if -128 <= disp <= 127 {
        seq![modrm_byte(1, dest7, 0b100), sib, byte_of(disp)]
    } else {
        seq![modrm_byte(2, dest7, 0b100), sib] + le32(imm32(disp))
    }
}

fn emit_memindex(buf: &mut MacroAssembler, base: Reg, index: Reg, scale: i32, disp: i32, dest7: u8)
    requires
        base.valid(),
        index.valid(),
        scale == 1 || scale == 2 || scale == 4 || scale == 8,
        dest7 < 8,
    ensures
        MacroAssembler::emitted(
            *old(buf),
            *final (buf),
            memindex_bytes(base, index, scale, disp, dest7),
        ),
        old(buf).wf() ==> final (buf).wf(),
{
    let bits: u8 = if scale == 1 {
        0
    } else if scale == 2 {
        1
    } else if scale == 4 {
        2
    } else {
        3
    };
    if disp == 0 && base.and7() != 5 {
        emit_modrm(buf, 0, dest7, 0b100);
        emit_sib(buf, bits, index.and7(), base.and7());
    } else if fits_i8(disp) {
        emit_modrm(buf, 1, dest7, 0b100);
        emit_sib(buf, bits, index.and7(), base.and7());
        emit_u8_trunc(buf, disp);
    } else {
        emit_modrm(buf, 2, dest7, 0b100);
        emit_sib(buf, bits, index.and7(), base.and7());
        emit_u32_trunc(buf, disp);
    }
    assert(final (buf).data@ =~= old(buf).data@ + memindex_bytes(base, index, scale, disp, dest7));
}

/// Bytes of a load or store with an indexed operand: optional rex with the
/// index extension bit, opcode bytes, then the memindex tail.
pub open spec fn memindex_rr_bytes(
    need_rex: bool,
    w: bool,
    reg: Reg,
    base: Reg,
    index: Reg,
    scale: i32,
    opcodes: Seq<u8>,
    disp: i32,
) -> Seq<u8> {
    opt_rex(need_rex, w, reg.0 / 8, index.0 / 8, base.0 / 8) + opcodes + memindex_bytes(
        base,
        index,
        scale,
        disp,
        reg.0 % 8,
    )
}

pub open spec fn wide_mode(mode: crate::cpu::MachineMode) -> bool {
    mode == crate::cpu::MachineMode::Int64 || mode == crate::cpu::MachineMode::Ptr
}

pub fn emit_mov_memindex_reg(
    buf: &mut MacroAssembler,
    mode: crate::cpu::MachineMode,
    base: Reg,
    index: Reg,
    scale: i32,
    disp: i32,
    dest: Reg,
)
    requires
        mode == crate::cpu::MachineMode::Int32 || wide_mode(mode),
        base.valid(),
        index.valid(),
        scale == 1 || scale == 2 || scale == 4 || scale == 8,
        dest.valid(),
    ensures
        MacroAssembler::emitted(
            *old(buf),
            *final (buf),
            memindex_rr_bytes(
                wide_mode(mode) || dest.0 / 8 != 0 || index.0 / 8 != 0 || base.0 / 8 != 0,
                wide_mode(mode),
                dest,
                base,
                index,
                scale,
                seq![0x8Bu8],
                disp,
            ),
        ),
        old(buf).wf() ==> final (buf).wf(),
{
    let w = mode.is64();
    if w || dest.msb() != 0 || index.msb() != 0 || base.msb() != 0 {
        emit_rex(buf, w, dest.msb(), index.msb(), base.msb());
    }
    emit_op(buf, 0x8B);
    emit_memindex(buf, base, index, scale, disp, dest.and7());
    assert(final (buf).data@ =~= old(buf).data@ + memindex_rr_bytes(
        wide_mode(mode) || dest.0 / 8 != 0 || index.0 / 8 != 0 || base.0 / 8 != 0,
        wide_mode(mode),
        dest,
        base,
        index,
        scale,
        seq![0x8Bu8],
        disp,
    ));
}

/// The opcode of a register-to-memory move, by width.
pub open spec fn mov_store_opcode(mode: crate::cpu::MachineMode) -> u8 {
    if mode == crate::cpu::MachineMode::Int8 {
        0x88
    } else {
        0x89
    }
}

#[verifier::rlimit(50)]
pub fn emit_mov_reg_memindex(
    buf: &mut MacroAssembler,
    mode: crate::cpu::MachineMode,
    src: Reg,
    base: Reg,
    index: Reg,
    scale: i32,
    disp: i32,
)
    requires
        mode != crate::cpu::MachineMode::Float32,
        mode != crate::cpu::MachineMode::Float64,
        base.valid(),
        index.valid(),
        scale == 1 || scale == 2 || scale == 4 || scale == 8,
        src.valid(),
    ensures
        MacroAssembler::emitted(
            *old(buf),
            *final (buf),
            memindex_rr_bytes(
                wide_mode(mode) || src.0 / 8 != 0 || index.0 / 8 != 0 || base.0 / 8 != 0 || (mode
                    == crate::cpu::MachineMode::Int8 && src.0 > 3),
                wide_mode(mode),
                src,
                base,
                index,
                scale,
                seq![mov_store_opcode(mode)],
                disp,
            ),
        ),
        old(buf).wf() ==> final (buf).wf(),
{
    let w = mode.is64();
    if w || src.msb() != 0 || index.msb() != 0 || base.msb() != 0 || (mode.is_int8() && src.num()
        > 3) {
        emit_rex(buf, w, src.msb(), index.msb(), base.msb());
    }
    if mode.is_int8() {
        emit_op(buf, 0x88);
    } else {
        emit_op(buf, 0x89);
    }
    emit_memindex(buf, base, index, scale, disp, src.and7());
    assert(final (buf).data@ =~= old(buf).data@ + memindex_rr_bytes(
        wide_mode(mode) || src.0 / 8 != 0 || index.0 / 8 != 0 || base.0 / 8 != 0 || (mode
            == crate::cpu::MachineMode::Int8 && src.0 > 3),
        wide_mode(mode),
        src,
        base,
        index,
        scale,
        seq![mov_store_opcode(mode)],
        disp,
    ));
}

pub fn emit_movzx_memindex_byte_reg(
    buf: &mut MacroAssembler,
    x64: u8,
    base: Reg,
    index: Reg,
    disp: i32,
    dest: Reg,
)
    requires
        x64 == 0 || x64 == 1,
        base.valid(),
        index.valid(),
        dest.valid(),
    ensures
        MacroAssembler::emitted(
            *old(buf),
            *final (buf),
            memindex_rr_bytes(
                x64 != 0 || dest.0 / 8 != 0 || index.0 / 8 != 0 || base.0 / 8 != 0,
                x64 != 0,
                dest,
                base,
                index,
                1,
                seq![0x0Fu8, 0xB6u8],
                disp,
            ),
        ),
        old(buf).wf() ==> final (buf).wf(),
{
    if x64 != 0 || dest.msb() != 0 || index.msb() != 0 || base.msb() != 0 {
        emit_rex(buf, x64 != 0, dest.msb(), index.msb(), base.msb());
    }
    emit_op(buf, 0x0F);
    emit_op(buf, 0xB6);
    emit_memindex(buf, base, index, 1, disp, dest.and7());
    assert(final (buf).data@ =~= old(buf).data@ + memindex_rr_bytes(
        x64 != 0 || dest.0 / 8 != 0 || index.0 / 8 != 0 || base.0 / 8 != 0,
        x64 != 0,
        dest,
        base,
        index,
        1,
        seq![0x0Fu8, 0xB6u8],
        disp,
    ));
}

#[verifier::rlimit(50)]
pub fn emit_cmp_memindex_reg(
    buf: &mut MacroAssembler,
    mode: crate::cpu::MachineMode,
    base: Reg,
    index: Reg,
    scale: i32,
    disp: i32,
    rhs: Reg,
)
    requires
        mode != crate::cpu::MachineMode::Float32,
        mode != crate::cpu::MachineMode::Float64,
        base.valid(),
        index.valid(),
        scale == 1 || scale == 2 || scale == 4 || scale == 8,
        rhs.valid(),
    ensures
        MacroAssembler::emitted(
            *old(buf),
            *final (buf),
            memindex_rr_bytes(
                wide_mode(mode) || rhs.0 / 8 != 0 || index.0 / 8 != 0 || base.0 / 8 != 0 || (mode
                    == crate::cpu::MachineMode::Int8 && rhs.0 > 3),
                wide_mode(mode),
                rhs,
                base,
                index,
                scale,
                seq![cmp_mem_opcode(mode)],
                disp,
            ),
        ),
        old(buf).wf() ==> final (buf).wf(),
{
    let w = mode.is64();
    if w || rhs.msb() != 0 || index.msb() != 0 || base.msb() != 0 || (mode.is_int8() && rhs.num()
        > 3) {
        emit_rex(buf, w, rhs.msb(), index.msb(), base.msb());
    }
    if mode.is_int8() {
        emit_op(buf, 0x38);
    } else {
        emit_op(buf, 0x39);
    }
    emit_memindex(buf, base, index, scale, disp, rhs.and7());
    assert(final (buf).data@ =~= old(buf).data@ + memindex_rr_bytes(
        wide_mode(mode) || rhs.0 / 8 != 0 || index.0 / 8 != 0 || base.0 / 8 != 0 || (mode
            == crate::cpu::MachineMode::Int8 && rhs.0 > 3),
        wide_mode(mode),
        rhs,
        base,
        index,
        scale,
        seq![cmp_mem_opcode(mode)],
        disp,
    ));
}

/// The opcode byte (after 0x0f) of a conditional move.
pub open spec fn cmov_opcode(cond: CondCode) -> u8 {
    (jcc_opcode(cond) - 0x40) as u8
}

pub open spec fn cmov_bytes(x64: u8, dest: Reg, src: Reg, cond: CondCode) -> Seq<u8> {
    opt_rex(
        x64 != 0 || src.0 / 8 != 0 || dest.0 / 8 != 0,
        x64 != 0,
        dest.0 / 8,
        0,
        src.0 / 8,
    ) + seq![0x0Fu8, cmov_opcode(cond), modrm_byte(0b11, dest.0 % 8, src.0 % 8)]
}

pub fn emit_cmov(buf: &mut MacroAssembler, x64: u8, dest: Reg, src: Reg, cond: CondCode)
    requires
        x64 == 0 || x64 == 1,
        src.valid(),
        dest.valid(),
    ensures
        MacroAssembler::emitted(*old(buf), *final (buf), cmov_bytes(x64, dest, src, cond)),
        old(buf).wf() ==> final (buf).wf(),
{
    let opcode: u8 = match cond {
        CondCode::Zero | CondCode::Equal => 0x44,
        CondCode::NonZero | CondCode::NotEqual => 0x45,
        CondCode::Greater => 0x4F,
        CondCode::GreaterEq => 0x4D,
        CondCode::Less => 0x4C,
        CondCode::LessEq => 0x4E,
        CondCode::UnsignedGreater => 0x47,
        CondCode::UnsignedGreaterEq => 0x43,
        CondCode::UnsignedLess => 0x42,
        CondCode::UnsignedLessEq => 0x46,
    };
    if x64 != 0 || src.msb() != 0 || dest.msb() != 0 {
        emit_rex(buf, x64 != 0, dest.msb(), 0, src.msb());
    }
    emit_op(buf, 0x0F);
    emit_op(buf, opcode);
    emit_modrm(buf, 0b11, dest.and7(), src.and7());
    assert(final (buf).data@ =~= old(buf).data@ + cmov_bytes(x64, dest, src, cond));
}

/// Bytes of an sse instruction between two xmm registers: optional mandatory
/// prefix, optional rex, 0x0f escape, opcode, modrm.
pub open spec fn sse_rr_bytes(prefix: Seq<u8>, op: u8, dest: FReg, src: FReg) -> Seq<u8> {
    prefix + opt_rex(dest.0 / 8 != 0 || src.0 / 8 != 0, false, dest.0 / 8, 0, src.0 / 8) + seq![
        0x0Fu8,
        op,
        modrm_byte(0b11, dest.0 % 8, src.0 % 8),
    ]
}

fn emit_sse_rr(buf: &mut MacroAssembler, has_prefix: bool, prefix: u8, op: u8, dest: FReg, src: FReg)
    requires
        dest.valid(),
        src.valid(),
    ensures
        MacroAssembler::emitted(
            *old(buf),
            *final (buf),
            sse_rr_bytes(
                if has_prefix {
                    seq![prefix]
                } else {
                    Seq::<u8>::empty()
                },
                op,
                dest,
                src,
            ),
        ),
        old(buf).wf() ==> final (buf).wf(),
{
    if has_prefix {
        emit_op(buf, prefix);
    }
    if dest.msb() != 0 || src.msb() != 0 {
        emit_rex(buf, false, dest.msb(), 0, src.msb());
    }
    emit_op(buf, 0x0F);
    emit_op(buf, op);
    emit_modrm(buf, 0b11, dest.and7(), src.and7());
    assert(final (buf).data@ =~= old(buf).data@ + sse_rr_bytes(
        if has_prefix {
            seq![prefix]
        } else {
            Seq::<u8>::empty()
        },
        op,
        dest,
        src,
    ));
}

/// An sse instruction with a mandatory prefix between two xmm registers.
pub fn emit_sse_rr_pub(buf: &mut MacroAssembler, prefix: u8, op: u8, dest: FReg, src: FReg)
    requires
        dest.valid(),
        src.valid(),
    ensures
        MacroAssembler::emitted(
            *old(buf),
            *final (buf),
            sse_rr_bytes(seq![prefix], op, dest, src),
        ),
        old(buf).wf() ==> final (buf).wf(),
{
    emit_sse_rr(buf, true, prefix, op, dest, src);
}

pub fn movss(buf: &mut MacroAssembler, dest: FReg, src: FReg)
    requires
        dest.valid(),
        src.valid(),
    ensures
        MacroAssembler::emitted(
            *old(buf),
            *final (buf),
            sse_rr_bytes(seq![0xF3u8], 0x10, dest, src),
        ),
        old(buf).wf() ==> final (buf).wf(),
{
    emit_sse_rr(buf, true, 0xF3, 0x10, dest, src);
}

pub fn movsd(buf: &mut MacroAssembler, dest: FReg, src: FReg)
    requires
        dest.valid(),
        src.valid(),
    ensures
        MacroAssembler::emitted(
            *old(buf),
            *final (buf),
            sse_rr_bytes(seq![0xF2u8], 0x10, dest, src),
        ),
        old(buf).wf() ==> final (buf).wf(),
{
    emit_sse_rr(buf, true, 0xF2, 0x10, dest, src);
}

pub fn addss(buf: &mut MacroAssembler, dest: FReg, src: FReg)
    requires
        dest.valid(),
        src.valid(),
    ensures
        MacroAssembler::emitted(
            *old(buf),
            *final (buf),
            sse_rr_bytes(seq![0xF3u8], 0x58, dest, src),
        ),
        old(buf).wf() ==> final (buf).wf(),
{
    emit_sse_rr(buf, true, 0xF3, 0x58, dest, src);
}

pub fn addsd(buf: &mut MacroAssembler, dest: FReg, src: FReg)
    requires
        dest.valid(),
        src.valid(),
    ensures
        MacroAssembler::emitted(
            *old(buf),
            *final (buf),
            sse_rr_bytes(seq![0xF2u8], 0x58, dest, src),
        ),
        old(buf).wf() ==> final (buf).wf(),
{
    emit_sse_rr(buf, true, 0xF2, 0x58, dest, src);
}

pub fn subss(buf: &mut MacroAssembler, dest: FReg, src: FReg)
    requires
        dest.valid(),
        src.valid(),
    ensures
        MacroAssembler::emitted(
            *old(buf),
            *final (buf),
            sse_rr_bytes(seq![0xF3u8], 0x5C, dest, src),
        ),
        old(buf).wf() ==> final (buf).wf(),
{
    emit_sse_rr(buf, true, 0xF3, 0x5C, dest, src);
}

pub fn subsd(buf: &mut MacroAssembler, dest: FReg, src: FReg)
    requires
        dest.valid(),
        src.valid(),
    ensures
        MacroAssembler::emitted(
            *old(buf),
            *final (buf),
            sse_rr_bytes(seq![0xF2u8], 0x5C, dest, src),
        ),
        old(buf).wf() ==> final (buf).wf(),
{
    emit_sse_rr(buf, true, 0xF2, 0x5C, dest, src);
}

pub fn mulss(buf: &mut MacroAssembler, dest: FReg, src: FReg)
    requires
        dest.valid(),
        src.valid(),
    ensures
        MacroAssembler::emitted(
            *old(buf),
            *final (buf),
            sse_rr_bytes(seq![0xF3u8], 0x59, dest, src),
        ),
        old(buf).wf() ==> final (buf).wf(),
{
    emit_sse_rr(buf, true, 0xF3, 0x59, dest, src);
}

pub fn mulsd(buf: &mut MacroAssembler, dest: FReg, src: FReg)
    requires
        dest.valid(),
        src.valid(),
    ensures
        MacroAssembler::emitted(
            *old(buf),
            *final (buf),
            sse_rr_bytes(seq![0xF2u8], 0x59, dest, src),
        ),
        old(buf).wf() ==> final (buf).wf(),
{
    emit_sse_rr(buf, true, 0xF2, 0x59, dest, src);
}

pub fn divss(buf: &mut MacroAssembler, dest: FReg, src: FReg)
    requires
        dest.valid(),
        src.valid(),
    ensures
        MacroAssembler::emitted(
            *old(buf),
            *final (buf),
            sse_rr_bytes(seq![0xF3u8], 0x5E, dest, src),
        ),
        old(buf).wf() ==> final (buf).wf(),
{
    emit_sse_rr(buf, true, 0xF3, 0x5E, dest, src);
}

pub fn divsd(buf: &mut MacroAssembler, dest: FReg, src: FReg)
    requires
        dest.valid(),
        src.valid(),
    ensures
        MacroAssembler::emitted(
            *old(buf),
            *final (buf),
            sse_rr_bytes(seq![0xF2u8], 0x5E, dest, src),
        ),
        old(buf).wf() ==> final (buf).wf(),
{
    emit_sse_rr(buf, true, 0xF2, 0x5E, dest, src);
}

pub fn sqrtss(buf: &mut MacroAssembler, dest: FReg, src: FReg)
    requires
        dest.valid(),
        src.valid(),
    ensures
        MacroAssembler::emitted(
            *old(buf),
            *final (buf),
            sse_rr_bytes(seq![0xF3u8], 0x51, dest, src),
        ),
        old(buf).wf() ==> final (buf).wf(),
{
    emit_sse_rr(buf, true, 0xF3, 0x51, dest, src);
}

pub fn sqrtsd(buf: &mut MacroAssembler, dest: FReg, src: FReg)
    requires
        dest.valid(),
        src.valid(),
    ensures
        MacroAssembler::emitted(
            *old(buf),
            *final (buf),
            sse_rr_bytes(seq![0xF2u8], 0x51, dest, src),
        ),
        old(buf).wf() ==> final (buf).wf(),
{
    emit_sse_rr(buf, true, 0xF2, 0x51, dest, src);
}

pub fn ucomiss(buf: &mut MacroAssembler, dest: FReg, src: FReg)
    requires
        dest.valid(),
        src.valid(),
    ensures
        MacroAssembler::emitted(
            *old(buf),
            *final (buf),
            sse_rr_bytes(Seq::<u8>::empty(), 0x2E, dest, src),
        ),
        old(buf).wf() ==> final (buf).wf(),
{
    emit_sse_rr(buf, false, 0, 0x2E, dest, src);
}

pub fn ucomisd(buf: &mut MacroAssembler, dest: FReg, src: FReg)
    requires
        dest.valid(),
        src.valid(),
    ensures
        MacroAssembler::emitted(
            *old(buf),
            *final (buf),
            sse_rr_bytes(seq![0x66u8], 0x2E, dest, src),
        ),
        old(buf).wf() ==> final (buf).wf(),
{
    emit_sse_rr(buf, true, 0x66, 0x2E, dest, src);
}

/// Bytes of an sse load or store with a base+displacement operand.
pub open spec fn sse_mem_bytes(prefix: u8, op: u8, reg: FReg, base: Reg, disp: i32) -> Seq<u8> {
    seq![prefix] + opt_rex(
        reg.0 / 8 != 0 || base_msb(base) != 0,
        false,
        reg.0 / 8,
        0,
        base_msb(base),
    ) + seq![0x0Fu8, op] + membase_bytes(base, disp, reg.0 % 8)
}

fn emit_sse_mem(buf: &mut MacroAssembler, prefix: u8, op: u8, reg: FReg, base: Reg, disp: i32)
    requires
        reg.valid(),
        base_valid(base),
    ensures
        MacroAssembler::emitted(*old(buf), *final (buf), sse_mem_bytes(prefix, op, reg, base, disp)),
        old(buf).wf() ==> final (buf).wf(),
{
    emit_op(buf, prefix);
    if reg.msb() != 0 || base.msb() != 0 {
        emit_rex(buf, false, reg.msb(), 0, base.msb());
    }
    emit_op(buf, 0x0F);
    emit_op(buf, op);
    emit_membase(buf, base, disp, reg.and7());
    assert(final (buf).data@ =~= old(buf).data@ + sse_mem_bytes(prefix, op, reg, base, disp));
}

pub fn movss_load(buf: &mut MacroAssembler, dest: FReg, base: Reg, disp: i32)
    requires
        dest.valid(),
        base_valid(base),
    ensures
        MacroAssembler::emitted(*old(buf), *final (buf), sse_mem_bytes(0xF3, 0x10, dest, base, disp)),
        old(buf).wf() ==> final (buf).wf(),
{
    emit_sse_mem(buf, 0xF3, 0x10, dest, base, disp);
}

pub fn movsd_load(buf: &mut MacroAssembler, dest: FReg, base: Reg, disp: i32)
    requires
        dest.valid(),
        base_valid(base),
    ensures
        MacroAssembler::emitted(*old(buf), *final (buf), sse_mem_bytes(0xF2, 0x10, dest, base, disp)),
        old(buf).wf() ==> final (buf).wf(),
{
    emit_sse_mem(buf, 0xF2, 0x10, dest, base, disp);
}

pub fn movss_store(buf: &mut MacroAssembler, base: Reg, disp: i32, src: FReg)
    requires
        src.valid(),
        base_valid(base),
    ensures
        MacroAssembler::emitted(*old(buf), *final (buf), sse_mem_bytes(0xF3, 0x11, src, base, disp)),
        old(buf).wf() ==> final (buf).wf(),
{
    emit_sse_mem(buf, 0xF3, 0x11, src, base, disp);
}

pub fn movsd_store(buf: &mut MacroAssembler, base: Reg, disp: i32, src: FReg)
    requires
        src.valid(),
        base_valid(base),
    ensures
        MacroAssembler::emitted(*old(buf), *final (buf), sse_mem_bytes(0xF2, 0x11, src, base, disp)),
        old(buf).wf() ==> final (buf).wf(),
{
    emit_sse_mem(buf, 0xF2, 0x11, src, base, disp);
}

/// jmp through a register (0xFF /4).
pub fn emit_jmp_reg(buf: &mut MacroAssembler, reg: Reg)
    requires
        reg.valid(),
    ensures
        MacroAssembler::emitted(
            *old(buf),
            *final (buf),
            opt_rex(reg.0 / 8 != 0, false, 0, 0, reg.0 / 8) + seq![
                0xFFu8,
                modrm_byte(0b11, 0b100, reg.0 % 8),
            ],
        ),
        old(buf).wf() ==> final (buf).wf(),
{
    if reg.msb() != 0 {
        emit_rex(buf, false, 0, 0, reg.msb());
    }
    emit_op(buf, 0xFF);
    emit_modrm(buf, 0b11, 0b100, reg.and7());
    assert(final (buf).data@ =~= old(buf).data@ + (opt_rex(reg.0 / 8 != 0, false, 0, 0, reg.0 / 8)
        + seq![0xFFu8, modrm_byte(0b11, 0b100, reg.0 % 8)]));
}

/// setp / setnp on the parity flag, used for nan-aware float compares.
pub open spec fn set_parity_bytes(parity: bool, reg: Reg) -> Seq<u8> {
    opt_rex(byte_reg_needs_rex(reg), false, 0, 0, reg.0 / 8) + seq![
        0x0Fu8,
        if parity {
            0x9Au8
        } else {
            0x9Bu8
        },
        modrm_byte(0b11, 0, reg.0 % 8),
    ]
}

pub fn emit_set_parity(buf: &mut MacroAssembler, parity: bool, reg: Reg)
    requires
        reg.valid(),
    ensures
        MacroAssembler::emitted(*old(buf), *final (buf), set_parity_bytes(parity, reg)),
        old(buf).wf() ==> final (buf).wf(),
{
    if reg.num() > 3 {
        emit_rex(buf, false, 0, 0, reg.msb());
    }
    emit_op(buf, 0x0F);
    emit_op(
        buf,
        if parity {
            0x9A
        } else {
            0x9B
        },
    );
    emit_modrm(buf, 0b11, 0, reg.and7());
    assert(final (buf).data@ =~= old(buf).data@ + set_parity_bytes(parity, reg));
}

} // verus!
