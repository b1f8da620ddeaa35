use dora::cpu::{r10, r11, r12, r15, r8, r9, rax, rbx, rcx, rdx, rsp};
use dora::cpu::{xmm0, xmm3, xmm8};
use dora::encode::{
    cvttsd2si, cvttss2si, emit_jcc, emit_jmp, emit_sar_reg_cl, emit_sarx, emit_shl_reg_cl,
    emit_shll_reg, emit_shlq_reg, emit_shr_reg_cl, emit_shr_reg_imm, emit_shrx, emit_shlx,
    fits_i8,
};
use dora::masm::{CondCode, MacroAssembler};

#[test]
fn test_fits8() {
    assert!(fits_i8(1));
    assert!(fits_i8(0));
    assert!(fits_i8(-1));
    assert!(fits_i8(127));
    assert!(fits_i8(-128));

    assert!(!fits_i8(128));
    assert!(!fits_i8(-129));
}

#[test]
fn test_shlq_reg() {
    let mut buf = MacroAssembler::new();
    emit_shlq_reg(&mut buf, 2, rax());
    assert_eq!(vec![0x48, 0xC1, 0xE0, 0x02], buf.data());

    let mut buf = MacroAssembler::new();
    emit_shlq_reg(&mut buf, 7, r12());
    assert_eq!(vec![0x49, 0xC1, 0xE4, 0x07], buf.data());
}

#[test]
fn test_shll_reg() {
    let mut buf = MacroAssembler::new();
    emit_shll_reg(&mut buf, 2, rax());
    assert_eq!(vec![0xC1, 0xE0, 0x02], buf.data());

    let mut buf = MacroAssembler::new();
    emit_shll_reg(&mut buf, 7, r12());
    assert_eq!(vec![0x41, 0xC1, 0xE4, 0x07], buf.data());
}

#[test]
fn test_emit_jcc_zero() {
    let mut buf = MacroAssembler::new();
    let lbl = buf.create_label();
    emit_jcc(&mut buf, CondCode::Zero, lbl);
    buf.nop();
    buf.bind_label(lbl);
    assert_eq!(vec![0x0f, 0x84, 1, 0, 0, 0, 0x90], buf.data());
}

#[test]
fn test_emit_jcc_non_zero() {
    let mut buf = MacroAssembler::new();
    let lbl = buf.create_label();
    emit_jcc(&mut buf, CondCode::NonZero, lbl);
    buf.nop();
    buf.bind_label(lbl);
    assert_eq!(vec![0x0f, 0x85, 1, 0, 0, 0, 0x90], buf.data());
}

#[test]
fn test_emit_jcc_greater() {
    let mut buf = MacroAssembler::new();
    let lbl = buf.create_label();
    emit_jcc(&mut buf, CondCode::Greater, lbl);
    buf.nop();
    buf.bind_label(lbl);
    assert_eq!(vec![0x0f, 0x8F, 1, 0, 0, 0, 0x90], buf.data());
}

#[test]
fn test_emit_jcc_greater_or_equal() {
    let mut buf = MacroAssembler::new();
    let lbl = buf.create_label();
    emit_jcc(&mut buf, CondCode::GreaterEq, lbl);
    buf.nop();
    buf.bind_label(lbl);
    assert_eq!(vec![0x0f, 0x8D, 1, 0, 0, 0, 0x90], buf.data());
}

#[test]
fn test_emit_jcc_less() {
    let mut buf = MacroAssembler::new();
    let lbl = buf.create_label();
    emit_jcc(&mut buf, CondCode::Less, lbl);
    buf.nop();
    buf.bind_label(lbl);
    assert_eq!(vec![0x0f, 0x8C, 1, 0, 0, 0, 0x90], buf.data());
}

#[test]
fn test_emit_jcc_less_or_equal() {
    let mut buf = MacroAssembler::new();
    let lbl = buf.create_label();
    emit_jcc(&mut buf, CondCode::LessEq, lbl);
    buf.nop();
    buf.bind_label(lbl);
    assert_eq!(vec![0x0f, 0x8E, 1, 0, 0, 0, 0x90], buf.data());
}

#[test]
fn test_emit_jcc_unsigned_greater() {
    let mut buf = MacroAssembler::new();
    let lbl = buf.create_label();
    emit_jcc(&mut buf, CondCode::UnsignedGreater, lbl);
    buf.nop();
    buf.bind_label(lbl);
    assert_eq!(vec![0x0f, 0x87, 1, 0, 0, 0, 0x90], buf.data());
}

#[test]
fn test_emit_jcc_unsigned_greater_or_equal() {
    let mut buf = MacroAssembler::new();
    let lbl = buf.create_label();
    emit_jcc(&mut buf, CondCode::UnsignedGreaterEq, lbl);
    buf.nop();
    buf.bind_label(lbl);
    assert_eq!(vec![0x0f, 0x83, 1, 0, 0, 0, 0x90], buf.data());
}

#[test]
fn test_emit_jcc_unsigned_less() {
    let mut buf = MacroAssembler::new();
    let lbl = buf.create_label();
    emit_jcc(&mut buf, CondCode::UnsignedLess, lbl);
    buf.nop();
    buf.bind_label(lbl);
    assert_eq!(vec![0x0f, 0x82, 1, 0, 0, 0, 0x90], buf.data());
}

#[test]
fn test_emit_jcc_unsigned_less_or_equal() {
    let mut buf = MacroAssembler::new();
    let lbl = buf.create_label();
    emit_jcc(&mut buf, CondCode::UnsignedLessEq, lbl);
    buf.nop();
    buf.bind_label(lbl);
    assert_eq!(vec![0x0f, 0x86, 1, 0, 0, 0, 0x90], buf.data());
}

#[test]
fn test_emit_jmp() {
    let mut buf = MacroAssembler::new();
    let lbl = buf.create_label();
    emit_jmp(&mut buf, lbl);
    buf.nop();
    buf.bind_label(lbl);
    assert_eq!(vec![0xe9, 1, 0, 0, 0, 0x90], buf.data());
}

#[test]
fn test_int_shlx() {
    let mut buf = MacroAssembler::new();
    emit_shlx(&mut buf, true, rax(), rdx(), rbx());
    assert_eq!(vec![0xC4, 0xE2, 0xE1, 0xF7, 0xC2], buf.data());

    let mut buf = MacroAssembler::new();
    emit_shlx(&mut buf, false, r8(), r9(), r10());
    assert_eq!(vec![0xC4, 0x42, 0x29, 0xF7, 0xC1], buf.data());
}

#[test]
fn test_int_shrx() {
    let mut buf = MacroAssembler::new();
    emit_shrx(&mut buf, true, rax(), rdx(), rbx());
    assert_eq!(vec![0xC4, 0xE2, 0xE3, 0xF7, 0xC2], buf.data());

    let mut buf = MacroAssembler::new();
    emit_shrx(&mut buf, false, r8(), r9(), r10());
    assert_eq!(vec![0xC4, 0x42, 0x2B, 0xF7, 0xC1], buf.data());
}

#[test]
fn test_int_sarx() {
    let mut buf = MacroAssembler::new();
    emit_sarx(&mut buf, true, rax(), rdx(), rbx());
    assert_eq!(vec![0xC4, 0xE2, 0xE2, 0xF7, 0xC2], buf.data());

    let mut buf = MacroAssembler::new();
    emit_sarx(&mut buf, false, r9(), r10(), r11());
    assert_eq!(vec![0xC4, 0x42, 0x22, 0xF7, 0xCA], buf.data());
}

#[test]
fn test_shl_reg_cl() {
    let mut buf = MacroAssembler::new();
    emit_shl_reg_cl(&mut buf, false, rax());
    assert_eq!(vec![0xD3, 0xE0], buf.data());

    let mut buf = MacroAssembler::new();
    emit_shl_reg_cl(&mut buf, false, r9());
    assert_eq!(vec![0x41, 0xD3, 0xE1], buf.data());

    let mut buf = MacroAssembler::new();
    emit_shl_reg_cl(&mut buf, true, rax());
    assert_eq!(vec![0x48, 0xD3, 0xE0], buf.data());

    let mut buf = MacroAssembler::new();
    emit_shl_reg_cl(&mut buf, true, r9());
    assert_eq!(vec![0x49, 0xD3, 0xE1], buf.data());
}

#[test]
fn test_shr_reg_reg() {
    let mut buf = MacroAssembler::new();
    emit_shr_reg_cl(&mut buf, false, rax());
    assert_eq!(vec![0xD3, 0xE8], buf.data());

    let mut buf = MacroAssembler::new();
    emit_shr_reg_cl(&mut buf, false, r9());
    assert_eq!(vec![0x41, 0xD3, 0xE9], buf.data());

    let mut buf = MacroAssembler::new();
    emit_shr_reg_cl(&mut buf, true, rax());
    assert_eq!(vec![0x48, 0xD3, 0xE8], buf.data());

    let mut buf = MacroAssembler::new();
    emit_shr_reg_cl(&mut buf, true, r9());
    assert_eq!(vec![0x49, 0xD3, 0xE9], buf.data());
}

#[test]
fn test_shr_reg_imm() {
    let mut buf = MacroAssembler::new();
    emit_shr_reg_imm(&mut buf, true, rax(), 2);
    assert_eq!(vec![0x48, 0xC1, 0xE8, 0x02], buf.data());

    let mut buf = MacroAssembler::new();
    emit_shr_reg_imm(&mut buf, true, rax(), 9);
    assert_eq!(vec![0x48, 0xC1, 0xE8, 0x09], buf.data());

    let mut buf = MacroAssembler::new();
    emit_shr_reg_imm(&mut buf, true, r10(), 9);
    assert_eq!(vec![0x49, 0xC1, 0xEA, 0x09], buf.data());

    let mut buf = MacroAssembler::new();
    emit_shr_reg_imm(&mut buf, true, r15(), 9);
    assert_eq!(vec![0x49, 0xC1, 0xEF, 0x09], buf.data());

    let mut buf = MacroAssembler::new();
    emit_shr_reg_imm(&mut buf, false, rax(), 9);
    assert_eq!(vec![0xC1, 0xE8, 0x09], buf.data());

    let mut buf = MacroAssembler::new();
    emit_shr_reg_imm(&mut buf, false, r9(), 9);
    assert_eq!(vec![0x41, 0xC1, 0xE9, 0x09], buf.data());

    let mut buf = MacroAssembler::new();
    emit_shr_reg_imm(&mut buf, false, rax(), 1);
    assert_eq!(vec![0xD1, 0xE8], buf.data());

    let mut buf = MacroAssembler::new();
    emit_shr_reg_imm(&mut buf, false, r9(), 1);
    assert_eq!(vec![0x41, 0xD1, 0xE9], buf.data());
}

#[test]
fn test_sar_reg_reg() {
    let mut buf = MacroAssembler::new();
    emit_sar_reg_cl(&mut buf, false, rax());
    assert_eq!(vec![0xD3, 0xF8], buf.data());

    let mut buf = MacroAssembler::new();
    emit_sar_reg_cl(&mut buf, false, r9());
    assert_eq!(vec![0x41, 0xD3, 0xF9], buf.data());

    let mut buf = MacroAssembler::new();
    emit_sar_reg_cl(&mut buf, true, rax());
    assert_eq!(vec![0x48, 0xD3, 0xF8], buf.data());

    let mut buf = MacroAssembler::new();
    emit_sar_reg_cl(&mut buf, true, r9());
    assert_eq!(vec![0x49, 0xD3, 0xF9], buf.data());
}

#[test]
fn test_cvttss2si() {
    let mut buf = MacroAssembler::new();
    cvttss2si(&mut buf, false, rcx(), xmm0());
    assert_eq!(vec![0xf3, 0x0f, 0x2c, 0xc8], buf.data());

    let mut buf = MacroAssembler::new();
    cvttss2si(&mut buf, false, r15(), xmm3());
    assert_eq!(vec![0xf3, 0x44, 0x0f, 0x2c, 0xfb], buf.data());

    let mut buf = MacroAssembler::new();
    cvttss2si(&mut buf, false, rsp(), xmm8());
    assert_eq!(vec![0xf3, 0x41, 0x0f, 0x2c, 0xe0], buf.data());

    let mut buf = MacroAssembler::new();
    cvttss2si(&mut buf, true, rcx(), xmm0());
    assert_eq!(vec![0xf3, 0x48, 0x0f, 0x2c, 0xc8], buf.data());

    let mut buf = MacroAssembler::new();
    cvttss2si(&mut buf, true, r15(), xmm3());
    assert_eq!(vec![0xf3, 0x4c, 0x0f, 0x2c, 0xfb], buf.data());

    let mut buf = MacroAssembler::new();
    cvttss2si(&mut buf, true, rsp(), xmm8());
    assert_eq!(vec![0xf3, 0x49, 0x0f, 0x2c, 0xe0], buf.data());
}

#[test]
fn test_cvttsd2si() {
    let mut buf = MacroAssembler::new();
    cvttsd2si(&mut buf, false, rcx(), xmm0());
    assert_eq!(vec![0xf2, 0x0f, 0x2c, 0xc8], buf.data());

    let mut buf = MacroAssembler::new();
    cvttsd2si(&mut buf, false, r15(), xmm3());
    assert_eq!(vec![0xf2, 0x44, 0x0f, 0x2c, 0xfb], buf.data());

    let mut buf = MacroAssembler::new();
    cvttsd2si(&mut buf, false, rsp(), xmm8());
    assert_eq!(vec![0xf2, 0x41, 0x0f, 0x2c, 0xe0], buf.data());

    let mut buf = MacroAssembler::new();
    cvttsd2si(&mut buf, true, rcx(), xmm0());
    assert_eq!(vec![0xf2, 0x48, 0x0f, 0x2c, 0xc8], buf.data());

    let mut buf = MacroAssembler::new();
    cvttsd2si(&mut buf, true, r15(), xmm3());
    assert_eq!(vec![0xf2, 0x4c, 0x0f, 0x2c, 0xfb], buf.data());

    let mut buf = MacroAssembler::new();
    cvttsd2si(&mut buf, true, rsp(), xmm8());
    assert_eq!(vec![0xf2, 0x49, 0x0f, 0x2c, 0xe0], buf.data());
}
