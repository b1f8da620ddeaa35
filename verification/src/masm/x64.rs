use byteorder::ByteOrder;
use vstd::prelude::*;

use crate::cpu::{r10, rbp, rip, rsp, FReg, MachineMode, Reg};
use crate::encode as enc;
use crate::masm::le32;
use crate::bty::{BytecodeTypeArray, FctDefinitionId};
use crate::code::LazyCompilationSite;
use crate::masm::{Bailout, CondCode, ForwardJump, Label, MacroAssembler, Mem, Trap};
use crate::position::Position;

verus! {

/// Relies on `byteorder::LittleEndian::write_u32` (the `ByteOrder` impl for
/// `LittleEndian`): stores the four little-endian bytes of `value` at
/// `at .. at + 4`, leaving the rest of the buffer unchanged.
#[verifier::external_body]
pub(crate) fn write_u32_le_at(data: &mut Vec<u8>, at: usize, value: u32)
    requires
        at + 4 <= old(data).len(),
    ensures
        final (data)@.len() == old(data)@.len(),
        final (data)@.subrange(at as int, at + 4) == le32(value),
        forall|i: int|
            0 <= i < old(data)@.len() && !(at <= i < at + 4) ==> final (data)@[i] == old(
                data,
            )@[i],
{
    byteorder::LittleEndian::write_u32(&mut data[at..], value);
}

/// 64-bit rex.w flag of a machine mode, as the old emitters took it.
pub open spec fn w8(mode: MachineMode) -> u8 {
    if mode == MachineMode::Int64 || mode == MachineMode::Ptr {
        1
    } else {
        0
    }
}

/// The value of `v` reduced to its low 32 bits.
pub open spec fn low32_spec(v: i64) -> u32 {
    (v as int % 0x1_0000_0000) as u32
}

fn low32(v: i64) -> (r: u32)
    ensures
        r == low32_spec(v),
{
    let m: i64 = 0x1_0000_0000;
    let rem: i64 = v % m;
    if rem < 0 {
        proof {
            vstd::arithmetic::div_mod::lemma_mod_multiples_vanish(-1, m as int + rem, m as int);
            vstd::arithmetic::div_mod::lemma_small_mod((m + rem) as nat, m as nat);
        }
        (rem + m) as u32
    } else {
        proof {
            vstd::arithmetic::div_mod::lemma_small_mod(rem as nat, m as nat);
        }
        rem as u32
    }
}

impl MacroAssembler {
    /// Function entry: saves the frame pointer, establishes the new frame
    /// and reserves `stacksize` bytes of stack.
    pub fn prolog(&mut self, stacksize: i32)
        requires
            old(self).wf(),
        ensures
            final (self).wf(),
            MacroAssembler::emitted(*old(self), *final (self), MacroAssembler::prolog_bytes(stacksize)),
    {
        enc::emit_pushq_reg(self, rbp());
        enc::emit_mov_reg_reg(self, 1, rsp(), rbp());
        if stacksize > 0 {
            enc::emit_subq_imm_reg(self, stacksize, rsp());
        }
        assert(final (self).data@ =~= old(self).data@ + MacroAssembler::prolog_bytes(stacksize));
    }

    pub open spec fn prolog_bytes(stacksize: i32) -> Seq<u8> {
        enc::opt_rex(false, false, 0, 0, 0) + seq![0x55u8] + enc::alu_rr_bytes(1, 0x89, Reg(4), Reg(5)) + (
        if stacksize > 0 {
            enc::aluq_imm_bytes(0b101, stacksize, Reg(4))
        } else {
            Seq::<u8>::empty()
        })
    }

    /// Function exit: restores the stack pointer from the frame pointer,
    /// pops the saved frame pointer and returns; independent of the frame
    /// size the prolog reserved.
    pub fn epilog(&mut self)
        requires
            old(self).wf(),
        ensures
            final (self).wf(),
            MacroAssembler::emitted(*old(self), *final (self), MacroAssembler::epilog_bytes()),
    {
        enc::emit_mov_reg_reg(self, 1, rbp(), rsp());
        enc::emit_popq_reg(self, rbp());
        enc::emit_retq(self);
        assert(final (self).data@ =~= old(self).data@ + MacroAssembler::epilog_bytes());
    }

    /// mov rsp, rbp; pop rbp; ret.
    pub open spec fn epilog_bytes() -> Seq<u8> {
        enc::alu_rr_bytes(1, 0x89, Reg(5), Reg(4)) + seq![0x5du8, 0xC3u8]
    }

    /// The frame teardown alone, without the return; used before a tail
    /// jump.
    pub fn epilog_without_return(&mut self)
        requires
            old(self).wf(),
        ensures
            final (self).wf(),
            MacroAssembler::emitted(
                *old(self),
                *final (self),
                enc::alu_rr_bytes(1, 0x89, Reg(5), Reg(4)) + seq![0x5du8],
            ),
    {
        enc::emit_mov_reg_reg(self, 1, rbp(), rsp());
        enc::emit_popq_reg(self, rbp());
        assert(final (self).data@ =~= old(self).data@ + (enc::alu_rr_bytes(1, 0x89, Reg(5), Reg(4))
            + seq![0x5du8]));
    }

    /// Copies a register, at the width of `mode`.
    pub fn copy_reg(&mut self, mode: MachineMode, dest: Reg, src: Reg)
        requires
            old(self).wf(),
            !(mode == MachineMode::Float32 || mode == MachineMode::Float64),
            dest.valid(),
            src.valid(),
        ensures
            final (self).wf(),
            MacroAssembler::emitted(
                *old(self),
                *final (self),
                enc::alu_rr_bytes(w8(mode), 0x89, src, dest),
            ),
    {
        let x64: u8 = if mode.is64() {
            1
        } else {
            0
        };
        enc::emit_mov_reg_reg(self, x64, src, dest);
    }

    /// Copies an xmm register, at the width of `mode`.
    pub fn copy_freg(&mut self, mode: MachineMode, dest: FReg, src: FReg)
        requires
            old(self).wf(),
            (mode == MachineMode::Float32 || mode == MachineMode::Float64),
            dest.valid(),
            src.valid(),
        ensures
            final (self).wf(),
            MacroAssembler::emitted(
                *old(self),
                *final (self),
                enc::sse_rr_bytes(
                    seq![
                        if mode == MachineMode::Float32 {
                            0xF3u8
                        } else {
                            0xF2u8
                        },
                    ],
                    0x10,
                    dest,
                    src,
                ),
            ),
    {
        match mode {
            MachineMode::Float32 => enc::movss(self, dest, src),
            MachineMode::Float64 => enc::movsd(self, dest, src),
            _ => {
                proof {
                    assert(false);
                }
            },
        }
    }

    /// Sign-extends a 32-bit value into a 64-bit register.
    pub fn extend_int_long(&mut self, dest: Reg, src: Reg)
        requires
            old(self).wf(),
            dest.valid(),
            src.valid(),
        ensures
            final (self).wf(),
            MacroAssembler::emitted(
                *old(self),
                *final (self),
                seq![
                    enc::rex_byte(true, dest.0 / 8, 0, src.0 / 8),
                    0x63u8,
                    enc::modrm_byte(0b11, dest.0 % 8, src.0 % 8),
                ],
            ),
    {
        enc::emit_movsx(self, src, dest);
    }

    /// Zero-extends a byte into a register of the given width.
    pub fn extend_byte(&mut self, mode: MachineMode, dest: Reg, src: Reg)
        requires
            old(self).wf(),
            mode == MachineMode::Int32 || mode == MachineMode::Int64,
            dest.valid(),
            src.valid(),
        ensures
            final (self).wf(),
            MacroAssembler::emitted(
                *old(self),
                *final (self),
                enc::movzx_byte_bytes(
                    if mode == MachineMode::Int64 {
                        1
                    } else {
                        0
                    },
                    src,
                    dest,
                ),
            ),
    {
        let x64: u8 = match mode {
            MachineMode::Int32 => 0,
            MachineMode::Int64 => 1,
            _ => {
                proof {
                    assert(false);
                }
                0
            },
        };
        enc::emit_movzx_byte(self, x64, src, dest);
    }

    /// Loads the target of a call from the code's embedded constant pool,
    /// rip-relative: `disp` is the entry's displacement as handed out by
    /// `add_addr`.
    pub fn load_constpool(&mut self, dest: Reg, disp: i32)
        requires
            old(self).wf(),
            0 <= disp,
            disp + 7 <= i32::MAX,
            dest.valid(),
        ensures
            final (self).wf(),
            MacroAssembler::emitted(
                *old(self),
                *final (self),
                enc::mem_rr_bytes(true, true, dest, Reg(16), seq![0x8Bu8], (-(disp + 7)) as i32),
            ),
    {
        // the rip-relative load instruction itself has 7 bytes
        let disp = -(disp + 7);

        enc::emit_movq_memq_reg(self, rip(), disp, dest);
    }

    pub fn call_reg(&mut self, reg: Reg)
        requires
            old(self).wf(),
            reg.valid(),
        ensures
            final (self).wf(),
            MacroAssembler::emitted(
                *old(self),
                *final (self),
                enc::opt_rex(reg.0 / 8 != 0, false, 0, 0, reg.0 / 8) + seq![
                    0xFFu8,
                    enc::modrm_byte(0b11, 0b010, reg.0 % 8),
                ],
            ),
    {
        enc::emit_callq_reg(self, reg);
    }

    /// Emits an int3 breakpoint.
    pub fn debug(&mut self)
        requires
            old(self).wf(),
        ensures
            final (self).wf(),
            MacroAssembler::emitted(*old(self), *final (self), seq![0xCCu8]),
    {
        enc::emit_op(self, 0xCC);
    }

    /// Loads the immediate into a register at the width of `mode`; 64-bit
    /// immediates take the long form only when they do not fit 32 bits.
    pub fn load_int_const(&mut self, mode: MachineMode, dest: Reg, imm: i64)
        requires
            old(self).wf(),
            !(mode == MachineMode::Float32 || mode == MachineMode::Float64),
            dest.valid(),
        ensures
            final (self).wf(),
            MacroAssembler::emitted(
                *old(self),
                *final (self),
                MacroAssembler::load_int_const_bytes(mode, dest, imm),
            ),
    {
        match mode {
            MachineMode::Int8 | MachineMode::Int32 => {
                if dest.msb() != 0 {
                    enc::emit_rex(self, false, 0, 0, dest.msb());
                }
                enc::emit_op(self, 0xB8 + dest.and7());
                let w = low32(imm);
                self.emit_u32(w);
            },
            MachineMode::Int64 | MachineMode::Ptr => {
                if crate::mem::fits_i32(imm) {
                    enc::emit_movq_imm_reg(self, imm as i32, dest);
                    proof {
                        vstd::arithmetic::div_mod::lemma_small_mod(
                            (imm as int % 0x1_0000_0000) as nat,
                            0x1_0000_0000nat,
                        );
                    }
                } else {
                    enc::emit_movq_imm64_reg(self, imm, dest);
                }
            },
            _ => {
                proof {
                    assert(false);
                }
            },
        }
        assert(final (self).data@ =~= old(self).data@ + MacroAssembler::load_int_const_bytes(
            mode,
            dest,
            imm,
        ));
    }

    pub open spec fn load_int_const_bytes(mode: MachineMode, dest: Reg, imm: i64) -> Seq<u8> {
        if mode == MachineMode::Int8 || mode == MachineMode::Int32 {
            enc::opt_rex(dest.0 / 8 != 0, false, 0, 0, dest.0 / 8) + seq![(0xB8 + dest.0 % 8) as u8]
                + crate::masm::le32(low32_spec(imm))
        } else if i32::MIN <= imm <= i32::MAX {
            seq![
                enc::rex_byte(true, 0, 0, dest.0 / 8),
                0xC7u8,
                enc::modrm_byte(0b11, 0, dest.0 % 8),
            ] + crate::masm::le32(low32_spec(imm))
        } else {
            seq![enc::rex_byte(true, 0, 0, dest.0 / 8), (0xB8 + dest.0 % 8) as u8]
                + crate::masm::le64(enc::imm64(imm))
        }
    }

    /// Loads the null reference.
    pub fn load_nil(&mut self, dest: Reg)
        requires
            old(self).wf(),
            dest.valid(),
        ensures
            final (self).wf(),
            MacroAssembler::emitted(
                *old(self),
                *final (self),
                enc::opt_rex(dest.0 / 8 != 0, false, 0, 0, dest.0 / 8) + seq![(0xB8 + dest.0 % 8) as u8]
                    + crate::masm::le32(0),
            ),
    {
        enc::emit_movl_imm_reg(self, 0, dest);
        proof {
            vstd::arithmetic::div_mod::lemma_small_mod(0, 0x1_0000_0000nat);
        }
    }

    pub fn load_true(&mut self, dest: Reg)
        requires
            old(self).wf(),
            dest.valid(),
        ensures
            final (self).wf(),
            MacroAssembler::emitted(
                *old(self),
                *final (self),
                enc::opt_rex(dest.0 / 8 != 0, false, 0, 0, dest.0 / 8) + seq![(0xB8 + dest.0 % 8) as u8]
                    + crate::masm::le32(1),
            ),
    {
        enc::emit_movl_imm_reg(self, 1, dest);
        proof {
            vstd::arithmetic::div_mod::lemma_small_mod(1, 0x1_0000_0000nat);
        }
    }

    pub fn load_false(&mut self, dest: Reg)
        requires
            old(self).wf(),
            dest.valid(),
        ensures
            final (self).wf(),
            MacroAssembler::emitted(
                *old(self),
                *final (self),
                enc::opt_rex(dest.0 / 8 != 0, false, 0, 0, dest.0 / 8) + seq![(0xB8 + dest.0 % 8) as u8]
                    + crate::masm::le32(0),
            ),
    {
        enc::emit_movl_imm_reg(self, 0, dest);
        proof {
            vstd::arithmetic::div_mod::lemma_small_mod(0, 0x1_0000_0000nat);
        }
    }

    /// Reads the trap code from a fixed absolute slot; the emitted sequence
    /// faults on purpose and carries the code in its displacement.
    pub fn trap(&mut self, trap: Trap)
        requires
            old(self).wf(),
        ensures
            final (self).wf(),
            MacroAssembler::emitted(
                *old(self),
                *final (self),
                seq![
                    enc::rex_byte(true, 1, 0, 0),
                    0x8Bu8,
                    enc::modrm_byte(0, 2, 0b100),
                    enc::sib_byte(0, 0b100, 0b101),
                ] + crate::masm::le32(trap.code()),
            ),
    {
        let dest = r10();

        // mov r10, [trap code]
        enc::emit_rex(self, true, dest.msb(), 0, 0);
        enc::emit_op(self, 0x8b);
        enc::emit_modrm(self, 0, dest.and7(), 0b100);
        enc::emit_sib(self, 0, 0b100, 0b101);
        enc::emit_u32(self, trap.to_int());
        assert(final (self).data@ =~= old(self).data@ + (seq![
            enc::rex_byte(true, 1, 0, 0),
            0x8Bu8,
            enc::modrm_byte(0, 2, 0b100),
            enc::sib_byte(0, 0b100, 0b101),
        ] + crate::masm::le32(trap.code())));
    }
}

/// Bytes of a register-to-register move emitted only when needed.
pub open spec fn mov_if(c: bool, x64: u8, src: Reg, dest: Reg) -> Seq<u8> {
    if c {
        enc::alu_rr_bytes(x64, 0x89, src, dest)
    } else {
        Seq::<u8>::empty()
    }
}

impl MacroAssembler {
    /// Signed division, leaving the quotient in `dest`: traps DIV0 on a
    /// zero divisor and OVERFLOW on MIN / -1 before dividing.
    pub fn int_div(&mut self, mode: MachineMode, dest: Reg, lhs: Reg, rhs: Reg, pos: Position)
        requires
            old(self).wf(),
            mode == MachineMode::Int32 || mode == MachineMode::Int64,
            dest.valid(),
            lhs.valid(),
            rhs.valid(),
            lhs != Reg(0) ==> rhs != Reg(0),
            old(self).data@.len() + 64 <= 0xffff_ffff,
        ensures
            final (self).wf(),
            MacroAssembler::div_emitted(*old(self), *final (self), mode, dest, lhs, rhs, Reg(0), pos),
    {
        self.div_common(mode, dest, lhs, rhs, crate::cpu::rax(), pos);
    }

    /// Signed remainder, leaving it in `dest`, with the same traps.
    pub fn int_mod(&mut self, mode: MachineMode, dest: Reg, lhs: Reg, rhs: Reg, pos: Position)
        requires
            old(self).wf(),
            mode == MachineMode::Int32 || mode == MachineMode::Int64,
            dest.valid(),
            lhs.valid(),
            rhs.valid(),
            lhs != Reg(0) ==> rhs != Reg(0),
            old(self).data@.len() + 64 <= 0xffff_ffff,
        ensures
            final (self).wf(),
            MacroAssembler::div_emitted(*old(self), *final (self), mode, dest, lhs, rhs, Reg(2), pos),
    {
        self.div_common(mode, dest, lhs, rhs, crate::cpu::rdx(), pos);
    }

    /// The guard prefix of a division: test the divisor against zero with a
    /// DIV0 exit, then compare the dividend against MIN and the divisor
    /// against -1 with an OVERFLOW exit. The three displacement fields are
    /// placeholders until the labels are bound.
    pub open spec fn div_guard_bytes(mode: MachineMode, lhs: Reg, rhs: Reg) -> Seq<u8> {
        enc::alu_rr_bytes(w8(mode), 0x85, rhs, rhs) + seq![
            0x0fu8,
            enc::jcc_opcode(CondCode::Zero),
        ] + crate::masm::le32(0) + (if mode == MachineMode::Int64 {
            seq![enc::rex_byte(true, 0, 0, Reg(11).0 / 8), (0xB8 + Reg(11).0 % 8) as u8]
                + crate::masm::le64(enc::imm64(i64::MIN))
        } else {
            enc::opt_rex(Reg(11).0 / 8 != 0, false, 0, 0, Reg(11).0 / 8) + seq![
                (0xB8 + Reg(11).0 % 8) as u8,
            ] + crate::masm::le32(enc::imm32(i32::MIN))
        }) + enc::alu_rr_bytes(w8(mode), 0x39, lhs, Reg(11)) + seq![
            0x0fu8,
            enc::jcc_opcode(CondCode::NotEqual),
        ] + crate::masm::le32(0) + enc::cmp_imm_reg_bytes(mode, -1i32, rhs) + seq![
            0x0fu8,
            enc::jcc_opcode(CondCode::Equal),
        ] + crate::masm::le32(0)
    }

    /// The division itself: dividend into rax, sign-extend into rdx,
    /// divide, move the wanted half (rax or rdx) into `dest`.
    pub open spec fn div_core_bytes(
        mode: MachineMode,
        dest: Reg,
        lhs: Reg,
        rhs: Reg,
        result: Reg,
    ) -> Seq<u8> {
        mov_if(lhs != Reg(0), w8(mode), lhs, Reg(0)) + (if mode == MachineMode::Int64 {
            seq![enc::rex_byte(true, 0, 0, 0), 0x99u8]
        } else {
            seq![0x99u8]
        }) + enc::unary_rr_bytes(w8(mode), 0xF7, 0b111, rhs) + mov_if(
            dest != result,
            w8(mode),
            result,
            dest,
        )
    }

    /// What a guarded division leaves behind: the guard and core bytes,
    /// four fresh labels of which the division entry and the exit are
    /// bound, three pending forward jumps into the guards, and the two
    /// recorded trap exits.
    pub open spec fn div_emitted(
        pre: MacroAssembler,
        post: MacroAssembler,
        mode: MachineMode,
        dest: Reg,
        lhs: Reg,
        rhs: Reg,
        result: Reg,
        pos: Position,
    ) -> bool {
        let nl = pre.labels@.len() as int;
        let guard = MacroAssembler::div_guard_bytes(mode, lhs, rhs);
        let core = MacroAssembler::div_core_bytes(mode, dest, lhs, rhs, result);
        let base = pre.data@.len() as int;
        let test_len = enc::alu_rr_bytes(w8(mode), 0x85, rhs, rhs).len() as int;
        &&& post.data@ == pre.data@ + guard + core
        &&& post.labels@ == pre.labels@.push(None).push(None).push(None).push(None).update(
            nl + 2,
            Some((base + guard.len()) as usize),
        ).update(nl + 1, Some((base + guard.len() + core.len()) as usize))
        &&& post.bailouts@ == pre.bailouts@.push(
            Bailout { label: Label((nl + 0) as usize), trap: Trap::DIV0, pos },
        ).push(Bailout { label: Label((nl + 3) as usize), trap: Trap::OVERFLOW, pos })
        &&& post.jumps@ == pre.jumps@.push(
            ForwardJump { at: (base + test_len + 2) as usize, to: Label((nl + 0) as usize) },
        ).push(
            ForwardJump {
                at: (base + guard.len() - enc::cmp_imm_reg_bytes(mode, -1i32, rhs).len() - 10) as usize,
                to: Label((nl + 2) as usize),
            },
        ).push(ForwardJump { at: (base + guard.len() - 4) as usize, to: Label((nl + 3) as usize) })
        &&& post.dseg@ == pre.dseg@
        &&& post.lazy_compilation_sites@ == pre.lazy_compilation_sites@
    }

    #[verifier::rlimit(100)]
    fn div_common(
        &mut self,
        mode: MachineMode,
        dest: Reg,
        lhs: Reg,
        rhs: Reg,
        result: Reg,
        pos: Position,
    )
        requires
            old(self).wf(),
            mode == MachineMode::Int32 || mode == MachineMode::Int64,
            dest.valid(),
            lhs.valid(),
            rhs.valid(),
            result.valid(),
            lhs != Reg(0) ==> rhs != Reg(0),
            old(self).data@.len() + 64 <= 0xffff_ffff,
        ensures
            final (self).wf(),
            MacroAssembler::div_emitted(
                *old(self),
                *final (self),
                mode,
                dest,
                lhs,
                rhs,
                result,
                pos,
            ),
    {
        let x64: u8 = match mode {
            MachineMode::Int32 => 0,
            _ => 1,
        };
        let scratch = crate::cpu::r11();

        // divisor against zero
        enc::emit_alu_rr_pub(self, x64, 0x85, rhs, rhs);
        let lbl_zero = self.create_label();
        let lbl_done = self.create_label();
        let lbl_div = self.create_label();
        enc::emit_jcc(self, CondCode::Zero, lbl_zero);
        self.emit_bailout(lbl_zero, Trap::DIV0, pos);

        // dividend MIN with divisor -1
        let lbl_overflow = self.create_label();
        if x64 != 0 {
            enc::emit_movq_imm64_reg(self, i64::MIN, scratch);
        } else {
            enc::emit_movl_imm_reg(self, i32::MIN, scratch);
        }
        enc::emit_cmp_reg_reg(self, x64, lhs, scratch);
        enc::emit_jcc(self, CondCode::NotEqual, lbl_div);
        enc::emit_cmp_imm_reg(self, mode, -1, rhs);
        enc::emit_jcc(self, CondCode::Equal, lbl_overflow);
        self.emit_bailout(lbl_overflow, Trap::OVERFLOW, pos);

        self.bind_label(lbl_div);

        if lhs != crate::cpu::rax() {
            enc::emit_mov_reg_reg(self, x64, lhs, crate::cpu::rax());
        }
        if x64 != 0 {
            enc::emit_cqo(self);
        } else {
            enc::emit_cdq(self);
        }
        enc::emit_idiv_reg_reg(self, x64, rhs);
        if dest != result {
            enc::emit_mov_reg_reg(self, x64, result, dest);
        }
        self.bind_label(lbl_done);
        proof {
            assert(final (self).data@ =~= old(self).data@ + MacroAssembler::div_guard_bytes(
                mode,
                lhs,
                rhs,
            ) + MacroAssembler::div_core_bytes(mode, dest, lhs, rhs, result));
            assert(final (self).labels@ =~= old(self).labels@.push(None).push(None).push(
                None,
            ).push(None).update(
                old(self).labels@.len() as int + 2,
                Some(
                    (old(self).data@.len() + MacroAssembler::div_guard_bytes(
                        mode,
                        lhs,
                        rhs,
                    ).len()) as usize,
                ),
            ).update(
                old(self).labels@.len() as int + 1,
                Some(
                    (old(self).data@.len() + MacroAssembler::div_guard_bytes(mode, lhs, rhs).len()
                        + MacroAssembler::div_core_bytes(
                        mode,
                        dest,
                        lhs,
                        rhs,
                        result,
                    ).len()) as usize,
                ),
            ));
            assert(final (self).bailouts@ =~= old(self).bailouts@.push(
                Bailout { label: lbl_zero, trap: Trap::DIV0, pos },
            ).push(Bailout { label: lbl_overflow, trap: Trap::OVERFLOW, pos }));
            assert(final (self).jumps@ =~= old(self).jumps@.push(
                ForwardJump {
                    at: (old(self).data@.len() + enc::alu_rr_bytes(w8(mode), 0x85, rhs, rhs).len()
                        + 2) as usize,
                    to: lbl_zero,
                },
            ).push(
                ForwardJump {
                    at: (old(self).data@.len() + MacroAssembler::div_guard_bytes(
                        mode,
                        lhs,
                        rhs,
                    ).len() - enc::cmp_imm_reg_bytes(mode, -1i32, rhs).len() - 10) as usize,
                    to: lbl_div,
                },
            ).push(
                ForwardJump {
                    at: (old(self).data@.len() + MacroAssembler::div_guard_bytes(
                        mode,
                        lhs,
                        rhs,
                    ).len() - 4) as usize,
                    to: lbl_overflow,
                },
            ));
        }
    }

    pub fn int_mul(&mut self, mode: MachineMode, dest: Reg, lhs: Reg, rhs: Reg)
        requires
            old(self).wf(),
            mode == MachineMode::Int32 || mode == MachineMode::Int64,
            dest.valid(),
            lhs.valid(),
            rhs.valid(),
        ensures
            final (self).wf(),
            MacroAssembler::emitted(
                *old(self),
                *final (self),
                enc::imul_rr_bytes(w8(mode), rhs, lhs) + mov_if(dest != lhs, w8(mode), lhs, dest),
            ),
    {
        let x64: u8 = match mode {
            MachineMode::Int32 => 0,
            _ => 1,
        };

        enc::emit_imul_reg_reg(self, x64, rhs, lhs);

        if dest != lhs {
            enc::emit_mov_reg_reg(self, x64, lhs, dest);
        }
        assert(final (self).data@ =~= old(self).data@ + (enc::imul_rr_bytes(w8(mode), rhs, lhs)
            + mov_if(dest != lhs, w8(mode), lhs, dest)));
    }

    /// One two-operand alu instruction computed into `lhs`, then moved to
    /// `dest` when they differ.
    pub open spec fn alu_then_mov_bytes(mode: MachineMode, opcode: u8, dest: Reg, lhs: Reg, rhs: Reg) -> Seq<u8> {
        enc::alu_rr_bytes(w8(mode), opcode, rhs, lhs) + mov_if(dest != lhs, w8(mode), lhs, dest)
    }

    fn alu_then_mov(&mut self, mode: MachineMode, opcode: u8, dest: Reg, lhs: Reg, rhs: Reg)
        requires
            old(self).wf(),
            mode == MachineMode::Int32 || mode == MachineMode::Int64,
            dest.valid(),
            lhs.valid(),
            rhs.valid(),
        ensures
            final (self).wf(),
            MacroAssembler::emitted(
                *old(self),
                *final (self),
                MacroAssembler::alu_then_mov_bytes(mode, opcode, dest, lhs, rhs),
            ),
    {
        let x64: u8 = match mode {
            MachineMode::Int32 => 0,
            _ => 1,
        };

        enc::emit_alu_rr_pub(self, x64, opcode, rhs, lhs);

        if dest != lhs {
            enc::emit_mov_reg_reg(self, x64, lhs, dest);
        }
        assert(final (self).data@ =~= old(self).data@ + MacroAssembler::alu_then_mov_bytes(
            mode,
            opcode,
            dest,
            lhs,
            rhs,
        ));
    }

    pub fn int_add(&mut self, mode: MachineMode, dest: Reg, lhs: Reg, rhs: Reg)
        requires
            old(self).wf(),
            mode == MachineMode::Int32 || mode == MachineMode::Int64,
            dest.valid(),
            lhs.valid(),
            rhs.valid(),
        ensures
            final (self).wf(),
            MacroAssembler::emitted(
                *old(self),
                *final (self),
                MacroAssembler::alu_then_mov_bytes(mode, 0x01, dest, lhs, rhs),
            ),
    {
        self.alu_then_mov(mode, 0x01, dest, lhs, rhs);
    }

    pub fn int_sub(&mut self, mode: MachineMode, dest: Reg, lhs: Reg, rhs: Reg)
        requires
            old(self).wf(),
            mode == MachineMode::Int32 || mode == MachineMode::Int64,
            dest.valid(),
            lhs.valid(),
            rhs.valid(),
        ensures
            final (self).wf(),
            MacroAssembler::emitted(
                *old(self),
                *final (self),
                MacroAssembler::alu_then_mov_bytes(mode, 0x29, dest, lhs, rhs),
            ),
    {
        self.alu_then_mov(mode, 0x29, dest, lhs, rhs);
    }

    pub fn int_or(&mut self, mode: MachineMode, dest: Reg, lhs: Reg, rhs: Reg)
        requires
            old(self).wf(),
            mode == MachineMode::Int32 || mode == MachineMode::Int64,
            dest.valid(),
            lhs.valid(),
            rhs.valid(),
        ensures
            final (self).wf(),
            MacroAssembler::emitted(
                *old(self),
                *final (self),
                MacroAssembler::alu_then_mov_bytes(mode, 0x09, dest, lhs, rhs),
            ),
    {
        self.alu_then_mov(mode, 0x09, dest, lhs, rhs);
    }

    pub fn int_and(&mut self, mode: MachineMode, dest: Reg, lhs: Reg, rhs: Reg)
        requires
            old(self).wf(),
            mode == MachineMode::Int32 || mode == MachineMode::Int64,
            dest.valid(),
            lhs.valid(),
            rhs.valid(),
        ensures
            final (self).wf(),
            MacroAssembler::emitted(
                *old(self),
                *final (self),
                MacroAssembler::alu_then_mov_bytes(mode, 0x21, dest, lhs, rhs),
            ),
    {
        self.alu_then_mov(mode, 0x21, dest, lhs, rhs);
    }

    pub fn int_xor(&mut self, mode: MachineMode, dest: Reg, lhs: Reg, rhs: Reg)
        requires
            old(self).wf(),
            mode == MachineMode::Int32 || mode == MachineMode::Int64,
            dest.valid(),
            lhs.valid(),
            rhs.valid(),
        ensures
            final (self).wf(),
            MacroAssembler::emitted(
                *old(self),
                *final (self),
                MacroAssembler::alu_then_mov_bytes(mode, 0x31, dest, lhs, rhs),
            ),
    {
        self.alu_then_mov(mode, 0x31, dest, lhs, rhs);
    }

    /// A shift with the count in cl: the count is moved into rcx first when
    /// it is elsewhere.
    pub open spec fn shift_bytes(mode: MachineMode, ext: u8, dest: Reg, lhs: Reg, rhs: Reg) -> Seq<u8> {
        mov_if(rhs != Reg(1), w8(mode), rhs, Reg(1)) + enc::opt_rex(
            lhs.0 / 8 != 0 || mode == MachineMode::Int64,
            mode == MachineMode::Int64,
            0,
            0,
            lhs.0 / 8,
        ) + seq![0xD3u8, enc::modrm_byte(0b11, ext, lhs.0 % 8)] + mov_if(
            dest != lhs,
            w8(mode),
            lhs,
            dest,
        )
    }

    fn shift_common(&mut self, mode: MachineMode, ext: u8, dest: Reg, lhs: Reg, rhs: Reg)
        requires
            old(self).wf(),
            mode == MachineMode::Int32 || mode == MachineMode::Int64,
            ext == 0b100 || ext == 0b101 || ext == 0b111,
            dest.valid(),
            lhs.valid(),
            rhs.valid(),
            rhs != Reg(1) ==> lhs != Reg(1),
        ensures
            final (self).wf(),
            MacroAssembler::emitted(
                *old(self),
                *final (self),
                MacroAssembler::shift_bytes(mode, ext, dest, lhs, rhs),
            ),
    {
        let x64: u8 = match mode {
            MachineMode::Int32 => 0,
            _ => 1,
        };

        if rhs != crate::cpu::rcx() {
            enc::emit_mov_reg_reg(self, x64, rhs, crate::cpu::rcx());
        }
        if ext == 0b100 {
            enc::emit_shl_reg_cl(self, x64 != 0, lhs);
        } else if ext == 0b101 {
            enc::emit_shr_reg_cl(self, x64 != 0, lhs);
        } else {
            enc::emit_sar_reg_cl(self, x64 != 0, lhs);
        }

        if dest != lhs {
            enc::emit_mov_reg_reg(self, x64, lhs, dest);
        }
        assert(final (self).data@ =~= old(self).data@ + MacroAssembler::shift_bytes(
            mode,
            ext,
            dest,
            lhs,
            rhs,
        ));
    }

    pub fn int_shl(&mut self, mode: MachineMode, dest: Reg, lhs: Reg, rhs: Reg)
        requires
            old(self).wf(),
            mode == MachineMode::Int32 || mode == MachineMode::Int64,
            dest.valid(),
            lhs.valid(),
            rhs.valid(),
            rhs != Reg(1) ==> lhs != Reg(1),
        ensures
            final (self).wf(),
            MacroAssembler::emitted(
                *old(self),
                *final (self),
                MacroAssembler::shift_bytes(mode, 0b100, dest, lhs, rhs),
            ),
    {
        self.shift_common(mode, 0b100, dest, lhs, rhs);
    }

    pub fn int_shr(&mut self, mode: MachineMode, dest: Reg, lhs: Reg, rhs: Reg)
        requires
            old(self).wf(),
            mode == MachineMode::Int32 || mode == MachineMode::Int64,
            dest.valid(),
            lhs.valid(),
            rhs.valid(),
            rhs != Reg(1) ==> lhs != Reg(1),
        ensures
            final (self).wf(),
            MacroAssembler::emitted(
                *old(self),
                *final (self),
                MacroAssembler::shift_bytes(mode, 0b101, dest, lhs, rhs),
            ),
    {
        self.shift_common(mode, 0b101, dest, lhs, rhs);
    }

    pub fn int_sar(&mut self, mode: MachineMode, dest: Reg, lhs: Reg, rhs: Reg)
        requires
            old(self).wf(),
            mode == MachineMode::Int32 || mode == MachineMode::Int64,
            dest.valid(),
            lhs.valid(),
            rhs.valid(),
            rhs != Reg(1) ==> lhs != Reg(1),
        ensures
            final (self).wf(),
            MacroAssembler::emitted(
                *old(self),
                *final (self),
                MacroAssembler::shift_bytes(mode, 0b111, dest, lhs, rhs),
            ),
    {
        self.shift_common(mode, 0b111, dest, lhs, rhs);
    }

    pub fn int_neg(&mut self, mode: MachineMode, dest: Reg, src: Reg)
        requires
            old(self).wf(),
            mode == MachineMode::Int32 || mode == MachineMode::Int64,
            dest.valid(),
            src.valid(),
        ensures
            final (self).wf(),
            MacroAssembler::emitted(
                *old(self),
                *final (self),
                enc::unary_rr_bytes(w8(mode), 0xF7, 0b011, src) + mov_if(
                    dest != src,
                    w8(mode),
                    src,
                    dest,
                ),
            ),
    {
        let x64: u8 = match mode {
            MachineMode::Int32 => 0,
            _ => 1,
        };

        enc::emit_neg_reg(self, x64, src);

        if dest != src {
            enc::emit_mov_reg_reg(self, x64, src, dest);
        }
        assert(final (self).data@ =~= old(self).data@ + (enc::unary_rr_bytes(
            w8(mode),
            0xF7,
            0b011,
            src,
        ) + mov_if(dest != src, w8(mode), src, dest)));
    }

    pub fn int_not(&mut self, mode: MachineMode, dest: Reg, src: Reg)
        requires
            old(self).wf(),
            mode == MachineMode::Int8 || mode == MachineMode::Int32 || mode == MachineMode::Int64,
            dest.valid(),
            src.valid(),
        ensures
            final (self).wf(),
            MacroAssembler::emitted(
                *old(self),
                *final (self),
                MacroAssembler::int_not_bytes(mode, dest, src),
            ),
    {
        let x64: u8 = match mode {
            MachineMode::Int8 => {
                enc::emit_not_reg_byte(self, src);
                0
            },
            MachineMode::Int32 => {
                enc::emit_not_reg(self, 0, src);
                0
            },
            _ => {
                enc::emit_not_reg(self, 1, src);
                1
            },
        };

        if dest != src {
            enc::emit_mov_reg_reg(self, x64, src, dest);
        }
        assert(final (self).data@ =~= old(self).data@ + MacroAssembler::int_not_bytes(
            mode,
            dest,
            src,
        ));
    }

    pub open spec fn int_not_bytes(mode: MachineMode, dest: Reg, src: Reg) -> Seq<u8> {
        (if mode == MachineMode::Int8 {
            enc::not_reg_byte_bytes(src)
        } else {
            enc::unary_rr_bytes(w8(mode), 0xF7, 0b010, src)
        }) + mov_if(dest != src, w8(mode), src, dest)
    }

    /// Inverts the low bit of a boolean.
    pub fn bool_not(&mut self, dest: Reg, src: Reg)
        requires
            old(self).wf(),
            dest.valid(),
            src.valid(),
        ensures
            final (self).wf(),
            MacroAssembler::emitted(
                *old(self),
                *final (self),
                enc::alub_imm_bytes(0b110, 1, src) + enc::alub_imm_bytes(0b100, 1, src) + mov_if(
                    dest != src,
                    0,
                    src,
                    dest,
                ),
            ),
    {
        enc::emit_xorb_imm_reg(self, 1, src);
        enc::emit_andb_imm_reg(self, 1, src);

        if dest != src {
            enc::emit_mov_reg_reg(self, 0, src, dest);
        }
        assert(final (self).data@ =~= old(self).data@ + (enc::alub_imm_bytes(0b110, 1, src)
            + enc::alub_imm_bytes(0b100, 1, src) + mov_if(dest != src, 0, src, dest)));
    }
}

impl MacroAssembler {
    /// Materialises a condition flag as a 0/1 value in `dest`.
    pub fn set(&mut self, dest: Reg, op: CondCode)
        requires
            old(self).wf(),
            dest.valid(),
        ensures
            final (self).wf(),
            MacroAssembler::emitted(
                *old(self),
                *final (self),
                enc::setb_reg_bytes(op, dest) + enc::movzbl_rr_bytes(dest, dest),
            ),
    {
        enc::emit_setb_reg(self, op, dest);
        enc::emit_movzbl_reg_reg(self, dest, dest);
        assert(final (self).data@ =~= old(self).data@ + (enc::setb_reg_bytes(op, dest)
            + enc::movzbl_rr_bytes(dest, dest)));
    }

    /// The base+displacement pair a memory operand denotes; locals live at
    /// the frame pointer.
    pub open spec fn mem_base(mem: Mem) -> Reg {
        match mem {
            Mem::Local(_) => Reg(5),
            Mem::Base(base, _) => base,
            Mem::Index(base, _, _, _) => base,
        }
    }

    pub open spec fn mem_disp(mem: Mem) -> i32 {
        match mem {
            Mem::Local(offset) => offset,
            Mem::Base(_, disp) => disp,
            Mem::Index(_, _, _, disp) => disp,
        }
    }

    /// A memory operand is well-formed for an access of mode `mode`.
    pub open spec fn mem_ok(mem: Mem, mode: MachineMode) -> bool {
        match mem {
            Mem::Local(_) => true,
            Mem::Base(base, _) => enc::base_valid(base),
            Mem::Index(base, index, scale, _) => base.valid() && index.valid() && (scale == 1
                || scale == 2 || scale == 4 || scale == 8) && (mode == MachineMode::Int8
                ==> scale == 1),
        }
    }

    /// Bytes of a typed load from a memory operand into a register: byte
    /// loads zero-extend, 32-bit loads use the plain move, 64-bit and
    /// pointer loads the rex.w form.
    pub open spec fn load_mem_bytes(mode: MachineMode, dest: Reg, mem: Mem) -> Seq<u8> {
        match mem {
            Mem::Index(base, index, scale, disp) => {
                if mode == MachineMode::Int8 {
                    enc::memindex_rr_bytes(
                        dest.0 / 8 != 0 || index.0 / 8 != 0 || base.0 / 8 != 0,
                        false,
                        dest,
                        base,
                        index,
                        1,
                        seq![0x0Fu8, 0xB6u8],
                        disp,
                    )
                } else {
                    enc::memindex_rr_bytes(
                        enc::wide_mode(mode) || dest.0 / 8 != 0 || index.0 / 8 != 0 || base.0 / 8
                            != 0,
                        enc::wide_mode(mode),
                        dest,
                        base,
                        index,
                        scale,
                        seq![0x8Bu8],
                        disp,
                    )
                }
            },
            _ => {
                let base = MacroAssembler::mem_base(mem);
                let disp = MacroAssembler::mem_disp(mem);
                if mode == MachineMode::Int8 {
                    enc::mem_rr_bytes(
                        dest.0 / 8 != 0 || enc::base_msb(base) != 0,
                        false,
                        dest,
                        base,
                        seq![0x0Fu8, 0xB6u8],
                        disp,
                    )
                } else if mode == MachineMode::Int32 {
                    enc::mem_rr_bytes(
                        dest.0 / 8 != 0 || enc::base_msb(base) != 0,
                        false,
                        dest,
                        base,
                        seq![0x8Bu8],
                        disp,
                    )
                } else {
                    enc::mem_rr_bytes(true, true, dest, base, seq![0x8Bu8], disp)
                }
            },
        }
    }

    pub fn load_mem(&mut self, mode: MachineMode, dest: Reg, mem: Mem)
        requires
            old(self).wf(),
            mode != MachineMode::Float32,
            mode != MachineMode::Float64,
            dest.valid(),
            MacroAssembler::mem_ok(mem, mode),
        ensures
            final (self).wf(),
            MacroAssembler::emitted(
                *old(self),
                *final (self),
                MacroAssembler::load_mem_bytes(mode, dest, mem),
            ),
    {
        match mem {
            Mem::Local(offset) => {
                match mode {
                    MachineMode::Int8 => enc::emit_movzbl_memq_reg(self, rbp(), offset, dest),
                    MachineMode::Int32 => enc::emit_movl_memq_reg(self, rbp(), offset, dest),
                    _ => enc::emit_movq_memq_reg(self, rbp(), offset, dest),
                }
            },
            Mem::Base(base, disp) => {
                match mode {
                    MachineMode::Int8 => enc::emit_movzbl_memq_reg(self, base, disp, dest),
                    MachineMode::Int32 => enc::emit_movl_memq_reg(self, base, disp, dest),
                    _ => enc::emit_movq_memq_reg(self, base, disp, dest),
                }
            },
            Mem::Index(base, index, scale, disp) => {
                match mode {
                    MachineMode::Int8 => enc::emit_movzx_memindex_byte_reg(
                        self,
                        0,
                        base,
                        index,
                        disp,
                        dest,
                    ),
                    _ => enc::emit_mov_memindex_reg(self, mode, base, index, scale, disp, dest),
                }
            },
        }
    }

    /// Bytes of a typed store of a register into a memory operand.
    pub open spec fn store_mem_bytes(mode: MachineMode, mem: Mem, src: Reg) -> Seq<u8> {
        match mem {
            Mem::Index(base, index, scale, disp) => enc::memindex_rr_bytes(
                enc::wide_mode(mode) || src.0 / 8 != 0 || index.0 / 8 != 0 || base.0 / 8 != 0 || (
                mode == MachineMode::Int8 && src.0 > 3),
                enc::wide_mode(mode),
                src,
                base,
                index,
                scale,
                seq![enc::mov_store_opcode(mode)],
                disp,
            ),
            _ => {
                let base = MacroAssembler::mem_base(mem);
                let disp = MacroAssembler::mem_disp(mem);
                if mode == MachineMode::Int8 {
                    enc::mem_rr_bytes(
                        src.0 > 3 || enc::base_msb(base) != 0,
                        false,
                        src,
                        base,
                        seq![0x88u8],
                        disp,
                    )
                } else if mode == MachineMode::Int32 {
                    enc::mem_rr_bytes(
                        src.0 / 8 != 0 || enc::base_msb(base) != 0,
                        false,
                        src,
                        base,
                        seq![0x89u8],
                        disp,
                    )
                } else {
                    enc::mem_rr_bytes(true, true, src, base, seq![0x89u8], disp)
                }
            },
        }
    }

    pub fn store_mem(&mut self, mode: MachineMode, mem: Mem, src: Reg)
        requires
            old(self).wf(),
            mode != MachineMode::Float32,
            mode != MachineMode::Float64,
            src.valid(),
            MacroAssembler::mem_ok(mem, mode),
        ensures
            final (self).wf(),
            MacroAssembler::emitted(
                *old(self),
                *final (self),
                MacroAssembler::store_mem_bytes(mode, mem, src),
            ),
    {
        match mem {
            Mem::Local(offset) => {
                match mode {
                    MachineMode::Int8 => enc::emit_movb_reg_memq(self, src, rbp(), offset),
                    MachineMode::Int32 => enc::emit_movl_reg_memq(self, src, rbp(), offset),
                    _ => enc::emit_movq_reg_memq(self, src, rbp(), offset),
                }
            },
            Mem::Base(base, disp) => {
                match mode {
                    MachineMode::Int8 => enc::emit_movb_reg_memq(self, src, base, disp),
                    MachineMode::Int32 => enc::emit_movl_reg_memq(self, src, base, disp),
                    _ => enc::emit_movq_reg_memq(self, src, base, disp),
                }
            },
            Mem::Index(base, index, scale, disp) => {
                enc::emit_mov_reg_memindex(self, mode, src, base, index, scale, disp);
            },
        }
    }

    /// Loads a float element from a base+displacement operand.
    pub fn loadf_mem(&mut self, mode: MachineMode, dest: FReg, mem: Mem)
        requires
            old(self).wf(),
            mode == MachineMode::Float32 || mode == MachineMode::Float64,
            dest.valid(),
            mem is Local || mem is Base,
            enc::base_valid(MacroAssembler::mem_base(mem)),
        ensures
            final (self).wf(),
            MacroAssembler::emitted(
                *old(self),
                *final (self),
                enc::sse_mem_bytes(
                    if mode == MachineMode::Float32 {
                        0xF3
                    } else {
                        0xF2
                    },
                    0x10,
                    dest,
                    MacroAssembler::mem_base(mem),
                    MacroAssembler::mem_disp(mem),
                ),
            ),
    {
        let (base, disp) = match mem {
            Mem::Local(offset) => (rbp(), offset),
            Mem::Base(base, disp) => (base, disp),
            Mem::Index(base, _, _, disp) => {
                proof {
                    assert(false);
                }
                (base, disp)
            },
        };
        match mode {
            MachineMode::Float32 => enc::movss_load(self, dest, base, disp),
            _ => enc::movsd_load(self, dest, base, disp),
        }
    }

    /// Stores a float register into a base+displacement operand.
    pub fn storef_mem(&mut self, mode: MachineMode, mem: Mem, src: FReg)
        requires
            old(self).wf(),
            mode == MachineMode::Float32 || mode == MachineMode::Float64,
            src.valid(),
            mem is Local || mem is Base,
            enc::base_valid(MacroAssembler::mem_base(mem)),
        ensures
            final (self).wf(),
            MacroAssembler::emitted(
                *old(self),
                *final (self),
                enc::sse_mem_bytes(
                    if mode == MachineMode::Float32 {
                        0xF3
                    } else {
                        0xF2
                    },
                    0x11,
                    src,
                    MacroAssembler::mem_base(mem),
                    MacroAssembler::mem_disp(mem),
                ),
            ),
    {
        let (base, disp) = match mem {
            Mem::Local(offset) => (rbp(), offset),
            Mem::Base(base, disp) => (base, disp),
            Mem::Index(base, _, _, disp) => {
                proof {
                    assert(false);
                }
                (base, disp)
            },
        };
        match mode {
            MachineMode::Float32 => enc::movss_store(self, base, disp, src),
            _ => enc::movsd_store(self, base, disp, src),
        }
    }

    /// Loads `array[index]` of elements sized by `mode`: the element area
    /// begins after header and length word.
    pub fn load_array_elem(&mut self, mode: MachineMode, dest: Reg, array: Reg, index: Reg)
        requires
            old(self).wf(),
            mode == MachineMode::Int32 || mode == MachineMode::Int64 || mode == MachineMode::Ptr,
            dest.valid(),
            array.valid(),
            index.valid(),
        ensures
            final (self).wf(),
            MacroAssembler::emitted(
                *old(self),
                *final (self),
                MacroAssembler::load_mem_bytes(
                    mode,
                    dest,
                    Mem::Index(array, index, mode.size_spec() as i32, crate::mem::ARRAY_DATA_OFFSET),
                ),
            ),
    {
        self.load_mem(
            mode,
            dest,
            Mem::Index(array, index, mode.size(), crate::mem::ARRAY_DATA_OFFSET),
        );
    }

    pub fn store_array_elem(&mut self, mode: MachineMode, array: Reg, index: Reg, value: Reg)
        requires
            old(self).wf(),
            mode == MachineMode::Int32 || mode == MachineMode::Int64 || mode == MachineMode::Ptr,
            array.valid(),
            index.valid(),
            value.valid(),
        ensures
            final (self).wf(),
            MacroAssembler::emitted(
                *old(self),
                *final (self),
                MacroAssembler::store_mem_bytes(
                    mode,
                    Mem::Index(array, index, mode.size_spec() as i32, crate::mem::ARRAY_DATA_OFFSET),
                    value,
                ),
            ),
    {
        self.store_mem(
            mode,
            Mem::Index(array, index, mode.size(), crate::mem::ARRAY_DATA_OFFSET),
            value,
        );
    }

    /// Integer comparison setting flags only.
    pub fn cmp_reg(&mut self, mode: MachineMode, lhs: Reg, rhs: Reg)
        requires
            old(self).wf(),
            mode != MachineMode::Float32,
            mode != MachineMode::Float64,
            lhs.valid(),
            rhs.valid(),
        ensures
            final (self).wf(),
            MacroAssembler::emitted(
                *old(self),
                *final (self),
                enc::alu_rr_bytes(w8(mode), 0x39, rhs, lhs),
            ),
    {
        let x64: u8 = if mode.is64() {
            1
        } else {
            0
        };

        enc::emit_cmp_reg_reg(self, x64, rhs, lhs);
    }

    pub fn cmp_reg_imm(&mut self, mode: MachineMode, lhs: Reg, imm: i32)
        requires
            old(self).wf(),
            mode != MachineMode::Float32,
            mode != MachineMode::Float64,
            mode == MachineMode::Int8 ==> -128 <= imm <= 127,
            lhs.valid(),
        ensures
            final (self).wf(),
            MacroAssembler::emitted(
                *old(self),
                *final (self),
                enc::cmp_imm_reg_bytes(mode, imm, lhs),
            ),
    {
        enc::emit_cmp_imm_reg(self, mode, imm, lhs);
    }

    pub fn cmp_mem(&mut self, mode: MachineMode, mem: Mem, rhs: Reg)
        requires
            old(self).wf(),
            mode != MachineMode::Float32,
            mode != MachineMode::Float64,
            rhs.valid(),
            MacroAssembler::mem_ok(mem, mode),
            mem is Index ==> mode != MachineMode::Int8,
        ensures
            final (self).wf(),
            MacroAssembler::emitted(
                *old(self),
                *final (self),
                MacroAssembler::cmp_mem_bytes(mode, mem, rhs),
            ),
    {
        match mem {
            Mem::Local(offset) => enc::emit_cmp_mem_reg(self, mode, rbp(), offset, rhs),
            Mem::Base(base, disp) => enc::emit_cmp_mem_reg(self, mode, base, disp, rhs),
            Mem::Index(base, index, scale, disp) => enc::emit_cmp_memindex_reg(
                self,
                mode,
                base,
                index,
                scale,
                disp,
                rhs,
            ),
        }
    }

    pub open spec fn cmp_mem_bytes(mode: MachineMode, mem: Mem, rhs: Reg) -> Seq<u8> {
        match mem {
            Mem::Index(base, index, scale, disp) => enc::memindex_rr_bytes(
                enc::wide_mode(mode) || rhs.0 / 8 != 0 || index.0 / 8 != 0 || base.0 / 8 != 0 || (
                mode == MachineMode::Int8 && rhs.0 > 3),
                enc::wide_mode(mode),
                rhs,
                base,
                index,
                scale,
                seq![enc::cmp_mem_opcode(mode)],
                disp,
            ),
            _ => enc::mem_rr_bytes(
                enc::wide_mode(mode) || rhs.0 / 8 != 0 || enc::base_msb(
                    MacroAssembler::mem_base(mem),
                ) != 0 || (mode == MachineMode::Int8 && rhs.0 > 3),
                enc::wide_mode(mode),
                rhs,
                MacroAssembler::mem_base(mem),
                seq![enc::cmp_mem_opcode(mode)],
                MacroAssembler::mem_disp(mem),
            ),
        }
    }

    /// Comparison of a memory operand against an immediate; only
    /// base+displacement operands are supported.
    pub fn cmp_mem_imm(&mut self, mode: MachineMode, mem: Mem, imm: i32)
        requires
            old(self).wf(),
            mode != MachineMode::Float32,
            mode != MachineMode::Float64,
            mode == MachineMode::Int8 ==> -128 <= imm <= 127,
            mem is Base,
            enc::base_valid(MacroAssembler::mem_base(mem)),
        ensures
            final (self).wf(),
            MacroAssembler::emitted(
                *old(self),
                *final (self),
                enc::cmp_mem_imm_bytes(
                    mode,
                    MacroAssembler::mem_base(mem),
                    MacroAssembler::mem_disp(mem),
                    imm,
                ),
            ),
    {
        match mem {
            Mem::Base(base, disp) => enc::emit_cmp_mem_imm(self, mode, base, disp, imm),
            _ => {
                proof {
                    assert(false);
                }
            },
        }
    }

    /// Float comparison setting flags (including parity on nan).
    pub fn cmp_freg(&mut self, mode: MachineMode, lhs: FReg, rhs: FReg)
        requires
            old(self).wf(),
            mode == MachineMode::Float32 || mode == MachineMode::Float64,
            lhs.valid(),
            rhs.valid(),
        ensures
            final (self).wf(),
            MacroAssembler::emitted(
                *old(self),
                *final (self),
                enc::sse_rr_bytes(
                    if mode == MachineMode::Float32 {
                        Seq::<u8>::empty()
                    } else {
                        seq![0x66u8]
                    },
                    0x2E,
                    lhs,
                    rhs,
                ),
            ),
    {
        match mode {
            MachineMode::Float32 => enc::ucomiss(self, lhs, rhs),
            _ => enc::ucomisd(self, lhs, rhs),
        }
    }

    /// Tests a register against zero.
    pub fn cmp_zero(&mut self, mode: MachineMode, lhs: Reg)
        requires
            old(self).wf(),
            mode != MachineMode::Float32,
            mode != MachineMode::Float64,
            mode != MachineMode::Int8,
            lhs.valid(),
        ensures
            final (self).wf(),
            MacroAssembler::emitted(
                *old(self),
                *final (self),
                enc::cmp_imm_reg_bytes(mode, 0, lhs),
            ),
    {
        enc::emit_cmp_imm_reg(self, mode, 0, lhs);
    }

    /// Float addition into `lhs`, then moved to `dest` when needed.
    pub fn float_add(&mut self, mode: MachineMode, dest: FReg, lhs: FReg, rhs: FReg)
        requires
            old(self).wf(),
            mode == MachineMode::Float32 || mode == MachineMode::Float64,
            dest.valid(),
            lhs.valid(),
            rhs.valid(),
        ensures
            final (self).wf(),
            MacroAssembler::emitted(
                *old(self),
                *final (self),
                MacroAssembler::float_op_bytes(mode, 0x58, dest, lhs, rhs),
            ),
    {
        self.float_op(mode, 0x58, dest, lhs, rhs);
    }

    pub fn float_sub(&mut self, mode: MachineMode, dest: FReg, lhs: FReg, rhs: FReg)
        requires
            old(self).wf(),
            mode == MachineMode::Float32 || mode == MachineMode::Float64,
            dest.valid(),
            lhs.valid(),
            rhs.valid(),
        ensures
            final (self).wf(),
            MacroAssembler::emitted(
                *old(self),
                *final (self),
                MacroAssembler::float_op_bytes(mode, 0x5C, dest, lhs, rhs),
            ),
    {
        self.float_op(mode, 0x5C, dest, lhs, rhs);
    }

    pub fn float_mul(&mut self, mode: MachineMode, dest: FReg, lhs: FReg, rhs: FReg)
        requires
            old(self).wf(),
            mode == MachineMode::Float32 || mode == MachineMode::Float64,
            dest.valid(),
            lhs.valid(),
            rhs.valid(),
        ensures
            final (self).wf(),
            MacroAssembler::emitted(
                *old(self),
                *final (self),
                MacroAssembler::float_op_bytes(mode, 0x59, dest, lhs, rhs),
            ),
    {
        self.float_op(mode, 0x59, dest, lhs, rhs);
    }

    pub fn float_div(&mut self, mode: MachineMode, dest: FReg, lhs: FReg, rhs: FReg)
        requires
            old(self).wf(),
            mode == MachineMode::Float32 || mode == MachineMode::Float64,
            dest.valid(),
            lhs.valid(),
            rhs.valid(),
        ensures
            final (self).wf(),
            MacroAssembler::emitted(
                *old(self),
                *final (self),
                MacroAssembler::float_op_bytes(mode, 0x5E, dest, lhs, rhs),
            ),
    {
        self.float_op(mode, 0x5E, dest, lhs, rhs);
    }

    /// The sse prefix byte of a float mode.
    pub open spec fn sse_prefix(mode: MachineMode) -> u8 {
        if mode == MachineMode::Float32 {
            0xF3
        } else {
            0xF2
        }
    }

    pub open spec fn float_op_bytes(mode: MachineMode, op: u8, dest: FReg, lhs: FReg, rhs: FReg) -> Seq<u8> {
        enc::sse_rr_bytes(seq![MacroAssembler::sse_prefix(mode)], op, lhs, rhs) + (if dest != lhs {
            enc::sse_rr_bytes(seq![MacroAssembler::sse_prefix(mode)], 0x10, dest, lhs)
        } else {
            Seq::<u8>::empty()
        })
    }

    fn float_op(&mut self, mode: MachineMode, op: u8, dest: FReg, lhs: FReg, rhs: FReg)
        requires
            old(self).wf(),
            mode == MachineMode::Float32 || mode == MachineMode::Float64,
            op == 0x58 || op == 0x5C || op == 0x59 || op == 0x5E,
            dest.valid(),
            lhs.valid(),
            rhs.valid(),
        ensures
            final (self).wf(),
            MacroAssembler::emitted(
                *old(self),
                *final (self),
                MacroAssembler::float_op_bytes(mode, op, dest, lhs, rhs),
            ),
    {
        let prefix: u8 = match mode {
            MachineMode::Float32 => 0xF3,
            _ => 0xF2,
        };
        enc::emit_sse_rr_pub(self, prefix, op, lhs, rhs);

        if dest != lhs {
            self.copy_freg(mode, dest, lhs);
        }
        assert(final (self).data@ =~= old(self).data@ + MacroAssembler::float_op_bytes(
            mode,
            op,
            dest,
            lhs,
            rhs,
        ));
    }
}

impl MacroAssembler {
    /// Conditional jump to a label.
    pub fn jump_if(&mut self, cond: CondCode, lbl: Label)
        requires
            old(self).wf(),
            lbl.0 < old(self).labels@.len(),
            old(self).data@.len() + 6 <= 0xffff_ffff,
        ensures
            final (self).wf(),
            enc::jump_emitted(*old(self), *final (self), seq![0x0fu8, enc::jcc_opcode(cond)], lbl),
    {
        enc::emit_jcc(self, cond, lbl);
    }

    /// Unconditional jump to a label.
    pub fn jump(&mut self, lbl: Label)
        requires
            old(self).wf(),
            lbl.0 < old(self).labels@.len(),
            old(self).data@.len() + 5 <= 0xffff_ffff,
        ensures
            final (self).wf(),
            enc::jump_emitted(*old(self), *final (self), seq![0xe9u8], lbl),
    {
        enc::emit_jmp(self, lbl);
    }

    /// Jump through a register.
    pub fn jump_reg(&mut self, reg: Reg)
        requires
            old(self).wf(),
            reg.valid(),
        ensures
            final (self).wf(),
            MacroAssembler::emitted(
                *old(self),
                *final (self),
                enc::opt_rex(reg.0 / 8 != 0, false, 0, 0, reg.0 / 8) + seq![
                    0xFFu8,
                    enc::modrm_byte(0b11, 0b100, reg.0 % 8),
                ],
            ),
    {
        enc::emit_jmp_reg(self, reg);
    }

    /// Tests a register against itself and jumps on zero / non-zero.
    pub fn test_and_jump_if(&mut self, cond: CondCode, reg: Reg, lbl: Label)
        requires
            old(self).wf(),
            cond == CondCode::Zero || cond == CondCode::NonZero,
            reg.valid(),
            lbl.0 < old(self).labels@.len(),
            old(self).data@.len() + 9 <= 0xffff_ffff,
        ensures
            final (self).wf(),
            enc::jump_emitted(
                *old(self),
                *final (self),
                enc::alu_rr_bytes(0, 0x85, reg, reg) + seq![0x0fu8, enc::jcc_opcode(cond)],
                lbl,
            ),
    {
        enc::emit_testl_reg_reg(self, reg, reg);
        enc::emit_jcc(self, cond, lbl);
        proof {
            let prefix = enc::alu_rr_bytes(0, 0x85, reg, reg) + seq![0x0fu8, enc::jcc_opcode(cond)];
            if old(self).labels@[lbl.0 as int] is Some {
                let t = old(self).labels@[lbl.0 as int]->0;
                assert(final (self).data@ =~= old(self).data@ + prefix
                    + MacroAssembler::jump_disp((old(self).data@.len() + prefix.len()) as int, t as int));
            } else {
                assert(final (self).data@ =~= old(self).data@ + prefix + crate::masm::le32(0));
            }
        }
    }

    /// Null-check: tests the register and records a trap exit taken when it
    /// is zero.
    pub fn test_if_nil_bailout(&mut self, pos: Position, reg: Reg)
        requires
            old(self).wf(),
            reg.valid(),
            old(self).data@.len() + 9 <= 0xffff_ffff,
        ensures
            final (self).wf(),
            final (self).labels@ == old(self).labels@.push(None),
            final (self).bailouts@ == old(self).bailouts@.push(
                Bailout {
                    label: Label(old(self).labels@.len() as usize),
                    trap: Trap::NIL,
                    pos,
                },
            ),
            final (self).data@ == old(self).data@ + enc::alu_rr_bytes(0, 0x85, reg, reg) + seq![
                0x0fu8,
                enc::jcc_opcode(CondCode::Zero),
            ] + crate::masm::le32(0),
            final (self).jumps@ == old(self).jumps@.push(
                ForwardJump {
                    at: (old(self).data@.len() + enc::alu_rr_bytes(0, 0x85, reg, reg).len()
                        + 2) as usize,
                    to: Label(old(self).labels@.len() as usize),
                },
            ),
            final (self).dseg@ == old(self).dseg@,
            final (self).lazy_compilation_sites@ == old(self).lazy_compilation_sites@,
    {
        let lbl = self.create_label();
        self.test_and_jump_if(CondCode::Zero, reg, lbl);
        self.emit_bailout(lbl, Trap::NIL, pos);
        proof {
            assert(final (self).labels@ == old(self).labels@.push(None));
        }
    }

    /// Bounds check: loads the array length, compares the index unsigned and
    /// records a trap exit for out-of-range indices.
    pub fn check_index_out_of_bounds(&mut self, pos: Position, array: Reg, index: Reg, temp: Reg)
        requires
            old(self).wf(),
            array.valid(),
            index.valid(),
            temp.valid(),
            old(self).data@.len() + 32 <= 0xffff_ffff,
        ensures
            final (self).wf(),
            final (self).labels@ == old(self).labels@.push(None),
            final (self).bailouts@ == old(self).bailouts@.push(
                Bailout {
                    label: Label(old(self).labels@.len() as usize),
                    trap: Trap::INDEX_OUT_OF_BOUNDS,
                    pos,
                },
            ),
            final (self).data@ == old(self).data@
                + MacroAssembler::check_index_bytes(array, index, temp) + crate::masm::le32(0),
            final (self).jumps@ == old(self).jumps@.push(
                ForwardJump {
                    at: (old(self).data@.len() + MacroAssembler::check_index_bytes(
                        array,
                        index,
                        temp,
                    ).len()) as usize,
                    to: Label(old(self).labels@.len() as usize),
                },
            ),
            final (self).dseg@ == old(self).dseg@,
            final (self).lazy_compilation_sites@ == old(self).lazy_compilation_sites@,
    {
        self.load_mem(
            MachineMode::Int32,
            temp,
            Mem::Base(array, crate::mem::ARRAY_LENGTH_OFFSET),
        );
        self.cmp_reg(MachineMode::Int32, index, temp);

        let lbl = self.create_label();
        self.jump_if(CondCode::UnsignedGreaterEq, lbl);
        self.emit_bailout(lbl, Trap::INDEX_OUT_OF_BOUNDS, pos);
        proof {
            assert(final (self).data@ =~= old(self).data@ + MacroAssembler::check_index_bytes(
                array,
                index,
                temp,
            ) + crate::masm::le32(0));
        }
    }

    /// The bytes before the displacement of the bounds-check's jump: length
    /// load, compare, and the two jcc opcode bytes.
    pub open spec fn check_index_bytes(array: Reg, index: Reg, temp: Reg) -> Seq<u8> {
        MacroAssembler::load_mem_bytes(
            MachineMode::Int32,
            temp,
            Mem::Base(array, crate::mem::ARRAY_LENGTH_OFFSET),
        ) + enc::alu_rr_bytes(0, 0x39, temp, index) + seq![
            0x0fu8,
            enc::jcc_opcode(CondCode::UnsignedGreaterEq),
        ]
    }

    /// Stack-overflow guard at function entry: compares the stack pointer
    /// against the thread's stack limit and jumps to the overflow path when
    /// the limit is crossed.
    pub fn check_stack_pointer(&mut self, lbl_overflow: Label)
        requires
            old(self).wf(),
            lbl_overflow.0 < old(self).labels@.len(),
            old(self).data@.len() + 16 <= 0xffff_ffff,
        ensures
            final (self).wf(),
            enc::jump_emitted(
                *old(self),
                *final (self),
                MacroAssembler::cmp_mem_bytes(
                    MachineMode::Ptr,
                    Mem::Base(Reg(14), crate::threads::STACK_LIMIT_OFFSET),
                    Reg(4),
                ) + seq![0x0fu8, enc::jcc_opcode(CondCode::UnsignedGreater)],
                lbl_overflow,
            ),
    {
        self.cmp_mem(
            MachineMode::Ptr,
            Mem::Base(crate::cpu::reg_thread(), crate::threads::STACK_LIMIT_OFFSET),
            crate::cpu::reg_sp(),
        );
        self.jump_if(CondCode::UnsignedGreater, lbl_overflow);
        proof {
            let prefix = MacroAssembler::cmp_mem_bytes(
                MachineMode::Ptr,
                Mem::Base(Reg(14), crate::threads::STACK_LIMIT_OFFSET),
                Reg(4),
            ) + seq![0x0fu8, enc::jcc_opcode(CondCode::UnsignedGreater)];
            if old(self).labels@[lbl_overflow.0 as int] is Some {
                let t = old(self).labels@[lbl_overflow.0 as int]->0;
                assert(final (self).data@ =~= old(self).data@ + prefix
                    + MacroAssembler::jump_disp((old(self).data@.len() + prefix.len()) as int, t as int));
            } else {
                assert(final (self).data@ =~= old(self).data@ + prefix + crate::masm::le32(0));
            }
        }
    }

    /// Safepoint poll: reads the thread-local safepoint-request byte and
    /// jumps to the slow path when it is set.
    pub fn safepoint(&mut self, lbl_slow: Label)
        requires
            old(self).wf(),
            lbl_slow.0 < old(self).labels@.len(),
            old(self).data@.len() + 16 <= 0xffff_ffff,
        ensures
            final (self).wf(),
            enc::jump_emitted(
                *old(self),
                *final (self),
                enc::cmp_mem_imm_bytes(
                    MachineMode::Int8,
                    Reg(14),
                    crate::threads::SAFEPOINT_REQUESTED_OFFSET,
                    0,
                ) + seq![0x0fu8, enc::jcc_opcode(CondCode::NotEqual)],
                lbl_slow,
            ),
    {
        self.cmp_mem_imm(
            MachineMode::Int8,
            Mem::Base(crate::cpu::reg_thread(), crate::threads::SAFEPOINT_REQUESTED_OFFSET),
            0,
        );
        self.jump_if(CondCode::NotEqual, lbl_slow);
        proof {
            let prefix = enc::cmp_mem_imm_bytes(
                MachineMode::Int8,
                Reg(14),
                crate::threads::SAFEPOINT_REQUESTED_OFFSET,
                0,
            ) + seq![0x0fu8, enc::jcc_opcode(CondCode::NotEqual)];
            if old(self).labels@[lbl_slow.0 as int] is Some {
                let t = old(self).labels@[lbl_slow.0 as int]->0;
                assert(final (self).data@ =~= old(self).data@ + prefix
                    + MacroAssembler::jump_disp((old(self).data@.len() + prefix.len()) as int, t as int));
            } else {
                assert(final (self).data@ =~= old(self).data@ + prefix + crate::masm::le32(0));
            }
        }
    }

    /// Write barrier: shifts the object address by the card bits and clears
    /// the card byte, unconditionally.
    pub fn emit_barrier(&mut self, src: Reg, card_table_offset: i32)
        requires
            old(self).wf(),
            src.valid(),
            0 <= card_table_offset,
        ensures
            final (self).wf(),
            MacroAssembler::emitted(
                *old(self),
                *final (self),
                MacroAssembler::barrier_bytes(src, card_table_offset),
            ),
    {
        enc::emit_shr_reg_imm(self, true, src, crate::mem::CARD_SIZE_BITS);
        enc::emit_movb_imm_memq(self, 0, src, card_table_offset);
        assert(final (self).data@ =~= old(self).data@ + MacroAssembler::barrier_bytes(
            src,
            card_table_offset,
        ));
    }

    pub open spec fn barrier_bytes(src: Reg, card_table_offset: i32) -> Seq<u8> {
        enc::opt_rex(true, true, 0, 0, src.0 / 8) + seq![
            0xC1u8,
            enc::modrm_byte(0b11, 0b101, src.0 % 8),
            crate::mem::CARD_SIZE_BITS,
        ] + enc::opt_rex(enc::base_msb(src) != 0, false, 0, 0, enc::base_msb(src)) + seq![0xC6u8]
            + enc::membase_bytes(src, card_table_offset, 0) + seq![0u8]
    }

    /// Reserves extra stack space mid-function.
    pub fn increase_stack_frame(&mut self, size: i32)
        requires
            old(self).wf(),
            size >= 0,
        ensures
            final (self).wf(),
            MacroAssembler::emitted(
                *old(self),
                *final (self),
                if size > 0 {
                    enc::aluq_imm_bytes(0b101, size, Reg(4))
                } else {
                    Seq::<u8>::empty()
                },
            ),
    {
        if size > 0 {
            enc::emit_subq_imm_reg(self, size, rsp());
        }
    }

    /// Releases stack space reserved by `increase_stack_frame`.
    pub fn decrease_stack_frame(&mut self, size: i32)
        requires
            old(self).wf(),
            size >= 0,
        ensures
            final (self).wf(),
            MacroAssembler::emitted(
                *old(self),
                *final (self),
                if size > 0 {
                    enc::aluq_imm_bytes(0b000, size, Reg(4))
                } else {
                    Seq::<u8>::empty()
                },
            ),
    {
        if size > 0 {
            enc::emit_addq_imm_reg(self, size, rsp());
        }
    }

    /// Booleans come back from native calls with only the low byte set;
    /// clears the rest.
    pub fn fix_result(&mut self, result: Reg, mode: MachineMode)
        requires
            old(self).wf(),
            result.valid(),
        ensures
            final (self).wf(),
            MacroAssembler::emitted(
                *old(self),
                *final (self),
                if mode == MachineMode::Int8 {
                    enc::aluq_imm_bytes(0b100, 0xFF, result)
                } else {
                    Seq::<u8>::empty()
                },
            ),
    {
        if mode.is_int8() {
            enc::emit_aluq_imm_reg_pub(self, 0b100, 0xFF, result);
        }
    }

    /// Calls a fixed native target through the code's constant pool.
    pub fn raw_call(&mut self, ptr: u64)
        requires
            old(self).wf(),
            old(self).data@.len() + 8 * (old(self).dseg@.len() + 1) + 16 <= i32::MAX,
        ensures
            final (self).wf(),
            final (self).dseg@ == old(self).dseg@.push(ptr),
            final (self).data@ == old(self).data@ + MacroAssembler::raw_call_bytes(*old(self)),
            final (self).labels@ == old(self).labels@,
            final (self).jumps@ == old(self).jumps@,
            final (self).bailouts@ == old(self).bailouts@,
            final (self).lazy_compilation_sites@ == old(self).lazy_compilation_sites@,
    {
        let disp = self.add_addr(ptr);
        let pos = self.pos() as i32;

        self.load_constpool(crate::cpu::reg_result(), disp + pos);
        self.call_reg(crate::cpu::reg_result());
        assert(final (self).data@ =~= old(self).data@ + MacroAssembler::raw_call_bytes(
            *old(self),
        ));
    }

    /// The rip-relative load of the pooled target plus the indirect call.
    pub open spec fn raw_call_bytes(pre: MacroAssembler) -> Seq<u8> {
        enc::mem_rr_bytes(
            true,
            true,
            Reg(0),
            Reg(16),
            seq![0x8Bu8],
            (-((8 * (pre.dseg@.len() + 1) + pre.data@.len() + 7) as int)) as i32,
        ) + enc::opt_rex(false, false, 0, 0, 0) + seq![0xFFu8, enc::modrm_byte(0b11, 0b010, 0)]
    }

    /// The recorded site names the right function, the right constant-pool
    /// slot, and the call's type arguments.
    pub open spec fn direct_site_ok(
        site: LazyCompilationSite,
        fct_id: FctDefinitionId,
        disp_expected: int,
        tp_expected: Seq<crate::bty::BtyV>,
    ) -> bool {
        &&& site matches LazyCompilationSite::Direct(f, d, tp)
        &&& f == fct_id
        &&& d == disp_expected
        &&& tp@ == tp_expected
    }

    /// A direct call: target through the constant pool, with the call site
    /// recorded for lazy patching.
    pub fn direct_call(
        &mut self,
        fct_id: FctDefinitionId,
        ptr: u64,
        type_params: BytecodeTypeArray,
    )
        requires
            old(self).wf(),
            old(self).data@.len() + 8 * (old(self).dseg@.len() + 1) + 32 <= i32::MAX,
        ensures
            final (self).wf(),
            final (self).dseg@ == old(self).dseg@.push(ptr),
            final (self).data@ == old(self).data@ + MacroAssembler::raw_call_bytes(*old(self)),
            final (self).lazy_compilation_sites@.len() == old(
                self,
            ).lazy_compilation_sites@.len() + 1,
            final (self).lazy_compilation_sites@.last().0 == final (self).data@.len(),
            MacroAssembler::direct_site_ok(
                final (self).lazy_compilation_sites@.last().1,
                fct_id,
                (8 * (old(self).dseg@.len() + 1) + final (self).data@.len()) as int,
                type_params@,
            ),
            final (self).labels@ == old(self).labels@,
            final (self).jumps@ == old(self).jumps@,
            final (self).bailouts@ == old(self).bailouts@,
    {
        let disp = self.add_addr(ptr);
        let pos = self.pos() as i32;

        self.load_constpool(crate::cpu::reg_result(), disp + pos);
        self.call_reg(crate::cpu::reg_result());

        let pos = self.pos() as i32;
        self.emit_lazy_compilation_site(
            LazyCompilationSite::Direct(fct_id, disp + pos, type_params),
        );
        assert(final (self).data@ =~= old(self).data@ + MacroAssembler::raw_call_bytes(
            *old(self),
        ));
    }

    /// A virtual call: null-checks the receiver, loads the vtable, loads the
    /// method slot and calls it; the site is recorded for lazy patching.
    pub fn virtual_call(
        &mut self,
        pos: Position,
        vtable_index: u32,
        site: LazyCompilationSite,
    )
        requires
            old(self).wf(),
            old(self).data@.len() + 64 <= 0xffff_ffff,
            crate::mem::VTABLE_METHOD_TABLE_OFFSET + 8 * (vtable_index as int) <= i32::MAX,
        ensures
            final (self).wf(),
            final (self).labels@ == old(self).labels@.push(None),
            final (self).bailouts@.len() == old(self).bailouts@.len() + 1,
            final (self).bailouts@.last().trap == Trap::NIL,
            final (self).jumps@.len() == old(self).jumps@.len() + 1,
            final (self).data@ == old(self).data@ + MacroAssembler::virtual_call_bytes(
                vtable_index,
            ),
            final (self).lazy_compilation_sites@.len() == old(
                self,
            ).lazy_compilation_sites@.len() + 1,
            final (self).lazy_compilation_sites@.last().0 == final (self).data@.len(),
            final (self).lazy_compilation_sites@.last().1 == site,
            final (self).dseg@ == old(self).dseg@,
    {
        let obj = crate::cpu::reg_param0();

        self.test_if_nil_bailout(pos, obj);

        // load vtable from the object header
        self.load_mem(MachineMode::Ptr, crate::cpu::reg_result(), Mem::Base(obj, 0));

        // load the method slot
        let disp = crate::mem::VTABLE_METHOD_TABLE_OFFSET + (vtable_index as i32) * 8;
        self.load_mem(
            MachineMode::Ptr,
            crate::cpu::reg_result(),
            Mem::Base(crate::cpu::reg_result(), disp),
        );

        // call *REG_RESULT
        self.call_reg(crate::cpu::reg_result());
        self.emit_lazy_compilation_site(site);
        assert(final (self).data@ =~= old(self).data@ + MacroAssembler::virtual_call_bytes(
            vtable_index,
        ));
    }

    /// Null check, vtable load, slot load and indirect call.
    pub open spec fn virtual_call_bytes(vtable_index: u32) -> Seq<u8> {
        enc::alu_rr_bytes(0, 0x85, Reg(7), Reg(7)) + seq![
            0x0fu8,
            enc::jcc_opcode(CondCode::Zero),
        ] + crate::masm::le32(0) + MacroAssembler::load_mem_bytes(
            MachineMode::Ptr,
            Reg(0),
            Mem::Base(Reg(7), 0),
        ) + MacroAssembler::load_mem_bytes(
            MachineMode::Ptr,
            Reg(0),
            Mem::Base(
                Reg(0),
                (crate::mem::VTABLE_METHOD_TABLE_OFFSET + (vtable_index as int) * 8) as i32,
            ),
        ) + enc::opt_rex(false, false, 0, 0, 0) + seq![0xFFu8, enc::modrm_byte(0b11, 0b010, 0)]
    }
}

impl MacroAssembler {
    /// Old-style virtual call: loads the vtable and the indexed slot from
    /// the receiver in the first argument register and calls it.
    pub fn indirect_call(&mut self, index: u32)
        requires
            old(self).wf(),
            crate::mem::VTABLE_METHOD_TABLE_OFFSET + 8 * (index as int) <= i32::MAX,
        ensures
            final (self).wf(),
            MacroAssembler::emitted(
                *old(self),
                *final (self),
                MacroAssembler::indirect_call_bytes(index),
            ),
    {
        let obj = crate::cpu::reg_param0();

        // load vtable from the object
        self.load_mem(MachineMode::Ptr, crate::cpu::reg_result(), Mem::Base(obj, 0));

        // load the vtable entry
        let disp = crate::mem::VTABLE_METHOD_TABLE_OFFSET + (index as i32) * 8;
        self.load_mem(
            MachineMode::Ptr,
            crate::cpu::reg_result(),
            Mem::Base(crate::cpu::reg_result(), disp),
        );

        // call *REG_RESULT
        self.call_reg(crate::cpu::reg_result());
        assert(final (self).data@ =~= old(self).data@ + MacroAssembler::indirect_call_bytes(
            index,
        ));
    }

    pub open spec fn indirect_call_bytes(index: u32) -> Seq<u8> {
        MacroAssembler::load_mem_bytes(MachineMode::Ptr, Reg(0), Mem::Base(Reg(7), 0))
            + MacroAssembler::load_mem_bytes(
            MachineMode::Ptr,
            Reg(0),
            Mem::Base(
                Reg(0),
                (crate::mem::VTABLE_METHOD_TABLE_OFFSET + (index as int) * 8) as i32,
            ),
        ) + enc::opt_rex(false, false, 0, 0, 0) + seq![0xFFu8, enc::modrm_byte(0b11, 0b010, 0)]
    }

    /// Three-way integer comparison: leaves 1, 0 or -1 in `dest` for
    /// greater, equal, less.
    pub fn cmp_int(&mut self, mode: MachineMode, dest: Reg, lhs: Reg, rhs: Reg)
        requires
            old(self).wf(),
            mode == MachineMode::Int32 || mode == MachineMode::Int64,
            dest.valid(),
            lhs.valid(),
            rhs.valid(),
        ensures
            final (self).wf(),
            MacroAssembler::emitted(
                *old(self),
                *final (self),
                MacroAssembler::cmp_int_bytes(mode, dest, lhs, rhs),
            ),
    {
        let scratch = crate::cpu::r11();
        enc::emit_alu_rr_pub(self, 0, 0x31, dest, dest);
        enc::emit_cmp_reg_reg(self, if mode.is64() { 1 } else { 0 }, rhs, lhs);
        enc::emit_setb_reg(self, CondCode::UnsignedGreater, dest);
        enc::emit_movl_imm_reg(self, -1, scratch);
        enc::emit_cmov(self, 0, dest, scratch, CondCode::UnsignedLess);
        assert(final (self).data@ =~= old(self).data@ + MacroAssembler::cmp_int_bytes(
            mode,
            dest,
            lhs,
            rhs,
        ));
    }

    pub open spec fn cmp_int_bytes(mode: MachineMode, dest: Reg, lhs: Reg, rhs: Reg) -> Seq<u8> {
        enc::alu_rr_bytes(0, 0x31, dest, dest) + enc::alu_rr_bytes(w8(mode), 0x39, rhs, lhs)
            + enc::setb_reg_bytes(CondCode::UnsignedGreater, dest) + enc::opt_rex(
            Reg(11).0 / 8 != 0,
            false,
            0,
            0,
            Reg(11).0 / 8,
        ) + seq![(0xB8 + Reg(11).0 % 8) as u8] + crate::masm::le32(enc::imm32(-1i32)) + enc::cmov_bytes(
            0,
            dest,
            Reg(11),
            CondCode::UnsignedLess,
        )
    }

    /// Three-way float comparison with the same result convention.
    pub fn float_cmp_int(&mut self, mode: MachineMode, dest: Reg, lhs: FReg, rhs: FReg)
        requires
            old(self).wf(),
            mode == MachineMode::Float32 || mode == MachineMode::Float64,
            dest.valid(),
            lhs.valid(),
            rhs.valid(),
        ensures
            final (self).wf(),
            MacroAssembler::emitted(
                *old(self),
                *final (self),
                MacroAssembler::float_cmp_int_bytes(mode, dest, lhs, rhs),
            ),
    {
        let scratch = crate::cpu::r11();
        enc::emit_alu_rr_pub(self, 0, 0x31, dest, dest);
        match mode {
            MachineMode::Float64 => enc::ucomisd(self, lhs, rhs),
            _ => enc::ucomiss(self, lhs, rhs),
        }
        enc::emit_setb_reg(self, CondCode::UnsignedGreater, dest);
        enc::emit_movl_imm_reg(self, -1, scratch);
        enc::emit_cmov(self, 0, dest, scratch, CondCode::UnsignedLess);
        assert(final (self).data@ =~= old(self).data@ + MacroAssembler::float_cmp_int_bytes(
            mode,
            dest,
            lhs,
            rhs,
        ));
    }

    pub open spec fn float_cmp_int_bytes(mode: MachineMode, dest: Reg, lhs: FReg, rhs: FReg) -> Seq<u8> {
        enc::alu_rr_bytes(0, 0x31, dest, dest) + enc::sse_rr_bytes(
            if mode == MachineMode::Float32 {
                Seq::<u8>::empty()
            } else {
                seq![0x66u8]
            },
            0x2E,
            lhs,
            rhs,
        ) + enc::setb_reg_bytes(CondCode::UnsignedGreater, dest) + enc::opt_rex(
            Reg(11).0 / 8 != 0,
            false,
            0,
            0,
            Reg(11).0 / 8,
        ) + seq![(0xB8 + Reg(11).0 % 8) as u8] + crate::masm::le32(enc::imm32(-1i32)) + enc::cmov_bytes(
            0,
            dest,
            Reg(11),
            CondCode::UnsignedLess,
        )
    }

    /// Sets `dest` to 1 exactly when the float register holds a nan.
    pub fn float_cmp_nan(&mut self, mode: MachineMode, dest: Reg, src: FReg)
        requires
            old(self).wf(),
            mode == MachineMode::Float32 || mode == MachineMode::Float64,
            dest.valid(),
            src.valid(),
        ensures
            final (self).wf(),
            MacroAssembler::emitted(
                *old(self),
                *final (self),
                enc::alu_rr_bytes(0, 0x31, dest, dest) + enc::sse_rr_bytes(
                    if mode == MachineMode::Float32 {
                        Seq::<u8>::empty()
                    } else {
                        seq![0x66u8]
                    },
                    0x2E,
                    src,
                    src,
                ) + enc::set_parity_bytes(true, dest),
            ),
    {
        enc::emit_alu_rr_pub(self, 0, 0x31, dest, dest);

        match mode {
            MachineMode::Float64 => enc::ucomisd(self, src, src),
            _ => enc::ucomiss(self, src, src),
        }

        enc::emit_set_parity(self, true, dest);
        assert(final (self).data@ =~= old(self).data@ + (enc::alu_rr_bytes(0, 0x31, dest, dest)
            + enc::sse_rr_bytes(
            if mode == MachineMode::Float32 {
                Seq::<u8>::empty()
            } else {
                seq![0x66u8]
            },
            0x2E,
            src,
            src,
        ) + enc::set_parity_bytes(true, dest)));
    }

    /// Boolean float comparison for one condition code. Equality tests
    /// consult the parity flag so that nan compares unequal; orderings are
    /// emitted as unsigned tests, with the operands swapped for less-than
    /// forms.
    #[verifier::rlimit(100)]
    pub fn float_cmp(&mut self, mode: MachineMode, dest: Reg, lhs: FReg, rhs: FReg, cond: CondCode)
        requires
            old(self).wf(),
            mode == MachineMode::Float32 || mode == MachineMode::Float64,
            cond == CondCode::Equal || cond == CondCode::NotEqual || cond == CondCode::Greater
                || cond == CondCode::GreaterEq || cond == CondCode::Less || cond
                == CondCode::LessEq,
            dest.valid(),
            lhs.valid(),
            rhs.valid(),
        ensures
            final (self).wf(),
            MacroAssembler::emitted(
                *old(self),
                *final (self),
                MacroAssembler::float_cmp_bytes(mode, dest, lhs, rhs, cond),
            ),
    {
        let scratch = crate::cpu::r11();

        match cond {
            CondCode::Equal | CondCode::NotEqual => {
                let init: i64 = if cond == CondCode::Equal {
                    0
                } else {
                    1
                };

                self.load_int_const(MachineMode::Int32, scratch, init);
                enc::emit_alu_rr_pub(self, 0, 0x31, dest, dest);

                match mode {
                    MachineMode::Float32 => enc::ucomiss(self, lhs, rhs),
                    _ => enc::ucomisd(self, lhs, rhs),
                }

                let parity = cond == CondCode::NotEqual;
                enc::emit_set_parity(self, parity, dest);
                enc::emit_cmov(self, 0, dest, scratch, CondCode::NotEqual);
            },
            CondCode::Greater | CondCode::GreaterEq => {
                self.load_int_const(MachineMode::Int32, dest, 0);

                match mode {
                    MachineMode::Float32 => enc::ucomiss(self, lhs, rhs),
                    _ => enc::ucomisd(self, lhs, rhs),
                }

                let cond = if cond == CondCode::Greater {
                    CondCode::UnsignedGreater
                } else {
                    CondCode::UnsignedGreaterEq
                };

                enc::emit_setb_reg(self, cond, dest);
            },
            _ => {
                enc::emit_alu_rr_pub(self, 0, 0x31, dest, dest);

                match mode {
                    MachineMode::Float32 => enc::ucomiss(self, rhs, lhs),
                    _ => enc::ucomisd(self, rhs, lhs),
                }

                let cond = if cond == CondCode::Less {
                    CondCode::UnsignedGreater
                } else {
                    CondCode::UnsignedGreaterEq
                };

                enc::emit_setb_reg(self, cond, dest);
            },
        }
        assert(final (self).data@ =~= old(self).data@ + MacroAssembler::float_cmp_bytes(
            mode,
            dest,
            lhs,
            rhs,
            cond,
        ));
    }

    pub open spec fn float_cmp_bytes(
        mode: MachineMode,
        dest: Reg,
        lhs: FReg,
        rhs: FReg,
        cond: CondCode,
    ) -> Seq<u8> {
        let sse_prefix = if mode == MachineMode::Float32 {
            Seq::<u8>::empty()
        } else {
            seq![0x66u8]
        };
        if cond == CondCode::Equal || cond == CondCode::NotEqual {
            MacroAssembler::load_int_const_bytes(
                MachineMode::Int32,
                Reg(11),
                if cond == CondCode::Equal {
                    0
                } else {
                    1
                },
            ) + enc::alu_rr_bytes(0, 0x31, dest, dest) + enc::sse_rr_bytes(sse_prefix, 0x2E, lhs, rhs)
                + enc::set_parity_bytes(cond == CondCode::NotEqual, dest) + enc::cmov_bytes(
                0,
                dest,
                Reg(11),
                CondCode::NotEqual,
            )
        } else if cond == CondCode::Greater || cond == CondCode::GreaterEq {
            MacroAssembler::load_int_const_bytes(MachineMode::Int32, dest, 0) + enc::sse_rr_bytes(
                sse_prefix,
                0x2E,
                lhs,
                rhs,
            ) + enc::setb_reg_bytes(
                if cond == CondCode::Greater {
                    CondCode::UnsignedGreater
                } else {
                    CondCode::UnsignedGreaterEq
                },
                dest,
            )
        } else {
            enc::alu_rr_bytes(0, 0x31, dest, dest) + enc::sse_rr_bytes(sse_prefix, 0x2E, rhs, lhs)
                + enc::setb_reg_bytes(
                if cond == CondCode::Less {
                    CondCode::UnsignedGreater
                } else {
                    CondCode::UnsignedGreaterEq
                },
                dest,
            )
        }
    }
}

} // verus!
