pub mod x64;

use vstd::prelude::*;

use crate::code::LazyCompilationSite;
use crate::position::Position;

verus! {

/// Condition codes understood by the jump and set emitters.
#[derive(Clone, Copy, Debug, PartialEq, Eq, Structural)]
pub enum CondCode {
    Zero,
    NonZero,
    Equal,
    NotEqual,
    Greater,
    GreaterEq,
    Less,
    LessEq,
    UnsignedGreater,
    UnsignedGreaterEq,
    UnsignedLess,
    UnsignedLessEq,
}

/// Handle for a position in the code buffer; created first, bound to an
/// offset later.
#[derive(Clone, Copy, Debug, PartialEq, Eq, Structural)]
pub struct Label(pub usize);

impl Label {
    pub fn index(&self) -> (r: usize)
        ensures
            r == self.0,
    {
        self.0
    }
}

/// A memory operand of an instruction.
#[derive(Clone, Copy, Debug, PartialEq, Eq, Structural)]
pub enum Mem {
    /// Frame-pointer relative slot of a local variable.
    Local(i32),
    /// Base register plus displacement.
    Base(crate::cpu::Reg, i32),
    /// Base plus scaled index plus displacement.
    Index(crate::cpu::Reg, crate::cpu::Reg, i32, i32),
}

/// Trap codes raised from emitted code.
#[derive(Clone, Copy, Debug, PartialEq, Eq, Structural)]
#[allow(non_camel_case_types)]
pub enum Trap {
    DIV0,
    ASSERT,
    INDEX_OUT_OF_BOUNDS,
    NIL,
    CAST,
    OOM,
    STACK_OVERFLOW,
    ILLEGAL,
    OVERFLOW,
}

impl Trap {
    /// The numeric code pushed into the trap stub.
    pub fn to_int(self) -> (r: u32)
        ensures
            r == self.code(),
    {
        match self {
            Trap::DIV0 => 1,
            Trap::ASSERT => 2,
            Trap::INDEX_OUT_OF_BOUNDS => 3,
            Trap::NIL => 4,
            Trap::CAST => 5,
            Trap::OOM => 6,
            Trap::STACK_OVERFLOW => 7,
            Trap::ILLEGAL => 8,
            Trap::OVERFLOW => 9,
        }
    }

    pub open spec fn code(self) -> u32 {
        match self {
            Trap::DIV0 => 1,
            Trap::ASSERT => 2,
            Trap::INDEX_OUT_OF_BOUNDS => 3,
            Trap::NIL => 4,
            Trap::CAST => 5,
            Trap::OOM => 6,
            Trap::STACK_OVERFLOW => 7,
            Trap::ILLEGAL => 8,
            Trap::OVERFLOW => 9,
        }
    }
}

/// A jump that was emitted before its target label was bound; the four bytes
/// at `at` are patched once the label is known.
#[derive(Clone, Copy, Debug, PartialEq, Eq, Structural)]
pub struct ForwardJump {
    pub at: usize,
    pub to: Label,
}

/// A pending trap exit: the label is bound at the end of the function and
/// followed by a trap sequence for the given code.
#[derive(Clone, Copy, Debug, PartialEq, Eq, Structural)]
pub struct Bailout {
    pub label: Label,
    pub trap: Trap,
    pub pos: Position,
}

/// The 32-bit two's-complement encoding of a signed distance.
pub open spec fn disp32(v: int) -> u32 {
    (v % 0x1_0000_0000) as u32
}

/// The little-endian bytes of a 32-bit value.
pub open spec fn le32(v: u32) -> Seq<u8> {
    seq![
        (v & 0xff) as u8,
        ((v >> 8) & 0xff) as u8,
        ((v >> 16) & 0xff) as u8,
        ((v >> 24) & 0xff) as u8,
    ]
}

/// The little-endian bytes of a 64-bit value.
pub open spec fn le64(v: u64) -> Seq<u8> {
    seq![
        (v & 0xff) as u8,
        ((v >> 8) & 0xff) as u8,
        ((v >> 16) & 0xff) as u8,
        ((v >> 24) & 0xff) as u8,
        ((v >> 32) & 0xff) as u8,
        ((v >> 40) & 0xff) as u8,
        ((v >> 48) & 0xff) as u8,
        ((v >> 56) & 0xff) as u8,
    ]
}

/// Buffer of machine bytes together with the label table, pending forward
/// jumps, pending trap exits, and the function's embedded constant pool.
pub struct MacroAssembler {
    pub data: Vec<u8>,
    pub labels: Vec<Option<usize>>,
    pub jumps: Vec<ForwardJump>,
    pub bailouts: Vec<Bailout>,
    pub dseg: Vec<u64>,
    pub lazy_compilation_sites: Vec<(usize, LazyCompilationSite)>,
}

impl MacroAssembler {
    /// Label table and jump table are consistent with the code buffer: bound
    /// labels lie inside the emitted code, and every recorded forward jump
    /// patches four bytes that were already emitted, at least four bytes
    /// before its label's target.
    pub open spec fn wf(self) -> bool {
        &&& forall|i: int|
            0 <= i < self.labels@.len() && self.labels@[i] is Some ==> self.labels@[i]->0
                <= self.data@.len()
        &&& forall|j: int|
            0 <= j < self.jumps@.len() ==> {
                &&& (#[trigger] self.jumps@[j]).to.0 < self.labels@.len()
                &&& self.jumps@[j].at + 4 <= self.data@.len()
                &&& (self.labels@[self.jumps@[j].to.0 as int] matches Some(t) ==> self.jumps@[
                    j].at + 4 <= t)
            }
        &&& forall|j1: int, j2: int|
            0 <= j1 < j2 < self.jumps@.len() ==> (#[trigger] self.jumps@[j1]).at + 4 <= (
            #[trigger] self.jumps@[j2]).at
    }

    /// Everything except the code buffer is unchanged, and the code buffer
    /// was extended by exactly `bytes`.
    pub open spec fn emitted(pre: MacroAssembler, post: MacroAssembler, bytes: Seq<u8>) -> bool {
        &&& post.data@ == pre.data@ + bytes
        &&& post.labels@ == pre.labels@
        &&& post.jumps@ == pre.jumps@
        &&& post.bailouts@ == pre.bailouts@
        &&& post.dseg@ == pre.dseg@
        &&& post.lazy_compilation_sites@ == pre.lazy_compilation_sites@
    }

    pub fn new() -> (r: MacroAssembler)
        ensures
            r.data@ == Seq::<u8>::empty(),
            r.labels@ == Seq::<Option<usize>>::empty(),
            r.jumps@ == Seq::<ForwardJump>::empty(),
            r.bailouts@ == Seq::<Bailout>::empty(),
            r.dseg@ == Seq::<u64>::empty(),
            r.lazy_compilation_sites@ == Seq::<(usize, LazyCompilationSite)>::empty(),
            r.wf(),
    {
        MacroAssembler {
            data: Vec::new(),
            labels: Vec::new(),
            jumps: Vec::new(),
            bailouts: Vec::new(),
            dseg: Vec::new(),
            lazy_compilation_sites: Vec::new(),
        }
    }

    /// Records that the instruction ending at the current position is a
    /// lazy-compilation call site.
    pub fn emit_lazy_compilation_site(&mut self, site: LazyCompilationSite)
        ensures
            final (self).lazy_compilation_sites@ == old(self).lazy_compilation_sites@.push(
                (old(self).data@.len() as usize, site),
            ),
            final (self).data@ == old(self).data@,
            final (self).labels@ == old(self).labels@,
            final (self).jumps@ == old(self).jumps@,
            final (self).bailouts@ == old(self).bailouts@,
            final (self).dseg@ == old(self).dseg@,
            old(self).wf() ==> final (self).wf(),
    {
        let pos = self.data.len();
        self.lazy_compilation_sites.push((pos, site));
    }

    /// Current position: the number of bytes emitted so far.
    pub fn pos(&self) -> (r: usize)
        ensures
            r == self.data@.len(),
    {
        self.data.len()
    }

    pub fn emit_u8(&mut self, value: u8)
        ensures
            MacroAssembler::emitted(*old(self), *final (self), seq![value]),
            old(self).wf() ==> final (self).wf(),
    {
        self.data.push(value);
        assert(self.data@ =~= old(self).data@ + seq![value]);
    }

    pub fn emit_u32(&mut self, value: u32)
        ensures
            MacroAssembler::emitted(*old(self), *final (self), le32(value)),
            old(self).wf() ==> final (self).wf(),
    {
        self.data.push((value & 0xff) as u8);
        self.data.push(((value >> 8) & 0xff) as u8);
        self.data.push(((value >> 16) & 0xff) as u8);
        self.data.push(((value >> 24) & 0xff) as u8);
        assert(self.data@ =~= old(self).data@ + le32(value));
    }

    pub fn emit_u64(&mut self, value: u64)
        ensures
            MacroAssembler::emitted(*old(self), *final (self), le64(value)),
            old(self).wf() ==> final (self).wf(),
    {
        self.data.push((value & 0xff) as u8);
        self.data.push(((value >> 8) & 0xff) as u8);
        self.data.push(((value >> 16) & 0xff) as u8);
        self.data.push(((value >> 24) & 0xff) as u8);
        self.data.push(((value >> 32) & 0xff) as u8);
        self.data.push(((value >> 40) & 0xff) as u8);
        self.data.push(((value >> 48) & 0xff) as u8);
        self.data.push(((value >> 56) & 0xff) as u8);
        assert(self.data@ =~= old(self).data@ + le64(value));
    }

    /// Emits a one-byte no-op.
    pub fn nop(&mut self)
        ensures
            MacroAssembler::emitted(*old(self), *final (self), seq![0x90u8]),
            old(self).wf() ==> final (self).wf(),
    {
        self.emit_u8(0x90);
    }

    /// Creates a fresh, unbound label.
    pub fn create_label(&mut self) -> (r: Label)
        ensures
            final (self).labels@ == old(self).labels@.push(None),
            final (self).data@ == old(self).data@,
            final (self).jumps@ == old(self).jumps@,
            final (self).bailouts@ == old(self).bailouts@,
            final (self).dseg@ == old(self).dseg@,
            final (self).lazy_compilation_sites@ == old(self).lazy_compilation_sites@,
            r.0 == old(self).labels@.len(),
            old(self).wf() ==> final (self).wf(),
    {
        let idx = self.labels.len();
        self.labels.push(None);
        Label(idx)
    }

    /// Binds `lbl` to the current position.
    pub fn bind_label(&mut self, lbl: Label)
        requires
            lbl.0 < old(self).labels@.len(),
            old(self).labels@[lbl.0 as int] is None,
            old(self).wf(),
        ensures
            final (self).labels@ == old(self).labels@.update(
                lbl.0 as int,
                Some(old(self).data@.len() as usize),
            ),
            final (self).data@ == old(self).data@,
            final (self).jumps@ == old(self).jumps@,
            final (self).bailouts@ == old(self).bailouts@,
            final (self).dseg@ == old(self).dseg@,
            final (self).lazy_compilation_sites@ == old(self).lazy_compilation_sites@,
            final (self).wf(),
    {
        let pos = self.data.len();
        self.labels.set(lbl.0, Some(pos));
    }

    /// What the four displacement bytes of a jump to `target` must hold when
    /// the jump's displacement field starts at `at`: the signed distance from
    /// the end of the jump instruction to the target, in its 32-bit
    /// two's-complement encoding.
    pub open spec fn jump_disp(at: int, target: int) -> Seq<u8> {
        le32(disp32(target - (at + 4)))
    }

    /// Emits the four displacement bytes of a jump to `lbl`. A bound label
    /// gets the backward distance at once; an unbound one gets a placeholder
    /// and a recorded forward jump, patched by `fix_forward_jumps`.
    pub fn emit_label(&mut self, lbl: Label)
        requires
            lbl.0 < old(self).labels@.len(),
            old(self).data@.len() + 4 <= 0xffff_ffff,
            old(self).wf(),
        ensures
            final (self).wf(),
            final (self).labels@ == old(self).labels@,
            final (self).bailouts@ == old(self).bailouts@,
            final (self).dseg@ == old(self).dseg@,
            final (self).lazy_compilation_sites@ == old(self).lazy_compilation_sites@,
            final (self).data@.len() == old(self).data@.len() + 4,
            old(self).labels@[lbl.0 as int] matches Some(t) ==> {
                &&& final (self).data@ == old(self).data@ + MacroAssembler::jump_disp(
                    old(self).data@.len() as int,
                    t as int,
                )
                &&& final (self).jumps@ == old(self).jumps@
            },
            old(self).labels@[lbl.0 as int] is None ==> {
                &&& final (self).data@ == old(self).data@ + le32(0)
                &&& final (self).jumps@ == old(self).jumps@.push(
                    ForwardJump { at: old(self).data@.len() as usize, to: lbl },
                )
            },
    {
        let value = self.labels[lbl.0];

        match value {
            // backward jumps already know their target
            Some(idx) => {
                let current = self.pos() + 4;
                let target = idx;

                // two's complement of the backward distance
                let dist = current - target;
                let diff: u32 = if dist == 0 {
                    0
                } else {
                    (0xffff_ffffu64 - (dist as u64 - 1)) as u32
                };
                proof {
                    let m: int = 0x1_0000_0000;
                    if dist > 0 {
                        vstd::arithmetic::div_mod::lemma_mod_multiples_vanish(
                            -1,
                            m - dist as int,
                            m,
                        );
                        vstd::arithmetic::div_mod::lemma_small_mod(
                            (m - dist as int) as nat,
                            m as nat,
                        );
                    } else {
                        vstd::arithmetic::div_mod::lemma_small_mod(0, m as nat);
                    }
                    assert(diff == disp32(target as int - (current as int)));
                }
                self.emit_u32(diff);
            },
            // forward jumps do not know their target yet; patched later
            None => {
                let pos = self.pos();
                self.emit_u32(0);
                self.jumps.push(ForwardJump { at: pos, to: lbl });
            },
        }
    }

    /// Every forward jump's target label is bound.
    pub open spec fn all_jumps_bound(self) -> bool {
        forall|j: int|
            0 <= j < self.jumps@.len() ==> self.labels@[(#[trigger] self.jumps@[j]).to.0 as int]
                is Some
    }

    /// Patches the displacement of every recorded forward jump with the
    /// distance from the instruction following the jump to the bound label.
    pub fn fix_forward_jumps(&mut self)
        requires
            old(self).wf(),
            old(self).all_jumps_bound(),
            old(self).data@.len() <= 0xffff_ffff,
        ensures
            final (self).wf(),
            final (self).labels@ == old(self).labels@,
            final (self).jumps@ == old(self).jumps@,
            final (self).bailouts@ == old(self).bailouts@,
            final (self).dseg@ == old(self).dseg@,
            final (self).lazy_compilation_sites@ == old(self).lazy_compilation_sites@,
            final (self).data@.len() == old(self).data@.len(),
            forall|j: int|
                0 <= j < old(self).jumps@.len() ==> {
                    let at = (#[trigger] old(self).jumps@[j]).at as int;
                    let target = old(self).labels@[old(self).jumps@[j].to.0 as int]->0 as int;
                    final (self).data@.subrange(at, at + 4) == MacroAssembler::jump_disp(
                        at,
                        target,
                    )
                },
            forall|i: int|
                0 <= i < old(self).data@.len() && (forall|j: int|
                    0 <= j < old(self).jumps@.len() ==> !((#[trigger] old(self).jumps@[j]).at <= i
                        < old(self).jumps@[j].at + 4)) ==> final (self).data@[i] == old(
                    self,
                ).data@[i],
    {
        let mut i: usize = 0;
        while i < self.jumps.len()
            invariant
                self.wf(),
                self.all_jumps_bound(),
                old(self).data@.len() <= 0xffff_ffff,
                i <= self.jumps@.len(),
                self.labels@ == old(self).labels@,
                self.jumps@ == old(self).jumps@,
                self.bailouts@ == old(self).bailouts@,
                self.dseg@ == old(self).dseg@,
                self.lazy_compilation_sites@ == old(self).lazy_compilation_sites@,
                self.data@.len() == old(self).data@.len(),
                forall|j: int|
                    0 <= j < i ==> {
                        let at = (#[trigger] old(self).jumps@[j]).at as int;
                        let target = old(self).labels@[old(self).jumps@[j].to.0 as int]->0 as int;
                        self.data@.subrange(at, at + 4) == MacroAssembler::jump_disp(at, target)
                    },
                forall|k: int|
                    0 <= k < old(self).data@.len() && (forall|j: int|
                        0 <= j < old(self).jumps@.len() ==> !((#[trigger] old(
                            self,
                        ).jumps@[j]).at <= k < old(self).jumps@[j].at + 4)) ==> self.data@[k]
                        == old(self).data@[k],
            decreases self.jumps@.len() - i,
        {
            let jmp = self.jumps[i];
            let target = match self.labels[jmp.to.0] {
                Some(t) => t,
                None => {
                    proof {
                        assert(false);
                    }
                    0
                },
            };
            let ghost pre = self.data@;
            proof {
                assert(self.jumps@[i as int].to.0 < self.labels@.len());
                assert(jmp.at + 4 <= target && target <= self.data@.len());
            }
            let diff = (target - jmp.at - 4) as u64;
            proof {
                vstd::arithmetic::div_mod::lemma_small_mod(diff as nat, 0x1_0000_0000nat);
                assert(diff as u32 == disp32(target as int - (jmp.at as int + 4)));
            }
            crate::masm::x64::write_u32_le_at(&mut self.data, jmp.at, diff as u32);
            proof {
                assert(self.data@.subrange(jmp.at as int, jmp.at + 4) =~= MacroAssembler::jump_disp(
                    jmp.at as int,
                    target as int,
                ));
                assert forall|j: int|
                    0 <= j < i implies {
                    let at = (#[trigger] old(self).jumps@[j]).at as int;
                    let tg = old(self).labels@[old(self).jumps@[j].to.0 as int]->0 as int;
                    self.data@.subrange(at, at + 4) == MacroAssembler::jump_disp(at, tg)
                } by {
                    let at = old(self).jumps@[j].at as int;
                    let tg = old(self).labels@[old(self).jumps@[j].to.0 as int]->0 as int;
                    if at == jmp.at as int {
                        assert(self.data@.subrange(at, at + 4) =~= MacroAssembler::jump_disp(
                            at,
                            target as int,
                        ));
                        assert(tg == target as int);
                    } else if at < jmp.at as int {
                        assert(self.data@.subrange(at, at + 4) =~= pre.subrange(at, at + 4));
                    } else {
                        assert(self.data@.subrange(at, at + 4) =~= pre.subrange(at, at + 4));
                    }
                }
            }
            i = i + 1;
        }
    }

    /// Appends an 8-byte constant-pool entry holding `value` and returns its
    /// displacement: the distance from the end of the pool back to the entry.
    pub fn add_addr(&mut self, value: u64) -> (disp: i32)
        requires
            8 * (old(self).dseg@.len() + 1) <= i32::MAX,
        ensures
            final (self).dseg@ == old(self).dseg@.push(value),
            final (self).data@ == old(self).data@,
            final (self).labels@ == old(self).labels@,
            final (self).jumps@ == old(self).jumps@,
            final (self).bailouts@ == old(self).bailouts@,
            final (self).lazy_compilation_sites@ == old(self).lazy_compilation_sites@,
            disp == 8 * final (self).dseg@.len(),
            old(self).wf() ==> final (self).wf(),
    {
        self.dseg.push(value);
        (8 * self.dseg.len()) as i32
    }

    /// Records a pending trap exit for `lbl`.
    pub fn emit_bailout(&mut self, lbl: Label, trap: Trap, pos: Position)
        ensures
            final (self).bailouts@ == old(self).bailouts@.push(
                Bailout { label: lbl, trap, pos },
            ),
            final (self).data@ == old(self).data@,
            final (self).labels@ == old(self).labels@,
            final (self).jumps@ == old(self).jumps@,
            final (self).dseg@ == old(self).dseg@,
            final (self).lazy_compilation_sites@ == old(self).lazy_compilation_sites@,
            old(self).wf() ==> final (self).wf(),
    {
        self.bailouts.push(Bailout { label: lbl, trap, pos });
    }

    /// Resolves all forward jumps and hands out the finished code; every
    /// forward jump's label must be bound.
    pub fn data(self) -> (r: Vec<u8>)
        requires
            self.wf(),
            self.all_jumps_bound(),
            self.data@.len() <= 0xffff_ffff,
        ensures
            r@.len() == self.data@.len(),
            forall|j: int|
                0 <= j < self.jumps@.len() ==> {
                    let at = (#[trigger] self.jumps@[j]).at as int;
                    let target = self.labels@[self.jumps@[j].to.0 as int]->0 as int;
                    r@.subrange(at, at + 4) == MacroAssembler::jump_disp(at, target)
                },
            forall|i: int|
                0 <= i < self.data@.len() && (forall|j: int|
                    0 <= j < self.jumps@.len() ==> !((#[trigger] self.jumps@[j]).at <= i
                        < self.jumps@[j].at + 4)) ==> r@[i] == self.data@[i],
    {
        let mut this = self;
        this.fix_forward_jumps();
        this.data
    }

    /// Like `data`, but returns `None` instead of demanding that every label
    /// is bound.
    pub fn finalize(self) -> (r: Option<Vec<u8>>)
        requires
            self.wf(),
            self.data@.len() <= 0xffff_ffff,
        ensures
            r is Some <==> self.all_jumps_bound(),
            r matches Some(v) ==> v@.len() == self.data@.len() && (forall|j: int|
                0 <= j < self.jumps@.len() ==> {
                    let at = (#[trigger] self.jumps@[j]).at as int;
                    let target = self.labels@[self.jumps@[j].to.0 as int]->0 as int;
                    v@.subrange(at, at + 4) == MacroAssembler::jump_disp(at, target)
                }),
    {
        let mut i: usize = 0;
        while i < self.jumps.len()
            invariant
                i <= self.jumps@.len(),
                self.wf(),
                forall|j: int|
                    0 <= j < i ==> self.labels@[(#[trigger] self.jumps@[j]).to.0 as int] is Some,
            decreases self.jumps@.len() - i,
        {
            if self.labels[self.jumps[i].to.0].is_none() {
                return None;
            }
            i = i + 1;
        }
        Some(self.data())
    }
}

} // verus!
