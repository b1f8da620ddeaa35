use vstd::prelude::*;

verus! {

/// A general-purpose x86-64 register, identified by its hardware number
/// (0 = rax .. 15 = r15).
#[derive(Clone, Copy, Debug, PartialEq, Eq, Structural)]
pub struct Reg(pub u8);

pub fn rax() -> (r: Reg)
    ensures
        r == Reg(0),
{
    Reg(0)
}

pub fn rcx() -> (r: Reg)
    ensures
        r == Reg(1),
{
    Reg(1)
}

pub fn rdx() -> (r: Reg)
    ensures
        r == Reg(2),
{
    Reg(2)
}

pub fn rbx() -> (r: Reg)
    ensures
        r == Reg(3),
{
    Reg(3)
}

pub fn rsp() -> (r: Reg)
    ensures
        r == Reg(4),
{
    Reg(4)
}

pub fn rbp() -> (r: Reg)
    ensures
        r == Reg(5),
{
    Reg(5)
}

pub fn rsi() -> (r: Reg)
    ensures
        r == Reg(6),
{
    Reg(6)
}

pub fn rdi() -> (r: Reg)
    ensures
        r == Reg(7),
{
    Reg(7)
}

pub fn r8() -> (r: Reg)
    ensures
        r == Reg(8),
{
    Reg(8)
}

pub fn r9() -> (r: Reg)
    ensures
        r == Reg(9),
{
    Reg(9)
}

pub fn r10() -> (r: Reg)
    ensures
        r == Reg(10),
{
    Reg(10)
}

pub fn r11() -> (r: Reg)
    ensures
        r == Reg(11),
{
    Reg(11)
}

pub fn r12() -> (r: Reg)
    ensures
        r == Reg(12),
{
    Reg(12)
}

pub fn r13() -> (r: Reg)
    ensures
        r == Reg(13),
{
    Reg(13)
}

pub fn r14() -> (r: Reg)
    ensures
        r == Reg(14),
{
    Reg(14)
}

pub fn r15() -> (r: Reg)
    ensures
        r == Reg(15),
{
    Reg(15)
}

/// Pseudo-register standing for rip-relative addressing in memory operands.
pub fn rip() -> (r: Reg)
    ensures
        r == Reg(16),
{
    Reg(16)
}

/// Register holding results of calls.
pub fn reg_result() -> (r: Reg)
    ensures
        r == Reg(0),
{
    Reg(0)
}

/// Scratch register used by composite emitters.
pub fn reg_tmp1() -> (r: Reg)
    ensures
        r == Reg(10),
{
    Reg(10)
}

/// Register holding the pointer to the current thread's local data.
pub fn reg_thread() -> (r: Reg)
    ensures
        r == Reg(14),
{
    Reg(14)
}

/// First integer argument register of the native calling convention.
pub fn reg_param0() -> (r: Reg)
    ensures
        r == Reg(7),
{
    Reg(7)
}

/// Frame pointer.
pub fn reg_fp() -> (r: Reg)
    ensures
        r == Reg(5),
{
    Reg(5)
}

/// Stack pointer.
pub fn reg_sp() -> (r: Reg)
    ensures
        r == Reg(4),
{
    Reg(4)
}

impl Reg {
    pub open spec fn valid(self) -> bool {
        self.0 < 16
    }

    /// Fourth (extension) bit of the register number; goes into rex/vex
    /// prefixes.
    pub fn msb(self) -> (r: u8)
        ensures
            r == self.0 / 8 % 2,
            self.valid() ==> r == self.0 / 8,
    {
        let v: u8 = self.0;
        proof {
            assert((v >> 3) & 0x01 == v / 8 % 2) by (bit_vector);
        }
        (v >> 3) & 0x01
    }

    /// Low three bits of the register number; go into modrm/sib bytes.
    pub fn and7(self) -> (r: u8)
        ensures
            r == self.0 % 8,
    {
        let v: u8 = self.0;
        proof {
            assert(v & 0x07 == v % 8) by (bit_vector);
        }
        v & 0x07
    }

    /// The full register number.
    pub fn num(self) -> (r: u8)
        ensures
            r == self.0,
    {
        self.0
    }
}

/// An xmm register, identified by its hardware number (0 = xmm0 .. 15 = xmm15).
#[derive(Clone, Copy, Debug, PartialEq, Eq, Structural)]
pub struct FReg(pub u8);

pub fn xmm0() -> (r: FReg)
    ensures
        r == FReg(0),
{
    FReg(0)
}

pub fn xmm1() -> (r: FReg)
    ensures
        r == FReg(1),
{
    FReg(1)
}

pub fn xmm2() -> (r: FReg)
    ensures
        r == FReg(2),
{
    FReg(2)
}

pub fn xmm3() -> (r: FReg)
    ensures
        r == FReg(3),
{
    FReg(3)
}

pub fn xmm4() -> (r: FReg)
    ensures
        r == FReg(4),
{
    FReg(4)
}

pub fn xmm5() -> (r: FReg)
    ensures
        r == FReg(5),
{
    FReg(5)
}

pub fn xmm6() -> (r: FReg)
    ensures
        r == FReg(6),
{
    FReg(6)
}

pub fn xmm7() -> (r: FReg)
    ensures
        r == FReg(7),
{
    FReg(7)
}

pub fn xmm8() -> (r: FReg)
    ensures
        r == FReg(8),
{
    FReg(8)
}

pub fn xmm9() -> (r: FReg)
    ensures
        r == FReg(9),
{
    FReg(9)
}

pub fn xmm10() -> (r: FReg)
    ensures
        r == FReg(10),
{
    FReg(10)
}

pub fn xmm11() -> (r: FReg)
    ensures
        r == FReg(11),
{
    FReg(11)
}

pub fn xmm12() -> (r: FReg)
    ensures
        r == FReg(12),
{
    FReg(12)
}

pub fn xmm13() -> (r: FReg)
    ensures
        r == FReg(13),
{
    FReg(13)
}

pub fn xmm14() -> (r: FReg)
    ensures
        r == FReg(14),
{
    FReg(14)
}

pub fn xmm15() -> (r: FReg)
    ensures
        r == FReg(15),
{
    FReg(15)
}

impl FReg {
    pub open spec fn valid(self) -> bool {
        self.0 < 16
    }

    pub fn msb(self) -> (r: u8)
        ensures
            r == self.0 / 8 % 2,
            self.valid() ==> r == self.0 / 8,
    {
        let v: u8 = self.0;
        proof {
            assert((v >> 3) & 0x01 == v / 8 % 2) by (bit_vector);
        }
        (v >> 3) & 0x01
    }

    pub fn and7(self) -> (r: u8)
        ensures
            r == self.0 % 8,
    {
        let v: u8 = self.0;
        proof {
            assert(v & 0x07 == v % 8) by (bit_vector);
        }
        v & 0x07
    }

    pub fn num(self) -> (r: u8)
        ensures
            r == self.0,
    {
        self.0
    }
}

/// Width and register class of a value held in machine code.
#[derive(Clone, Copy, Debug, PartialEq, Eq, Structural)]
pub enum MachineMode {
    Int8,
    Int32,
    Int64,
    Ptr,
    Float32,
    Float64,
}

impl MachineMode {
    /// Size of a value of this mode in bytes.
    pub fn size(self) -> (r: i32)
        ensures
            r == self.size_spec(),
    {
        match self {
            MachineMode::Int8 => 1,
            MachineMode::Int32 => 4,
            MachineMode::Int64 => 8,
            MachineMode::Ptr => 8,
            MachineMode::Float32 => 4,
            MachineMode::Float64 => 8,
        }
    }

    pub open spec fn size_spec(self) -> int {
        match self {
            MachineMode::Int8 => 1,
            MachineMode::Int32 => 4,
            MachineMode::Int64 => 8,
            MachineMode::Ptr => 8,
            MachineMode::Float32 => 4,
            MachineMode::Float64 => 8,
        }
    }

    pub fn is64(self) -> (r: bool)
        ensures
            r == (self == MachineMode::Int64 || self == MachineMode::Ptr),
    {
        match self {
            MachineMode::Int64 | MachineMode::Ptr => true,
            _ => false,
        }
    }

    pub fn is_int8(self) -> (r: bool)
        ensures
            r == (self == MachineMode::Int8),
    {
        match self {
            MachineMode::Int8 => true,
            _ => false,
        }
    }

    pub fn is_float(self) -> (r: bool)
        ensures
            r == (self == MachineMode::Float32 || self == MachineMode::Float64),
    {
        match self {
            MachineMode::Float32 | MachineMode::Float64 => true,
            _ => false,
        }
    }
}

} // verus!
