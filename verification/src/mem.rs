use vstd::prelude::*;

verus! {

/// Width of a native pointer on the only supported target (x86-64).
pub const PTR_WIDTH: i32 = 8;

/// Size of every heap object's header: vtable pointer plus one word for the
/// collector's metadata.
pub const HEADER_SIZE: i32 = 16;

/// Arrays store their length directly after the header.
pub const ARRAY_LENGTH_OFFSET: i32 = 16;

/// Array element 0 begins after header and length word.
pub const ARRAY_DATA_OFFSET: i32 = 24;

/// Log2 of the card size used by the write barrier.
pub const CARD_SIZE_BITS: u8 = 9;

/// Offset of the first method slot inside a vtable.
pub const VTABLE_METHOD_TABLE_OFFSET: i32 = 32;

pub fn ptr_width() -> (r: i32)
    ensures
        r == PTR_WIDTH,
{
    PTR_WIDTH
}

pub fn ptr_width_usize() -> (r: usize)
    ensures
        r == PTR_WIDTH,
{
    PTR_WIDTH as usize
}

/// `value` rounded up to the next multiple of `align`; `align == 0` keeps
/// the value as it is.
pub open spec fn align_i32_spec(value: int, align: int) -> int {
    if align == 0 {
        value
    } else {
        ((value + align - 1) / align) * align
    }
}

proof fn lemma_align_i32_bounds(value: int, align: int)
    requires
        0 <= value,
        0 < align,
    ensures
        value <= align_i32_spec(value, align) < value + align,
        align_i32_spec(value, align) % align == 0,
{
    assert(value <= ((value + align - 1) / align) * align < value + align && ((value + align
        - 1) / align) * align % align == 0) by (nonlinear_arith)
        requires
            0 <= value,
            0 < align,
    ;
}

/// Rounding up to an alignment keeps the value non-negative.
pub proof fn lemma_align_nonneg(value: int, align: int)
    requires
        0 <= value,
        0 < align,
    ensures
        align_i32_spec(value, align) >= 0,
{
    assert(((value + align - 1) / align) * align >= 0) by (nonlinear_arith)
        requires
            0 <= value,
            0 < align,
    ;
}

/// Rounding up to an alignment never shrinks the value.
pub proof fn lemma_align_grows(value: int, align: int)
    requires
        0 <= value,
        0 < align,
    ensures
        align_i32_spec(value, align) >= value,
{
    assert(((value + align - 1) / align) * align >= value) by (nonlinear_arith)
        requires
            0 <= value,
            0 < align,
    ;
}

/// Rounding up to an alignment adds less than one alignment unit.
pub proof fn lemma_align_upper(value: int, align: int)
    requires
        0 <= value,
        0 < align,
    ensures
        align_i32_spec(value, align) <= value + align - 1,
{
    assert(((value + align - 1) / align) * align <= value + align - 1) by (nonlinear_arith)
        requires
            0 <= value,
            0 < align,
    ;
}

/// The rounded value is a multiple of the alignment.
pub proof fn lemma_align_mod(value: int, align: int)
    requires
        0 <= value,
        0 < align,
    ensures
        align_i32_spec(value, align) % align == 0,
{
    assert((((value + align - 1) / align) * align) % align == 0) by (nonlinear_arith)
        requires
            0 <= value,
            0 < align,
    ;
}

pub fn align_i32(value: i32, align: i32) -> (r: i32)
    requires
        0 <= value,
        0 <= align,
        value + align <= i32::MAX,
    ensures
        r == align_i32_spec(value as int, align as int),
        value <= r <= value + align,
        align > 0 ==> r % align == 0,
{
    if align == 0 {
        return value;
    }
    proof {
        lemma_align_i32_bounds(value as int, align as int);
    }
    ((value + align - 1) / align) * align
}

pub fn fits_u8(value: i64) -> (r: bool)
    ensures
        r == (0 <= value <= u8::MAX),
{
    0 <= value && value <= 255
}

pub fn fits_i32(value: i64) -> (r: bool)
    ensures
        r == (i32::MIN <= value <= i32::MAX),
{
    i32::MIN as i64 <= value && value <= i32::MAX as i64
}

} // verus!
