use vstd::prelude::*;

verus! {

/// Relies on `String::push`: appends the given character to the end of the
/// string.
#[verifier::external_body]
pub(crate) fn push_char(s: &mut String, c: char)
    ensures
        final (s)@ == old(s)@.push(c),
{
    s.push(c);
}

/// The decimal digit characters of `n`, most significant first.
pub open spec fn dec_str(n: nat) -> Seq<char>
    decreases n,
{
    if n < 10 {
        seq![digit_char(n as int)]
    } else {
        dec_str(n / 10).push(digit_char((n % 10) as int))
    }
}

pub open spec fn digit_char(d: int) -> char {
    if d == 0 {
        '0'
    } else if d == 1 {
        '1'
    } else if d == 2 {
        '2'
    } else if d == 3 {
        '3'
    } else if d == 4 {
        '4'
    } else if d == 5 {
        '5'
    } else if d == 6 {
        '6'
    } else if d == 7 {
        '7'
    } else if d == 8 {
        '8'
    } else {
        '9'
    }
}

fn digit_char_of(d: u32) -> (r: char)
    requires
        d < 10,
    ensures
        r == digit_char(d as int),
{
    match d {
        0 => '0',
        1 => '1',
        2 => '2',
        3 => '3',
        4 => '4',
        5 => '5',
        6 => '6',
        7 => '7',
        8 => '8',
        _ => '9',
    }
}

/// Appends the other string's characters to `s`.
pub(crate) fn push_str(s: &mut String, t: &str)
    ensures
        final (s)@ == old(s)@ + t@,
{
    s.append(t);
}

/// Appends the decimal representation of `n` to `s`.
pub fn push_dec64(s: &mut String, n: u64)
    ensures
        final (s)@ == old(s)@ + dec_str(n as nat),
    decreases n,
{
    if n < 10 {
        push_char(s, digit_char_of((n % 10) as u32));
        assert(s@ =~= old(s)@ + dec_str(n as nat));
    } else {
        push_dec64(s, n / 10);
        push_char(s, digit_char_of((n % 10) as u32));
        assert(s@ =~= old(s)@ + dec_str(n as nat));
    }
}

/// Appends the decimal representation of `v`, with a sign when negative.
pub fn push_dec_signed(s: &mut String, v: i64)
    ensures
        final (s)@ == old(s)@ + dec_str_signed(v as int),
{
    if v >= 0 {
        push_dec64(s, v as u64);
        assert(s@ =~= old(s)@ + dec_str_signed(v as int));
    } else {
        push_char(s, '-');
        let magnitude: u64 = ((-(v + 1)) as u64) + 1;
        push_dec64(s, magnitude);
        assert(s@ =~= old(s)@ + dec_str_signed(v as int));
    }
}

/// The signed decimal digits of `v`.
pub open spec fn dec_str_signed(v: int) -> Seq<char> {
    if v >= 0 {
        dec_str(v as nat)
    } else {
        seq!['-'] + dec_str((-v) as nat)
    }
}

/// Appends the decimal representation of `n` to `s`.
pub fn push_dec(s: &mut String, n: u32)
    ensures
        final (s)@ == old(s)@ + dec_str(n as nat),
    decreases n,
{
    if n < 10 {
        push_char(s, digit_char_of(n));
        assert(s@ =~= old(s)@ + dec_str(n as nat));
    } else {
        push_dec(s, n / 10);
        push_char(s, digit_char_of(n % 10));
        assert(s@ =~= old(s)@ + dec_str(n as nat));
    }
}

} // verus!
