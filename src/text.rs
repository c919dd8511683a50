//! Decimal and hexadecimal rendering of integers.
use vstd::prelude::*;
use vstd::string::*;

verus! {

/// The sixteen digit characters, in order of value.
pub open spec fn digit_table() -> Seq<char> {
    "0123456789ABCDEF"@
}

/// The character of digit value `d` (`d < 16`), upper case beyond nine.
pub open spec fn digit_char(d: nat) -> char {
    digit_table()[d as int]
}

/// The decimal digits of `n`, most significant first, without leading zeros.
pub open spec fn decimal(n: nat) -> Seq<char>
    decreases n,
{
    if n < 10 {
        seq![digit_char(n)]
    } else {
        decimal(n / 10).push(digit_char(n % 10))
    }
}

/// The last `width` hexadecimal digits of `n`, most significant first, padded with zeros.
pub open spec fn hex_digits(n: nat, width: nat) -> Seq<char>
    decreases width,
{
    if width == 0 {
        Seq::empty()
    } else {
        hex_digits(n / 16, (width - 1) as nat).push(digit_char(n % 16))
    }
}

/// The one-character text of digit value `d`.
fn digit_str(d: u64) -> (r: &'static str)
    requires
        d < 16,
    ensures
        r@ == seq![digit_char(d as nat)],
{
    let table = "0123456789ABCDEF";
    proof {
        reveal_strlit("0123456789ABCDEF");
    }
    let r = table.substring_char(d as usize, d as usize + 1);
    assert(r@ =~= seq![digit_char(d as nat)]);
    r
}

/// Appends the decimal digits of `n` to `out`.
pub fn push_decimal(out: &mut String, n: u64)
    ensures
        final(out)@ == old(out)@ + decimal(n as nat),
    decreases n,
{
    if n >= 10 {
        push_decimal(out, n / 10);
    }
    let d = digit_str(n % 10);
    out.append(d);
    proof {
        if n >= 10 {
            assert(decimal(n as nat) == decimal((n / 10) as nat).push(digit_char((n % 10) as nat)));
        }
        assert(final(out)@ =~= old(out)@ + decimal(n as nat));
    }
}

/// Appends the last `width` hexadecimal digits of `n` to `out`, padded with zeros.
pub fn push_hex(out: &mut String, n: u64, width: u64)
    ensures
        final(out)@ == old(out)@ + hex_digits(n as nat, width as nat),
    decreases width,
{
    if width > 0 {
        push_hex(out, n / 16, width - 1);
        let d = digit_str(n % 16);
        out.append(d);
        proof {
            assert(final(out)@ =~= old(out)@ + hex_digits(n as nat, width as nat));
        }
    } else {
        proof {
            assert(final(out)@ =~= old(out)@ + hex_digits(n as nat, width as nat));
        }
    }
}

} // verus!

verus! {

/// The decimal text of a signed integer, with a leading `-` when negative.
pub open spec fn signed_decimal(i: int) -> Seq<char> {
    if i < 0 {
        seq!['-'] + decimal((-i) as nat)
    } else {
        decimal(i as nat)
    }
}

/// Appends the decimal text of the signed integer `i` to `out`.
pub fn push_signed_decimal(out: &mut String, i: i32)
    ensures
        final(out)@ == old(out)@ + signed_decimal(i as int),
{
    if i < 0 {
        out.append("-");
        proof {
            reveal_strlit("-");
        }
        let magnitude: i64 = -(i as i64);
        push_decimal(out, magnitude as u64);
        assert(final(out)@ =~= old(out)@ + signed_decimal(i as int));
    } else {
        push_decimal(out, i as u64);
    }
}

} // verus!
