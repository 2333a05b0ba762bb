//! Decimal rendering of integer constants.
//!
//! Enum discriminants and integer literals are rendered in plain decimal.
//! The renderer is proved to produce exactly the decimal representation
//! `dec_nat` / `dec_int` describe.

use vstd::prelude::*;

verus! {

/// The character of one decimal digit.
pub open spec fn dec_digit(d: nat) -> char {
    if d == 0 {
        '0'
    } else if d == 1 {
        '1'
    } else if d == 2 {
        '2'
    } else if d == 3 {
        '3'
    } else if d == 4 {
        '4'
    } else if d == 5 {
        '5'
    } else if d == 6 {
        '6'
    } else if d == 7 {
        '7'
    } else if d == 8 {
        '8'
    } else {
        '9'
    }
}

/// The decimal representation of a natural number, most significant
/// digit first, with no leading zeros (zero itself is "0").
pub open spec fn dec_nat(n: nat) -> Seq<char>
    decreases n,
{
    if n < 10 {
        seq![dec_digit(n)]
    } else {
        dec_nat(n / 10).push(dec_digit(n % 10))
    }
}

/// The decimal representation of an integer, with a leading minus sign
/// for negative values.
pub open spec fn dec_int(v: int) -> Seq<char> {
    if v >= 0 {
        dec_nat(v as nat)
    } else {
        "-"@ + dec_nat((-v) as nat)
    }
}

/// The digit characters of a digit sequence, reversed.
spec fn rev_digit_chars(ds: Seq<u8>) -> Seq<char> {
    Seq::new(ds.len(), |j: int| dec_digit(ds[ds.len() - 1 - j] as nat))
}

fn push_digit(out: &mut String, d: u8)
    requires
        d < 10,
    ensures
        final(out)@ == old(out)@ + seq![dec_digit(d as nat)],
{
    proof {
        reveal_strlit("0");
        reveal_strlit("1");
        reveal_strlit("2");
        reveal_strlit("3");
        reveal_strlit("4");
        reveal_strlit("5");
        reveal_strlit("6");
        reveal_strlit("7");
        reveal_strlit("8");
        reveal_strlit("9");
    }
    if d == 0 {
        out.append("0");
    } else if d == 1 {
        out.append("1");
    } else if d == 2 {
        out.append("2");
    } else if d == 3 {
        out.append("3");
    } else if d == 4 {
        out.append("4");
    } else if d == 5 {
        out.append("5");
    } else if d == 6 {
        out.append("6");
    } else if d == 7 {
        out.append("7");
    } else if d == 8 {
        out.append("8");
    } else {
        out.append("9");
    }
    proof {
        assert(final(out)@ =~= old(out)@ + seq![dec_digit(d as nat)]);
    }
}

/// Renders an unsigned integer in decimal.
pub fn u64_to_decimal(n: u64) -> (r: String)
    ensures
        r@ == dec_nat(n as nat),
{
    let mut digits: Vec<u8> = Vec::new();
    let mut x: u64 = n;
    while x >= 10
        invariant
            dec_nat(n as nat) == dec_nat(x as nat) + rev_digit_chars(digits@),
            forall|k: int| 0 <= k < digits@.len() ==> digits@[k] < 10,
        decreases x,
    {
        let d: u8 = (x % 10) as u8;
        proof {
            let ds = digits@;
            assert(rev_digit_chars(ds.push(d)) =~= seq![dec_digit(d as nat)]
                + rev_digit_chars(ds));
            assert(dec_nat(x as nat) == dec_nat((x as nat) / 10).push(
                dec_digit((x as nat) % 10)));
            assert(dec_nat((x as nat) / 10).push(dec_digit(d as nat)) =~= dec_nat(
                (x as nat) / 10) + seq![dec_digit(d as nat)]);
            assert(dec_nat(n as nat) =~= dec_nat((x as nat) / 10) + rev_digit_chars(
                ds.push(d)));
            assert((x as nat) / 10 == ((x / 10) as nat));
        }
        digits.push(d);
        x = x / 10;
    }
    let d_last: u8 = x as u8;
    proof {
        let ds = digits@;
        assert(rev_digit_chars(ds.push(d_last)) =~= seq![dec_digit(d_last as nat)]
            + rev_digit_chars(ds));
        assert(dec_nat(x as nat) == seq![dec_digit(x as nat)]);
        assert(dec_nat(n as nat) =~= rev_digit_chars(ds.push(d_last)));
    }
    digits.push(d_last);
    let ghost rev = rev_digit_chars(digits@);
    let mut out = String::new();
    let mut i: usize = digits.len();
    while i > 0
        invariant
            i <= digits@.len(),
            rev == rev_digit_chars(digits@),
            rev.len() == digits@.len(),
            forall|k: int| 0 <= k < digits@.len() ==> digits@[k] < 10,
            out@ == rev.take(digits@.len() - i),
        decreases i,
    {
        i = i - 1;
        let d = digits[i];
        push_digit(&mut out, d);
        proof {
            let len = digits@.len() as int;
            assert(rev[len - 1 - i] == dec_digit(digits@[i as int] as nat));
            assert(out@ =~= rev.take(len - i));
        }
    }
    proof {
        assert(out@ =~= rev);
        assert(out@ == dec_nat(n as nat));
    }
    out
}

/// Renders a signed integer in decimal.
pub fn i64_to_decimal(v: i64) -> (r: String)
    ensures
        r@ == dec_int(v as int),
{
    if v >= 0 {
        u64_to_decimal(v as u64)
    } else {
        let wide: i128 = v as i128;
        let mag: u64 = (-wide) as u64;
        let mut out = String::from_str("-");
        let rest = u64_to_decimal(mag);
        out.append(rest.as_str());
        proof {
            assert(mag as nat == (-(v as int)) as nat);
        }
        out
    }
}

} // verus!
