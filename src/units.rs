//! Human-readable byte counts on a ladder of 1024-based units.
use vstd::prelude::*;
use vstd::string::StringExecFns;

verus! {

/// The decimal digit `d` (below ten) as a character.
pub open spec fn digit_char(d: nat) -> char {
    if d == 0 {
        '0'
    } else if d == 1 {
        '1'
    } else if d == 2 {
        '2'
    } else if d == 3 {
        '3'
    } else if d == 4 {
        '4'
    } else if d == 5 {
        '5'
    } else if d == 6 {
        '6'
    } else if d == 7 {
        '7'
    } else if d == 8 {
        '8'
    } else {
        '9'
    }
}

/// `n` written in decimal, without leading zeros.
pub open spec fn decimal(n: nat) -> Seq<char>
    decreases n,
{
    if n < 10 {
        seq![digit_char(n)]
    } else {
        decimal(n / 10) + seq![digit_char(n % 10)]
    }
}

/// `1024` to the power `k`.
pub open spec fn pow1024(k: nat) -> nat
    decreases k,
{
    if k == 0 {
        1
    } else {
        1024 * pow1024((k - 1) as nat)
    }
}

/// `n / d` rounded to the nearest integer, a tie going to the even one.
pub open spec fn round_div(n: nat, d: nat) -> nat
    recommends
        d > 0,
{
    let q = n / d;
    let r = n % d;
    if 2 * r < d {
        q
    } else if 2 * r > d {
        q + 1
    } else if q % 2 == 0 {
        q
    } else {
        q + 1
    }
}

/// The spacing of 64-bit floats around `b`: one below `2^53`, doubling with
/// each further binary digit.
pub open spec fn float_spacing(b: nat) -> nat
    decreases b,
{
    if b < 0x20_0000_0000_0000 {
        1
    } else {
        2 * float_spacing(b / 2)
    }
}

/// The value of `b` converted to a 64-bit float: `b` rounded to 53 significant
/// bits, a tie going to the even neighbour.
pub open spec fn as_float(b: nat) -> nat {
    float_spacing(b) * round_div(b, float_spacing(b))
}

/// The first unit from `k` on (counting kB as one, PB as five) in which `v`
/// bytes come below a thousand; PB when none does.
pub open spec fn tier_from(v: nat, k: nat) -> nat
    decreases 5 - k,
{
    if k >= 5 || v < 1000 * pow1024(k) {
        k
    } else {
        tier_from(v, k + 1)
    }
}

/// The suffix of unit `k`: kB, MB, GB, TB, PB for one to five.
pub open spec fn unit_name(k: nat) -> Seq<char> {
    if k == 1 {
        seq!['k', 'B']
    } else if k == 2 {
        seq!['M', 'B']
    } else if k == 3 {
        seq!['G', 'B']
    } else if k == 4 {
        seq!['T', 'B']
    } else {
        seq!['P', 'B']
    }
}

/// A byte count as text: below a thousand, the count and `B`; else the count
/// scaled down by 1024 until it comes below a thousand (at most to PB), with
/// one decimal, rounded to the nearest tenth, ties to even.
pub open spec fn bytes_text(b: nat) -> Seq<char> {
    if b < 1000 {
        decimal(b) + seq!['B']
    } else {
        let v = as_float(b);
        let k = tier_from(v, 1);
        let t = round_div(10 * v, pow1024(k));
        decimal(t / 10) + seq!['.', digit_char(t % 10)] + unit_name(k)
    }
}

fn digit_str(d: u128) -> (r: &'static str)
    requires
        d < 10,
    ensures
        r@ == seq![digit_char(d as nat)],
{
    proof {
        reveal_strlit("0");
        reveal_strlit("1");
        reveal_strlit("2");
        reveal_strlit("3");
        reveal_strlit("4");
        reveal_strlit("5");
        reveal_strlit("6");
        reveal_strlit("7");
        reveal_strlit("8");
        reveal_strlit("9");
    }
    if d == 0 {
        "0"
    } else if d == 1 {
        "1"
    } else if d == 2 {
        "2"
    } else if d == 3 {
        "3"
    } else if d == 4 {
        "4"
    } else if d == 5 {
        "5"
    } else if d == 6 {
        "6"
    } else if d == 7 {
        "7"
    } else if d == 8 {
        "8"
    } else {
        "9"
    }
}

fn unit_str(k: u32) -> (r: &'static str)
    requires
        1 <= k <= 5,
    ensures
        r@ == unit_name(k as nat),
{
    proof {
        reveal_strlit("kB");
        reveal_strlit("MB");
        reveal_strlit("GB");
        reveal_strlit("TB");
        reveal_strlit("PB");
    }
    if k == 1 {
        "kB"
    } else if k == 2 {
        "MB"
    } else if k == 3 {
        "GB"
    } else if k == 4 {
        "TB"
    } else {
        "PB"
    }
}

fn push_decimal(s: &mut String, n: u128)
    ensures
        final(s)@ == old(s)@ + decimal(n as nat),
    decreases n,
{
    if n >= 10 {
        push_decimal(s, n / 10);
    }
    s.append(digit_str(n % 10));
    proof {
        if n >= 10 {
            assert(final(s)@ =~= old(s)@ + decimal(n as nat));
        } else {
            assert(final(s)@ =~= old(s)@ + decimal(n as nat));
        }
    }
}

/// `n / d` rounded to the nearest integer, ties to even.
fn rounded_quotient(n: u128, d: u128) -> (r: u128)
    requires
        d > 0,
        n < u128::MAX,
    ensures
        r == round_div(n as nat, d as nat),
{
    let q = n / d;
    let r = n % d;
    if r < d - r {
        q
    } else if r > d - r {
        q + 1
    } else if q % 2 == 0 {
        q
    } else {
        q + 1
    }
}

/// Formats a byte count with a unit of B, kB, MB, GB, TB or PB, as
/// [`bytes_text`] states.
pub fn format_bytes(bytes: u64) -> (r: String)
    ensures
        r@ == bytes_text(bytes as nat),
{
    let mut s = String::new();
    if bytes < 1000 {
        push_decimal(&mut s, bytes as u128);
        proof {
            reveal_strlit("B");
        }
        s.append("B");
        return s;
    }
    // what a 64-bit float holds of the count: the count rounded to 53
    // significant bits
    let mut spacing: u64 = 1;
    let mut rest: u64 = bytes;
    while rest >= 0x20_0000_0000_0000
        invariant
            float_spacing(bytes as nat) == spacing * float_spacing(rest as nat),
            spacing * rest <= bytes,
            1 <= spacing < 4096,
        decreases rest,
    {
        proof {
            assert(spacing * 0x20_0000_0000_0000 <= spacing * rest) by (nonlinear_arith)
                requires
                    rest >= 0x20_0000_0000_0000,
                    spacing >= 1,
            ;
            assert(spacing < 2048) by (nonlinear_arith)
                requires
                    spacing * 0x20_0000_0000_0000 < 0x1_0000_0000_0000_0000,
            ;
            assert(spacing * 2 * (rest / 2) <= spacing * rest) by (nonlinear_arith)
                requires
                    spacing >= 1,
            ;
            assert(float_spacing(rest as nat) == 2 * float_spacing((rest / 2) as nat));
            assert(spacing * (2 * float_spacing((rest / 2) as nat)) == (spacing * 2)
                * float_spacing((rest / 2) as nat)) by (nonlinear_arith);
        }
        spacing = spacing * 2;
        rest = rest / 2;
    }
    let q = rounded_quotient(bytes as u128, spacing as u128);
    proof {
        assert(q <= bytes as u128 / spacing as u128 + 1);
        assert((spacing as u128) * q <= bytes as u128 + spacing as u128) by (nonlinear_arith)
            requires
                q <= bytes as u128 / spacing as u128 + 1,
                spacing >= 1,
        ;
    }
    let v: u128 = spacing as u128 * q;
    assert(float_spacing(rest as nat) == 1);
    assert(float_spacing(bytes as nat) == spacing as nat) by (nonlinear_arith)
        requires
            float_spacing(bytes as nat) == spacing * float_spacing(rest as nat),
            float_spacing(rest as nat) == 1,
    ;
    assert(q == round_div(bytes as nat, spacing as nat));
    assert(v == as_float(bytes as nat));
    // the unit: the first one in which the value comes below a thousand
    let mut k: u32 = 1;
    let mut d: u128 = 1024;
    assert(pow1024(1) == 1024 * pow1024(0));
    while k < 5 && v >= 1000 * d
        invariant
            1 <= k <= 5,
            d == pow1024(k as nat),
            (k == 1 && d == 1024) || (k == 2 && d == 0x10_0000) || (k == 3 && d == 0x4000_0000)
                || (k == 4 && d == 0x100_0000_0000) || (k == 5 && d == 0x4_0000_0000_0000),
            tier_from(v as nat, 1) == tier_from(v as nat, k as nat),
        decreases 5 - k,
    {
        k = k + 1;
        d = d * 1024;
    }
    let t = rounded_quotient(10 * v, d);
    push_decimal(&mut s, t / 10);
    proof {
        reveal_strlit(".");
    }
    s.append(".");
    s.append(digit_str(t % 10));
    s.append(unit_str(k));
    assert(s@ =~= bytes_text(bytes as nat));
    s
}

} // verus!
