//! Percentages of whole numbers as text with four fraction digits.
use vstd::prelude::*;

use vstd::arithmetic::div_mod::lemma_fundamental_div_mod_converse;

use crate::text::{decimal, digit_char, digit_to_char, string_from_chars, u128_to_string};

verus! {

/// `n` ten-thousandths as text, such as `12.3400`.
pub open spec fn fixed4_text(n: nat) -> Seq<char> {
    decimal(n / 10000) + seq![
        '.',
        digit_char((n / 1000) % 10),
        digit_char((n / 100) % 10),
        digit_char((n / 10) % 10),
        digit_char(n % 10),
    ]
}

/// `num / den` rounded to the nearest whole number, halves up.
pub open spec fn rounded_ratio(num: nat, den: nat) -> nat
    recommends
        den > 0,
{
    ((2 * num + den) / (2 * den)) as nat
}

/// `part / whole * 100` in ten-thousandths, rounded halves up.
pub open spec fn percent_units(part: nat, whole: nat) -> nat {
    rounded_ratio(part * 1000000, whole)
}

/// Appending two digits to a positive number's decimal text.
pub proof fn lemma_decimal_hundreds(a: nat, x: nat)
    requires
        a > 0,
        x < 100,
    ensures
        decimal(a * 100 + x) == decimal(a) + seq![digit_char(x / 10), digit_char(x % 10)],
{
    let n = a * 100 + x;
    assert(n / 10 == a * 10 + x / 10) by (nonlinear_arith)
        requires
            n == a * 100 + x,
            x < 100,
    ;
    assert(n % 10 == x % 10) by (nonlinear_arith)
        requires
            n == a * 100 + x,
            x < 100,
    ;
    let m = a * 10 + x / 10;
    assert(m / 10 == a && m % 10 == x / 10) by (nonlinear_arith)
        requires
            m == a * 10 + x / 10,
            x < 100,
    ;
    assert(decimal(n) == decimal(m).push(digit_char(x % 10)));
    assert(decimal(m) == decimal(a).push(digit_char(x / 10)));
    assert(decimal(n) =~= decimal(a) + seq![digit_char(x / 10), digit_char(x % 10)]);
}

/// One step of long division: the next digit of `rem / den` and the new
/// remainder.
fn next_digit(rem: u128, den: u128) -> (r: (u128, u128))
    requires
        0 < den <= i128::MAX,
        rem < den,
    ensures
        r.0 == (rem * 10) / (den as int),
        r.1 == (rem * 10) % (den as int),
        rem * 10 == r.0 * den + r.1,
        r.0 < 10,
        r.1 < den,
{
    let mut t: u128 = 0;
    let mut d: u128 = 0;
    let mut k: u128 = 0;
    while k < 10
        invariant
            0 < den <= i128::MAX,
            rem < den,
            k <= 10,
            t < den,
            d <= k,
            d * den + t == rem * k,
        decreases 10 - k,
    {
        t = t + rem;
        if t >= den {
            t = t - den;
            d = d + 1;
        }
        assert(d * den + t == rem * (k + 1)) by (nonlinear_arith)
            requires
                d * den + t == rem * k + rem || (d - 1) * den + t + den == rem * k + rem,
        ;
        k = k + 1;
    }
    proof {
        lemma_fundamental_div_mod_converse((rem * 10) as int, den as int, d as int, t as int);
        assert(d < 10) by (nonlinear_arith)
            requires
                d * den + t == rem * 10,
                rem < den,
                den > 0,
        ;
    }
    (d, t)
}

/// The percentage that `part` is of `whole`, with four fraction digits and
/// halves rounded up.
pub fn percent_text(part: u128, whole: u128) -> (s: String)
    requires
        part <= i128::MAX,
        0 < whole <= i128::MAX,
    ensures
        s@ == fixed4_text(percent_units(part as nat, whole as nat)),
{
    let q0 = part / whole;
    let r0 = part % whole;
    let (d1, r1) = next_digit(r0, whole);
    let (d2, r2) = next_digit(r1, whole);
    let (d3, r3) = next_digit(r2, whole);
    let (d4, r4) = next_digit(r3, whole);
    let (d5, r5) = next_digit(r4, whole);
    let (d6, r6) = next_digit(r5, whole);
    let low: u128 = d1 * 100000 + d2 * 10000 + d3 * 1000 + d4 * 100 + d5 * 10 + d6;
    let up: u128 = if r6 >= whole - r6 {
        1
    } else {
        0
    };
    proof {
        let w = whole as int;
        let lw = low as int;
        assert(part == q0 * w + r0) by (nonlinear_arith)
            requires
                q0 == (part as int) / w,
                r0 == (part as int) % w,
                w > 0,
        ;
        assert(r0 * 1000000 == lw * w + r6) by (nonlinear_arith)
            requires
                r0 * 10 == d1 * w + r1,
                r1 * 10 == d2 * w + r2,
                r2 * 10 == d3 * w + r3,
                r3 * 10 == d4 * w + r4,
                r4 * 10 == d5 * w + r5,
                r5 * 10 == d6 * w + r6,
                lw == d1 * 100000 + d2 * 10000 + d3 * 1000 + d4 * 100 + d5 * 10 + d6,
        {
            assert(r0 * 10 == d1 * w + r1);
            assert(r0 * 100 == d1 * w * 10 + r1 * 10);
            assert(r0 * 100 == (d1 * 10 + d2) * w + r2);
            assert(r0 * 1000 == (d1 * 100 + d2 * 10 + d3) * w + r3);
            assert(r0 * 10000 == (d1 * 1000 + d2 * 100 + d3 * 10 + d4) * w + r4);
            assert(r0 * 100000 == (d1 * 10000 + d2 * 1000 + d3 * 100 + d4 * 10 + d5) * w + r5);
        }
        let n = q0 * 1000000 + lw;
        assert(part * 1000000 == n * w + r6) by (nonlinear_arith)
            requires
                part == q0 * w + r0,
                r0 * 1000000 == lw * w + r6,
                n == q0 * 1000000 + lw,
        ;
        assert(2 * (part * 1000000) + w == (n + up) * (2 * w) + (2 * r6 + w - 2 * w * up)) by (nonlinear_arith)
            requires
                part * 1000000 == n * w + r6,
        ;
        lemma_fundamental_div_mod_converse(
            2 * (part * 1000000) + w,
            2 * w,
            n + up,
            2 * r6 + w - 2 * w * up,
        );
        assert(percent_units(part as nat, whole as nat) == n + up);
    }
    // Carry the rounding into the whole-number part.
    let (q, l) = if low + up == 1000000 {
        (q0 + 1, 0u128)
    } else {
        (q0, low + up)
    };
    let head = l / 10000;
    let mut s = if q == 0 {
        u128_to_string(head)
    } else {
        let mut t = u128_to_string(q);
        let pair: [char; 2] = [digit_to_char((head / 10) as u32), digit_to_char((head % 10) as u32)];
        let ps = string_from_chars(&pair);
        t.append(ps.as_str());
        proof {
            lemma_decimal_hundreds(q as nat, head as nat);
            assert(pair@ =~= seq![digit_char((head / 10) as nat), digit_char((head % 10) as nat)]);
        }
        t
    };
    let tail: [char; 5] = [
        '.',
        digit_to_char(((l / 1000) % 10) as u32),
        digit_to_char(((l / 100) % 10) as u32),
        digit_to_char(((l / 10) % 10) as u32),
        digit_to_char((l % 10) as u32),
    ];
    let ts = string_from_chars(&tail);
    s.append(ts.as_str());
    proof {
        let total = (q0 * 1000000 + low + up) as nat;
        assert(total == q * 1000000 + l);
        assert(total / 10000 == q * 100 + head && total % 10000 == l % 10000) by (nonlinear_arith)
            requires
                total == q * 1000000 + l,
                l < 1000000,
                head == l / 10000,
        ;
        assert((total / 1000) % 10 == (l / 1000) % 10 && (total / 100) % 10 == (l / 100) % 10 && (
        total / 10) % 10 == (l / 10) % 10 && total % 10 == l % 10) by (nonlinear_arith)
            requires
                total == q * 1000000 + l,
                l < 1000000,
        ;
        assert(s@ =~= fixed4_text(total));
    }
    s
}

} // verus!
