//! Decimal prices in cents and the local order limits.
use vstd::prelude::*;

use super::stage_order::{OrderSide, StageOrderRequest};
use crate::text::{
    all_digits, all_digits_in, chars_of, decimal, digit_char, digit_to_char, digits_to_i128,
    digits_value, find_char, find_char_in, is_digit, remove_char, slice_range, string_from_chars,
    trim, trim_bounds, u128_to_string, without_char,
};

verus! {

/// The text before and after the first `.`; no `.` gives an empty fraction.
pub open spec fn decimal_parts(t: Seq<char>) -> (Seq<char>, Seq<char>) {
    match find_char(t, '.') {
        Some(i) => (t.take(i), t.skip(i + 1)),
        None => (t, seq![]),
    }
}

/// Cents denoted by at most two fraction digits.
pub open spec fn fraction_cents(f: Seq<char>) -> nat {
    if f.len() == 0 {
        0
    } else if f.len() == 1 {
        digits_value(f) * 10
    } else {
        digits_value(f)
    }
}

pub open spec fn format_message() -> Seq<char> {
    "price must be a positive decimal with at most two fractional digits"@
}

/// The cents that a price text denotes: surrounding whitespace and `,`
/// separators are ignored, at most two fraction digits are allowed, and the
/// value must fit in an `i128`.
pub open spec fn parse_cents(s: Seq<char>) -> Result<int, Seq<char>> {
    let t = remove_char(trim(s), ',');
    let whole = decimal_parts(t).0;
    let frac = decimal_parts(t).1;
    if whole.len() == 0 || !all_digits(whole) || frac.len() > 2 || !all_digits(frac) {
        Err(format_message())
    } else if digits_value(whole) > i128::MAX {
        Err("number too large to fit in target type"@)
    } else if digits_value(whole) * 100 + fraction_cents(frac) > i128::MAX {
        Err("price overflow"@)
    } else {
        Ok((digits_value(whole) * 100 + fraction_cents(frac)) as int)
    }
}

pub open spec fn result_view<T>(r: Result<T, String>) -> Result<T, Seq<char>> {
    match r {
        Ok(v) => Ok(v),
        Err(e) => Err(e@),
    }
}

/// Parses a price into cents.
pub fn parse_decimal(value: &str) -> (r: Result<i128, String>)
    ensures
        match r {
            Ok(v) => parse_cents(value@) == Ok::<int, Seq<char>>(v as int),
            Err(e) => parse_cents(value@) == Err::<int, Seq<char>>(e@),
        },
{
    let chars = chars_of(value);
    let (a, b) = trim_bounds(chars.as_slice());
    let trimmed = slice_range(&chars, a, b);
    let t = without_char(trimmed.as_slice(), ',');
    let dot = find_char_in(t.as_slice(), '.');
    let (whole, frac) = match dot {
        Some(i) => {
            let w = slice_range(&t, 0, i);
            let f = slice_range(&t, i + 1, t.len());
            proof {
                assert(w@ =~= t@.take(i as int));
                assert(f@ =~= t@.skip(i + 1));
            }
            (w, f)
        },
        None => {
            let w = slice_range(&t, 0, t.len());
            proof {
                assert(w@ =~= t@);
            }
            (w, Vec::new())
        },
    };
    proof {
        assert(whole@ == decimal_parts(t@).0);
        assert(frac@ == decimal_parts(t@).1);
    }
    if whole.len() == 0 || !all_digits_in(whole.as_slice()) || frac.len() > 2 || !all_digits_in(
        frac.as_slice(),
    ) {
        return Err(String::from_str(
            "price must be a positive decimal with at most two fractional digits",
        ));
    }
    let w = match digits_to_i128(whole.as_slice()) {
        Some(w) => w,
        None => {
            return Err(String::from_str("number too large to fit in target type"));
        },
    };
    let f: i128 = if frac.len() == 0 {
        0
    } else if frac.len() == 1 {
        proof {
            assert(frac@.drop_last().len() == 0);
            assert(is_digit(frac@[0]));
            assert(digits_value(frac@) == digits_value(frac@.drop_last()) * 10 + ((frac@.last() as u32) - ('0' as u32)) as nat);
        }
        ((frac[0] as u32) - ('0' as u32)) as i128 * 10
    } else {
        proof {
            assert(frac@.drop_last().drop_last().len() == 0);
            assert(frac@.drop_last().last() == frac@[0]);
            assert(is_digit(frac@[0]));
            assert(is_digit(frac@[1]));
            let p = frac@.drop_last();
            assert(digits_value(frac@) == digits_value(p) * 10 + ((frac@.last() as u32) - ('0' as u32)) as nat);
            assert(digits_value(p) == digits_value(p.drop_last()) * 10 + ((p.last() as u32) - ('0' as u32)) as nat);
            assert(p.last() == frac@[0]);
            assert(frac@.last() == frac@[1]);
        }
        ((frac[0] as u32) - ('0' as u32)) as i128 * 10 + ((frac[1] as u32) - ('0' as u32)) as i128
    };
    let cents = match w.checked_mul(100) {
        Some(c) => c,
        None => {
            return Err(String::from_str("price overflow"));
        },
    };
    match cents.checked_add(f) {
        Some(v) => Ok(v),
        None => Err(String::from_str("price overflow")),
    }
}

pub open spec fn code_message() -> Seq<char> {
    "security_code must contain exactly 5 or 6 ASCII digits"@
}

/// The checks a staged order must pass, in order; the first failure names
/// the error.
pub open spec fn order_check(r: StageOrderRequest) -> Result<(), Seq<char>> {
    let code = trim(r.security_code@);
    if !((code.len() == 5 || code.len() == 6) && all_digits(code)) {
        Err(code_message())
    } else if r.quantity == 0 || r.quantity > 1_000_000 {
        Err("quantity must be between 1 and 1,000,000"@)
    } else if r.side == OrderSide::Buy && code.len() == 6 && r.quantity % 100 != 0 {
        Err("A-share buy quantity must be a multiple of 100 shares"@)
    } else {
        match parse_cents(r.price@) {
            Err(e) => Err(e),
            Ok(p) => if p <= 0 {
                Err("price must be positive"@)
            } else if p * r.quantity > i128::MAX {
                Err("order value overflow"@)
            } else if p * r.quantity > 500_000 {
                Err("order value exceeds the local 5,000 RMB limit"@)
            } else {
                Ok(())
            },
        }
    }
}

/// What a staged order that passes validation satisfies: a code of 5 or 6
/// ASCII digits, 1 to 1,000,000 shares, whole board lots of 100 shares for
/// a buy of a 6-digit A-share code, a positive price, and a value of at most
/// 5,000 RMB. A buy of a 6-digit code that meets the code and quantity
/// bounds but not the board lot is refused for the board lot.
pub proof fn law_validated_orders_meet_every_rule(r: StageOrderRequest)
    ensures
        order_check(r) is Ok ==> {
            let code = trim(r.security_code@);
            &&& (code.len() == 5 || code.len() == 6) && all_digits(code)
            &&& 1 <= r.quantity <= 1_000_000
            &&& (r.side == OrderSide::Buy && code.len() == 6 ==> r.quantity % 100 == 0)
            &&& parse_cents(r.price@) matches Ok(p) && p > 0 && p * r.quantity <= 500_000
        },
        ({
            let code = trim(r.security_code@);
            &&& code.len() == 6 && all_digits(code)
            &&& 1 <= r.quantity <= 1_000_000
            &&& r.side == OrderSide::Buy
            &&& r.quantity % 100 != 0
        }) ==> order_check(r) == Err::<(), Seq<char>>("A-share buy quantity must be a multiple of 100 shares"@),
{
}

/// Order value in cents: price times quantity.
pub open spec fn order_value_cents(r: StageOrderRequest) -> Result<int, Seq<char>> {
    match parse_cents(r.price@) {
        Err(e) => Err(e),
        Ok(p) => if p * r.quantity > i128::MAX {
            Err("order value overflow"@)
        } else {
            Ok(p * r.quantity)
        },
    }
}

/// Checks a staged order against the code format, quantity bounds, board
/// lots, a positive price and the local value limit.
pub fn validate_request(request: &StageOrderRequest) -> (r: Result<(), String>)
    ensures
        result_view(r) == order_check(*request),
{
    let chars = chars_of(request.security_code.as_str());
    let (a, b) = trim_bounds(chars.as_slice());
    let code = slice_range(&chars, a, b);
    let len = code.len();
    if !(len == 5 || len == 6) || !all_digits_in(code.as_slice()) {
        return Err(String::from_str("security_code must contain exactly 5 or 6 ASCII digits"));
    }
    if request.quantity == 0 || request.quantity > 1_000_000 {
        return Err(String::from_str("quantity must be between 1 and 1,000,000"));
    }
    if request.side == OrderSide::Buy && len == 6 && request.quantity % 100 != 0 {
        return Err(String::from_str("A-share buy quantity must be a multiple of 100 shares"));
    }
    let price = match parse_decimal(request.price.as_str()) {
        Ok(p) => p,
        Err(e) => {
            return Err(e);
        },
    };
    if price <= 0 {
        return Err(String::from_str("price must be positive"));
    }
    let value = match order_cents(request) {
        Ok(v) => v,
        Err(e) => {
            return Err(e);
        },
    };
    if value > 500_000 {
        return Err(String::from_str("order value exceeds the local 5,000 RMB limit"));
    }
    Ok(())
}

/// Order value in cents.
pub fn order_cents(request: &StageOrderRequest) -> (r: Result<i128, String>)
    ensures
        match r {
            Ok(v) => order_value_cents(*request) == Ok::<int, Seq<char>>(v as int),
            Err(e) => order_value_cents(*request) == Err::<int, Seq<char>>(e@),
        },
{
    let price = match parse_decimal(request.price.as_str()) {
        Ok(p) => p,
        Err(e) => {
            return Err(e);
        },
    };
    match price.checked_mul(request.quantity as i128) {
        Some(v) => Ok(v),
        None => Err(String::from_str("order value overflow")),
    }
}

/// `cents` as decimal text with exactly two fraction digits.
pub open spec fn cents_text(cents: int) -> Seq<char> {
    let m = if cents < 0 {
        -cents
    } else {
        cents
    };
    let body = decimal((m / 100) as nat) + seq!['.', digit_char(((m % 100) / 10) as nat), digit_char((m % 10) as nat)];
    if cents < 0 {
        seq!['-'] + body
    } else {
        body
    }
}

/// Cents as text with two fraction digits.
pub fn format_cents(cents: i128) -> (s: String)
    requires
        cents > i128::MIN,
    ensures
        s@ == cents_text(cents as int),
{
    let m: u128 = if cents < 0 {
        (-cents) as u128
    } else {
        cents as u128
    };
    let mut s = if cents < 0 {
        String::from_str("-")
    } else {
        String::new()
    };
    let whole = u128_to_string(m / 100);
    s.append(whole.as_str());
    let d1 = digit_to_char(((m % 100) / 10) as u32);
    let d2 = digit_to_char((m % 10) as u32);
    let tail: [char; 3] = ['.', d1, d2];
    let t = string_from_chars(&tail);
    s.append(t.as_str());
    proof {
        reveal_strlit("-");
        assert(tail@ =~= seq!['.', d1, d2]);
        if cents < 0 {
            assert(s@ =~= cents_text(cents as int));
        } else {
            assert(s@ =~= cents_text(cents as int));
        }
    }
    s
}

/// Order value as money text, such as `506.00`.
pub fn order_value(request: &StageOrderRequest) -> (r: Result<String, String>)
    ensures
        match r {
            Ok(s) => exists|v: int| order_value_cents(*request) == Ok::<int, Seq<char>>(v) && s@ == cents_text(v),
            Err(e) => order_value_cents(*request) == Err::<int, Seq<char>>(e@),
        },
{
    let cents = match order_cents(request) {
        Ok(c) => c,
        Err(e) => {
            return Err(e);
        },
    };
    proof {
        assert(cents >= 0) by {
            assert(parse_cents(request.price@) is Ok);
        }
    }
    Ok(format_cents(cents))
}

/// A price in its canonical `whole.cc` form.
pub fn canonical_price(value: &str) -> (r: Result<String, String>)
    ensures
        match r {
            Ok(s) => exists|v: int| parse_cents(value@) == Ok::<int, Seq<char>>(v) && s@ == cents_text(v),
            Err(e) => parse_cents(value@) == Err::<int, Seq<char>>(e@),
        },
{
    let cents = match parse_decimal(value) {
        Ok(c) => c,
        Err(e) => {
            return Err(e);
        },
    };
    Ok(format_cents(cents))
}

} // verus!
