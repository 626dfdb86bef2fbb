//! Numbers and security codes as the broker tables display them.
use vstd::prelude::*;

use crate::text::{
    all_digits, chars_of, digits_value, is_digit, is_ws, remove_char, slice_range, split_state,
    split_words, string_from_chars, without_char, words,
};

verus! {

/// Full-width and typographic signs mapped to ASCII: `．` to `.`, `－` and
/// `−` to `-`.
pub open spec fn ascii_sign(c: char) -> char {
    if c == '．' {
        '.'
    } else if c == '－' || c == '−' {
        '-'
    } else {
        c
    }
}

/// A token with grouping commas removed and signs mapped to ASCII.
pub open spec fn cleaned(t: Seq<char>) -> Seq<char> {
    remove_char(t, ',').map_values(|c: char| ascii_sign(c))
}

/// An accounting negative `(x)` written as `-x`.
pub open spec fn unparenthesized(t: Seq<char>) -> Seq<char> {
    if t.len() > 0 && t[0] == '(' && t.last() == ')' {
        seq!['-'] + t.subrange(1, t.len() - 1)
    } else {
        t
    }
}

/// A trailing `%` dropped.
pub open spec fn unpercented(t: Seq<char>) -> Seq<char> {
    if t.len() > 0 && t.last() == '%' {
        t.drop_last()
    } else {
        t
    }
}

pub open spec fn is_sign(c: char) -> bool {
    c == '+' || c == '-'
}

/// How many dots `t` holds.
pub open spec fn dot_count(t: Seq<char>) -> nat
    decreases t.len(),
{
    if t.len() == 0 {
        0
    } else {
        dot_count(t.drop_last()) + (if t.last() == '.' { 1nat } else { 0nat })
    }
}

/// How many signs `t` holds.
pub open spec fn sign_count(t: Seq<char>) -> nat
    decreases t.len(),
{
    if t.len() == 0 {
        0
    } else {
        sign_count(t.drop_last()) + (if is_sign(t.last()) { 1nat } else { 0nat })
    }
}

/// A plain number: digits with at most one `.` and at most one sign, the
/// sign only in front, and at least one digit.
pub open spec fn plain_number(t: Seq<char>) -> bool {
    &&& t.len() > 0
    &&& dot_count(t) <= 1
    &&& forall|i: int| 0 <= i < t.len() ==> (is_digit(#[trigger] t[i]) || t[i] == '.' || is_sign(t[i]))
    &&& sign_count(t) <= 1
    &&& forall|i: int| 1 <= i < t.len() ==> !is_sign(#[trigger] t[i])
    &&& exists|i: int| 0 <= i < t.len() && is_digit(#[trigger] t[i])
}

/// The number a displayed value holds, in plain form: the value must be a
/// single token; grouping commas, full-width signs, accounting parentheses
/// and a trailing percent sign are normalized away.
pub open spec fn normalized_number(raw: Seq<char>) -> Option<Seq<char>> {
    let tokens = words(raw);
    if tokens.len() != 1 {
        None
    } else {
        let t = unpercented(unparenthesized(cleaned(tokens[0])));
        if plain_number(t) {
            Some(t)
        } else {
            None
        }
    }
}

fn count_chars_where_dot(v: &Vec<char>) -> (n: usize)
    ensures
        n == dot_count(v@),
{
    let mut n: usize = 0;
    let mut i: usize = 0;
    while i < v.len()
        invariant
            i <= v@.len(),
            n == dot_count(v@.take(i as int)),
            n <= i,
        decreases v@.len() - i,
    {
        proof {
            assert(v@.take(i + 1).drop_last() =~= v@.take(i as int));
        }
        if v[i] == '.' {
            n = n + 1;
        }
        i = i + 1;
    }
    proof {
        assert(v@.take(v@.len() as int) =~= v@);
    }
    n
}

fn count_signs(v: &Vec<char>) -> (n: usize)
    ensures
        n == sign_count(v@),
{
    let mut n: usize = 0;
    let mut i: usize = 0;
    while i < v.len()
        invariant
            i <= v@.len(),
            n == sign_count(v@.take(i as int)),
            n <= i,
        decreases v@.len() - i,
    {
        proof {
            assert(v@.take(i + 1).drop_last() =~= v@.take(i as int));
        }
        if v[i] == '+' || v[i] == '-' {
            n = n + 1;
        }
        i = i + 1;
    }
    proof {
        assert(v@.take(v@.len() as int) =~= v@);
    }
    n
}

/// Checks that a token is a plain number.
pub fn is_plain_number(v: &Vec<char>) -> (b: bool)
    ensures
        b == plain_number(v@),
{
    if v.len() == 0 {
        return false;
    }
    if count_chars_where_dot(v) > 1 {
        return false;
    }
    let mut i: usize = 0;
    while i < v.len()
        invariant
            i <= v@.len(),
            v@.len() > 0,
            dot_count(v@) <= 1,
            forall|k: int| 0 <= k < i ==> (is_digit(#[trigger] v@[k]) || v@[k] == '.' || is_sign(v@[k])),
        decreases v@.len() - i,
    {
        let c = v[i];
        if !(('0' <= c && c <= '9') || c == '.' || c == '+' || c == '-') {
            return false;
        }
        i = i + 1;
    }
    if count_signs(v) > 1 {
        return false;
    }
    let mut j: usize = 1;
    while j < v.len()
        invariant
            1 <= j,
            v@.len() > 0,
            j <= v@.len(),
            dot_count(v@) <= 1,
            sign_count(v@) <= 1,
            forall|k: int| 0 <= k < v@.len() ==> (is_digit(#[trigger] v@[k]) || v@[k] == '.' || is_sign(v@[k])),
            forall|k: int| 1 <= k < j ==> !is_sign(#[trigger] v@[k]),
        decreases v@.len() - j,
    {
        if v[j] == '+' || v[j] == '-' {
            return false;
        }
        j = j + 1;
    }
    let mut k: usize = 0;
    while k < v.len()
        invariant
            k <= v@.len(),
            v@.len() > 0,
            dot_count(v@) <= 1,
            sign_count(v@) <= 1,
            forall|m: int| 0 <= m < v@.len() ==> (is_digit(#[trigger] v@[m]) || v@[m] == '.' || is_sign(v@[m])),
            forall|m: int| 1 <= m < v@.len() ==> !is_sign(#[trigger] v@[m]),
            forall|m: int| 0 <= m < k ==> !is_digit(#[trigger] v@[m]),
        decreases v@.len() - k,
    {
        if '0' <= v[k] && v[k] <= '9' {
            return true;
        }
        k = k + 1;
    }
    false
}

/// Maps full-width signs of a token to ASCII.
fn map_signs(v: &Vec<char>) -> (r: Vec<char>)
    ensures
        r@ == v@.map_values(|c: char| ascii_sign(c)),
{
    let mut r: Vec<char> = Vec::new();
    let mut i: usize = 0;
    while i < v.len()
        invariant
            i <= v@.len(),
            r@ == v@.take(i as int).map_values(|c: char| ascii_sign(c)),
        decreases v@.len() - i,
    {
        let c = v[i];
        let d = if c == '．' {
            '.'
        } else if c == '－' || c == '−' {
            '-'
        } else {
            c
        };
        r.push(d);
        proof {
            assert(r@ =~= v@.take(i + 1).map_values(|c: char| ascii_sign(c)));
        }
        i = i + 1;
    }
    proof {
        assert(v@.take(v@.len() as int) =~= v@);
    }
    r
}

/// Normalizes a single token; see `normalized_number`.
fn normalize_token(token: &Vec<char>) -> (r: Option<Vec<char>>)
    ensures
        match r {
            Some(t) => plain_number(unpercented(unparenthesized(cleaned(token@)))) && t@ == unpercented(
                unparenthesized(cleaned(token@)),
            ),
            None => !plain_number(unpercented(unparenthesized(cleaned(token@)))),
        },
{
    let no_commas = without_char(token.as_slice(), ',');
    let mut t = map_signs(&no_commas);
    if t.len() > 0 && t[0] == '(' && t[t.len() - 1] == ')' {
        let inner = slice_range(&t, 1, t.len() - 1);
        let mut u: Vec<char> = Vec::new();
        u.push('-');
        let ghost before = u@;
        let mut k: usize = 0;
        while k < inner.len()
            invariant
                k <= inner@.len(),
                u@ == seq!['-'] + inner@.take(k as int),
            decreases inner@.len() - k,
        {
            u.push(inner[k]);
            proof {
                assert(u@ =~= seq!['-'] + inner@.take(k + 1));
            }
            k = k + 1;
        }
        proof {
            assert(inner@.take(inner@.len() as int) =~= inner@);
        }
        t = u;
    }
    if t.len() > 0 && t[t.len() - 1] == '%' {
        t.pop();
    }
    if is_plain_number(&t) {
        Some(t)
    } else {
        None
    }
}

/// The plain form of a displayed number, if it is one.
pub fn normalize_number(raw: &str) -> (r: Option<String>)
    ensures
        match r {
            Some(s) => normalized_number(raw@) == Some(s@),
            None => normalized_number(raw@) is None,
        },
{
    let chars = chars_of(raw);
    let tokens = split_words(chars.as_slice());
    if tokens.len() != 1 {
        return None;
    }
    proof {
        assert(tokens.deep_view()[0] == tokens@[0]@);
    }
    match normalize_token(&tokens[0]) {
        Some(t) => Some(string_from_chars(t.as_slice())),
        None => None,
    }
}

/// Normalizes every word of `raw`; `None` when some word is not a number.
pub open spec fn all_numbers(tokens: Seq<Seq<char>>) -> Option<Seq<Seq<char>>>
    decreases tokens.len(),
{
    if tokens.len() == 0 {
        Some(seq![])
    } else {
        match (all_numbers(tokens.drop_last()), normalized_number(tokens.last())) {
            (Some(rest), Some(n)) => Some(rest.push(n)),
            _ => None,
        }
    }
}

/// The two numbers of a cell that holds exactly two (merged columns).
pub open spec fn numeric_pair_of(raw: Seq<char>) -> Option<(Seq<char>, Seq<char>)> {
    match all_numbers(words(raw)) {
        Some(ns) if ns.len() == 2 => Some((ns[0], ns[1])),
        _ => None,
    }
}

proof fn lemma_word_is_its_only_word(w: Seq<char>)
    requires
        w.len() > 0,
        forall|i: int| 0 <= i < w.len() ==> !crate::text::is_ws(#[trigger] w[i]),
    ensures
        words(w) == seq![w],
    decreases w.len(),
{
    lemma_split_state_of_word(w);
}

proof fn lemma_split_state_of_word(w: Seq<char>)
    requires
        forall|i: int| 0 <= i < w.len() ==> !crate::text::is_ws(#[trigger] w[i]),
    ensures
        crate::text::split_state(w) == (Seq::<Seq<char>>::empty(), w),
    decreases w.len(),
{
    if w.len() > 0 {
        lemma_split_state_of_word(w.drop_last());
        assert(w.drop_last().push(w.last()) =~= w);
    } else {
        assert(w =~= seq![]);
    }
}

/// The numbers of every word of a cell, in order; `None` when some word is
/// not a number.
pub fn numbers_of(raw: &str) -> (r: Option<Vec<String>>)
    ensures
        match r {
            Some(v) => all_numbers(words(raw@)) == Some(v.deep_view()),
            None => all_numbers(words(raw@)) is None,
        },
{
    let chars = chars_of(raw);
    let tokens = split_words(chars.as_slice());
    let mut out: Vec<String> = Vec::new();
    let mut i: usize = 0;
    while i < tokens.len()
        invariant
            i <= tokens@.len(),
            tokens.deep_view() == words(raw@),
            all_numbers(tokens.deep_view().take(i as int)) == Some(out.deep_view()),
        decreases tokens@.len() - i,
    {
        let tok = &tokens[i];
        proof {
            assert(tokens.deep_view().take(i + 1).drop_last() =~= tokens.deep_view().take(i as int));
            assert(tokens.deep_view().take(i + 1).last() == tok@);
            assert(tokens.deep_view()[i as int] == tok@);
            let w = tok@;
            assert(w.len() > 0 && forall|k: int| 0 <= k < w.len() ==> !crate::text::is_ws(#[trigger] w[k]))
                by {
                lemma_words_are_words(raw@, i as int);
            }
            lemma_word_is_its_only_word(w);
        }
        match normalize_token(tok) {
            Some(t) => {
                let ghost before = out.deep_view();
                let ghost before_vec = out@;
                let s = string_from_chars(t.as_slice());
                let ghost sv = s@;
                out.push(s);
                proof {
                    assert(out.deep_view() =~= before.push(sv)) by {
                        assert forall|k: int| 0 <= k < out.deep_view().len() implies #[trigger] out.deep_view()[k]
                            == before.push(sv)[k] by {
                            if k < before.len() {
                                assert(out@[k] == before_vec[k]);
                            }
                        }
                    }
                }
            },
            None => {
                proof {
                    let rest = tokens.deep_view().take(i + 1);
                    assert(normalized_number(rest.last()) is None);
                    lemma_all_numbers_prefix_none(tokens.deep_view(), i + 1);
                }
                return None;
            },
        }
        i = i + 1;
    }
    proof {
        assert(tokens.deep_view().take(tokens@.len() as int) =~= tokens.deep_view());
    }
    Some(out)
}

proof fn lemma_all_numbers_prefix_none(tokens: Seq<Seq<char>>, k: int)
    requires
        0 < k <= tokens.len(),
        all_numbers(tokens.take(k)) is None,
    ensures
        all_numbers(tokens) is None,
    decreases tokens.len() - k,
{
    if k < tokens.len() {
        assert(tokens.take(k + 1).drop_last() =~= tokens.take(k));
        lemma_all_numbers_prefix_none(tokens, k + 1);
    } else {
        assert(tokens.take(k) =~= tokens);
    }
}

/// Every word of `s` is nonempty and free of whitespace.
proof fn lemma_words_are_words(s: Seq<char>, j: int)
    requires
        0 <= j < words(s).len(),
    ensures
        words(s)[j].len() > 0,
        forall|k: int| 0 <= k < words(s)[j].len() ==> !crate::text::is_ws(#[trigger] words(s)[j][k]),
{
    lemma_split_state_words(s);
}

proof fn lemma_split_state_words(s: Seq<char>)
    ensures
        forall|j: int|
            0 <= j < crate::text::split_state(s).0.len() ==> (#[trigger] crate::text::split_state(s).0[j]).len()
                > 0 && forall|k: int|
                0 <= k < crate::text::split_state(s).0[j].len() ==> !crate::text::is_ws(
                    #[trigger] crate::text::split_state(s).0[j][k],
                ),
        forall|k: int|
            0 <= k < crate::text::split_state(s).1.len() ==> !crate::text::is_ws(
                #[trigger] crate::text::split_state(s).1[k],
            ),
        forall|j: int|
            0 <= j < words(s).len() ==> (#[trigger] words(s)[j]).len() > 0 && forall|k: int|
                0 <= k < words(s)[j].len() ==> !crate::text::is_ws(#[trigger] words(s)[j][k]),
    decreases s.len(),
{
    if s.len() > 0 {
        lemma_split_state_words(s.drop_last());
        let (done, cur) = crate::text::split_state(s.drop_last());
        let c = s.last();
        let st = crate::text::split_state(s);
        if crate::text::is_ws(c) {
            if cur.len() > 0 {
                assert(st.0 == done.push(cur));
                assert forall|j: int| 0 <= j < st.0.len() implies (#[trigger] st.0[j]).len() > 0
                    && forall|k: int| 0 <= k < st.0[j].len() ==> !crate::text::is_ws(#[trigger] st.0[j][k]) by {
                    if j < done.len() {
                        assert(st.0[j] == done[j]);
                    } else {
                        assert(st.0[j] == cur);
                    }
                }
            } else {
                assert(st.0 == done);
            }
            assert(st.1 == Seq::<char>::empty());
        } else {
            assert(st.0 == done);
            assert(st.1 == cur.push(c));
            assert forall|k: int| 0 <= k < st.1.len() implies !crate::text::is_ws(#[trigger] st.1[k]) by {
                if k < cur.len() {
                    assert(st.1[k] == cur[k]);
                }
            }
        }
        let w = words(s);
        if st.1.len() > 0 {
            assert(w == st.0.push(st.1));
            assert forall|j: int| 0 <= j < w.len() implies (#[trigger] w[j]).len() > 0 && forall|k: int|
                0 <= k < w[j].len() ==> !crate::text::is_ws(#[trigger] w[j][k]) by {
                if j < st.0.len() {
                    assert(w[j] == st.0[j]);
                } else {
                    assert(w[j] == st.1);
                }
            }
        } else {
            assert(w == st.0);
        }
    } else {
        let st = crate::text::split_state(s);
        assert(st.0.len() == 0 && st.1.len() == 0);
        assert(words(s) == st.0);
    }
}

/// The two numbers of a cell that holds exactly two.
pub fn split_numeric_pair(raw: &str) -> (r: Option<(String, String)>)
    ensures
        match r {
            Some((a, b)) => numeric_pair_of(raw@) == Some((a@, b@)),
            None => numeric_pair_of(raw@) is None,
        },
{
    match numbers_of(raw) {
        Some(v) => {
            if v.len() == 2 {
                proof {
                    assert(v.deep_view()[0] == v@[0]@);
                    assert(v.deep_view()[1] == v@[1]@);
                }
                Some((v[0].clone(), v[1].clone()))
            } else {
                None
            }
        },
        None => None,
    }
}

/// Whether a text is a security code: five or six ASCII digits.
pub open spec fn security_code_text(s: Seq<char>) -> bool {
    (s.len() == 5 || s.len() == 6) && all_digits(s)
}

pub fn is_security_code(value: &[char]) -> (b: bool)
    ensures
        b == security_code_text(value@),
{
    if !(value.len() == 5 || value.len() == 6) {
        return false;
    }
    crate::text::all_digits_in(value)
}

/// `10^n`.
pub open spec fn pow10(n: nat) -> nat
    decreases n,
{
    if n == 0 {
        1
    } else {
        10 * pow10((n - 1) as nat)
    }
}

/// A plain number without its sign.
pub open spec fn unsigned_body(t: Seq<char>) -> Seq<char> {
    if t.len() > 0 && is_sign(t[0]) {
        t.drop_first()
    } else {
        t
    }
}

pub open spec fn is_negative(t: Seq<char>) -> bool {
    t.len() > 0 && t[0] == '-'
}

/// The digits of a plain number, the dot removed.
pub open spec fn mantissa_digits(t: Seq<char>) -> Seq<char> {
    remove_char(unsigned_body(t), '.')
}

/// How many fraction digits a plain number has.
pub open spec fn scale(t: Seq<char>) -> nat {
    match crate::text::find_char(unsigned_body(t), '.') {
        Some(i) => (unsigned_body(t).len() - i - 1) as nat,
        None => 0,
    }
}

/// The signed integer that a plain number is, scaled by `10^scale`.
pub open spec fn mantissa(t: Seq<char>) -> int {
    if is_negative(t) {
        -(digits_value(mantissa_digits(t)) as int)
    } else {
        digits_value(mantissa_digits(t)) as int
    }
}

/// A plain number of at most eleven digits (and so at most eleven fraction
/// digits).
pub open spec fn small_number(t: Seq<char>) -> bool {
    mantissa_digits(t).len() <= 11 && scale(t) <= 11
}

/// The price times the quantity lies within 0.02 of the amount (all three
/// plain numbers), computed exactly.
pub open spec fn product_matches(p: Seq<char>, q: Seq<char>, a: Seq<char>) -> bool {
    let lhs = 100 * mantissa(p) * mantissa(q) * pow10(scale(a));
    let rhs = 100 * mantissa(a) * pow10(scale(p) + scale(q));
    let bound = 2 * pow10(scale(p) + scale(q) + scale(a));
    -bound <= lhs - rhs <= bound
}

proof fn lemma_digits_value_bound(s: Seq<char>)
    requires
        all_digits(s),
    ensures
        digits_value(s) < pow10(s.len()),
    decreases s.len(),
{
    if s.len() > 0 {
        lemma_digits_value_bound(s.drop_last());
        assert(is_digit(s.last()));
        let d = ((s.last() as u32) - ('0' as u32)) as nat;
        assert(d <= 9);
        let v = digits_value(s.drop_last());
        assert(v + 1 <= pow10(s.drop_last().len()));
        assert(digits_value(s) == v * 10 + d);
        assert(pow10(s.len()) == 10 * pow10(s.drop_last().len()));
        assert(v * 10 + d < 10 * pow10(s.drop_last().len())) by (nonlinear_arith)
            requires
                v + 1 <= pow10(s.drop_last().len()),
                d <= 9,
        ;
    }
}

proof fn lemma_pow10_monotone(a: nat, b: nat)
    requires
        a <= b,
    ensures
        pow10(a) <= pow10(b),
        pow10(a) >= 1,
    decreases b,
{
    lemma_pow10_positive(a);
    if b > a {
        lemma_pow10_monotone(a, (b - 1) as nat);
        lemma_pow10_positive((b - 1) as nat);
    }
}

/// The mantissa digits of a plain number are digits.
proof fn lemma_mantissa_digits(t: Seq<char>)
    requires
        plain_number(t),
    ensures
        all_digits(mantissa_digits(t)),
{
    let b = unsigned_body(t);
    assert forall|i: int| 0 <= i < b.len() implies (is_digit(#[trigger] b[i]) || b[i] == '.') by {
        if t.len() > 0 && is_sign(t[0]) {
            assert(b[i] == t[i + 1]);
        } else {
            assert(b[i] == t[i]);
        }
    }
    lemma_remove_char_keeps_digits(b);
}

proof fn lemma_pow10_positive(a: nat)
    ensures
        pow10(a) >= 1,
    decreases a,
{
    if a > 0 {
        lemma_pow10_positive((a - 1) as nat);
    }
}

proof fn lemma_pow10_values()
    ensures
        pow10(11) == 100000000000,
        pow10(22) == 10000000000000000000000,
        pow10(33) == 1000000000000000000000000000000000,
{
    reveal_with_fuel(pow10, 34);
}

fn pow10_exec(n: u32) -> (r: i128)
    requires
        n <= 33,
    ensures
        r == pow10(n as nat),
        r <= 1000000000000000000000000000000000,
{
    let mut r: i128 = 1;
    let mut k: u32 = 0;
    proof {
        lemma_pow10_values();
    }
    while k < n
        invariant
            k <= n,
            n <= 33,
            r == pow10(k as nat),
            pow10(33) == 1000000000000000000000000000000000,
        decreases n - k,
    {
        proof {
            lemma_pow10_monotone((k + 1) as nat, 33);
        }
        r = r * 10;
        k = k + 1;
    }
    proof {
        lemma_pow10_monotone(n as nat, 33);
    }
    r
}

/// The mantissa and scale of a plain number, when it is small.
pub fn number_parts(t: &Vec<char>) -> (r: Option<(i128, u32)>)
    requires
        plain_number(t@),
    ensures
        match r {
            Some((m, s)) => small_number(t@) && m == mantissa(t@) && s == scale(t@),
            None => !small_number(t@),
        },
{
    let negative = t[0] == '-';
    let body = if t[0] == '+' || t[0] == '-' {
        slice_range(t, 1, t.len())
    } else {
        slice_range(t, 0, t.len())
    };
    proof {
        assert(t@.subrange(1, t@.len() as int) =~= t@.drop_first());
        assert(t@.subrange(0, t@.len() as int) =~= t@);
        assert(body@ == unsigned_body(t@));
    }
    let digits = without_char(body.as_slice(), '.');
    let sc: usize = match crate::text::find_char_in(body.as_slice(), '.') {
        Some(i) => body.len() - i - 1,
        None => 0,
    };
    if digits.len() > 11 || sc > 11 {
        return None;
    }
    proof {
        lemma_mantissa_digits(t@);
        lemma_digits_value_bound(digits@);
        lemma_pow10_monotone(digits@.len(), 11);
        lemma_pow10_values();
    }
    let v = match crate::text::digits_to_i128(digits.as_slice()) {
        Some(v) => v,
        None => {
            return None;
        },
    };
    let m = if negative {
        -v
    } else {
        v
    };
    Some((m, sc as u32))
}

/// Removing dots from the body of a plain number leaves only digits.
proof fn lemma_remove_char_keeps_digits(b: Seq<char>)
    requires
        forall|i: int| 0 <= i < b.len() ==> (is_digit(#[trigger] b[i]) || b[i] == '.'),
    ensures
        all_digits(remove_char(b, '.')),
    decreases b.len(),
{
    if b.len() > 0 {
        lemma_remove_char_keeps_digits(b.drop_last());
        let r = remove_char(b.drop_last(), '.');
        if b.last() != '.' {
            assert(remove_char(b, '.') == r.push(b.last()));
            assert forall|i: int| 0 <= i < r.push(b.last()).len() implies is_digit(#[trigger] r.push(b.last())[i]) by {
                if i < r.len() {
                    assert(r.push(b.last())[i] == r[i]);
                }
            }
        }
    }
}

/// Whether price times quantity matches the amount within 0.02, for small
/// plain numbers.
pub fn product_consistent(p: &Vec<char>, q: &Vec<char>, a: &Vec<char>) -> (r: Option<bool>)
    requires
        plain_number(p@),
        plain_number(q@),
        plain_number(a@),
    ensures
        match r {
            Some(b) => small_number(p@) && small_number(q@) && small_number(a@) && b == product_matches(
                p@,
                q@,
                a@,
            ),
            None => !(small_number(p@) && small_number(q@) && small_number(a@)),
        },
{
    let (pm, ps) = match number_parts(p) {
        Some(x) => x,
        None => {
            return None;
        },
    };
    let (qm, qs) = match number_parts(q) {
        Some(x) => x,
        None => {
            return None;
        },
    };
    let (am, as_) = match number_parts(a) {
        Some(x) => x,
        None => {
            return None;
        },
    };
    proof {
        lemma_pow10_values();
        lemma_mantissa_digits(p@);
        lemma_mantissa_digits(q@);
        lemma_mantissa_digits(a@);
        lemma_digits_value_bound(mantissa_digits(p@));
        lemma_digits_value_bound(mantissa_digits(q@));
        lemma_digits_value_bound(mantissa_digits(a@));
        lemma_pow10_monotone(mantissa_digits(p@).len(), 11);
        lemma_pow10_monotone(mantissa_digits(q@).len(), 11);
        lemma_pow10_monotone(mantissa_digits(a@).len(), 11);
        lemma_pow10_monotone(as_ as nat, 11);
        lemma_pow10_monotone((ps + qs) as nat, 22);

    }
    let f_a = pow10_exec(as_);
    let f_pq = pow10_exec(ps + qs);
    let f_all = pow10_exec(ps + qs + as_);
    assert(-100000000000 < pm < 100000000000);
    assert(-100000000000 < qm < 100000000000);
    assert(-100000000000 < am < 100000000000);
    assert(1 <= f_a <= 100000000000);
    assert(1 <= f_pq <= 10000000000000000000000);
    assert(-10000000000000000000000 < pm * qm < 10000000000000000000000) by (nonlinear_arith)
        requires
            -100000000000 < pm < 100000000000,
            -100000000000 < qm < 100000000000,
    ;
    let pq = pm * qm;
    assert(-1000000000000000000000000000000000 < pq * f_a < 1000000000000000000000000000000000)
        by (nonlinear_arith)
        requires
            -10000000000000000000000 < pq < 10000000000000000000000,
            1 <= f_a <= 100000000000,
    ;
    let x = pq * f_a;
    assert(-1000000000000000000000000000000000 < am * f_pq < 1000000000000000000000000000000000)
        by (nonlinear_arith)
        requires
            -100000000000 < am < 100000000000,
            1 <= f_pq <= 10000000000000000000000,
    ;
    let y = am * f_pq;
    let lhs = 100 * x;
    let rhs = 100 * y;
    let diff = lhs - rhs;
    let bound = 2 * f_all;
    proof {
        assert(lhs == 100 * mantissa(p@) * mantissa(q@) * pow10(scale(a@))) by (nonlinear_arith)
            requires
                lhs == 100 * x,
                x == pq * f_a,
                pq == pm * qm,
                pm == mantissa(p@),
                qm == mantissa(q@),
                f_a == pow10(scale(a@)),
        ;
        assert(rhs == 100 * mantissa(a@) * pow10(scale(p@) + scale(q@))) by (nonlinear_arith)
            requires
                rhs == 100 * y,
                y == am * f_pq,
                am == mantissa(a@),
                f_pq == pow10(scale(p@) + scale(q@)),
        ;
    }
    Some(-bound <= diff && diff <= bound)
}

/// A text without whitespace is one word, itself.
proof fn lemma_split_without_spaces(t: Seq<char>)
    requires
        forall|i: int| 0 <= i < t.len() ==> !is_ws(#[trigger] t[i]),
    ensures
        split_state(t) == (Seq::<Seq<char>>::empty(), t),
    decreases t.len(),
{
    if t.len() > 0 {
        let s = t.drop_last();
        assert forall|i: int| 0 <= i < s.len() implies !is_ws(#[trigger] s[i]) by {
            assert(s[i] == t[i]);
        }
        lemma_split_without_spaces(s);
        assert(!is_ws(t[t.len() - 1]));
        assert(s.push(t.last()) =~= t);
    }
}

/// Removing a character that does not occur changes nothing.
proof fn lemma_remove_absent(t: Seq<char>, c: char)
    requires
        forall|i: int| 0 <= i < t.len() ==> #[trigger] t[i] != c,
    ensures
        remove_char(t, c) == t,
    decreases t.len(),
{
    if t.len() > 0 {
        let s = t.drop_last();
        assert forall|i: int| 0 <= i < s.len() implies #[trigger] s[i] != c by {
            assert(s[i] == t[i]);
        }
        lemma_remove_absent(s, c);
        assert(t[t.len() - 1] != c);
        assert(s.push(t.last()) =~= t);
    }
}

/// Normalizing a number in plain form gives it back unchanged: every
/// result of `normalize_number` is a fixed point of it.
pub proof fn law_normalize_number_idempotent(t: Seq<char>)
    requires
        plain_number(t),
    ensures
        normalized_number(t) == Some(t),
{
    assert forall|i: int| 0 <= i < t.len() implies !is_ws(#[trigger] t[i]) by {
        assert(is_digit(t[i]) || t[i] == '.' || is_sign(t[i]));
    }
    lemma_split_without_spaces(t);
    assert(words(t) =~= seq![t]);
    assert forall|i: int| 0 <= i < t.len() implies #[trigger] t[i] != ',' by {
        assert(is_digit(t[i]) || t[i] == '.' || is_sign(t[i]));
    }
    lemma_remove_absent(t, ',');
    assert forall|i: int| 0 <= i < t.len() implies ascii_sign(#[trigger] t[i]) == t[i] by {
        assert(is_digit(t[i]) || t[i] == '.' || is_sign(t[i]));
    }
    assert(cleaned(t) =~= t);
    assert(is_digit(t[0]) || t[0] == '.' || is_sign(t[0]));
    assert(unparenthesized(t) == t);
    assert(is_digit(t[t.len() - 1]) || t[t.len() - 1] == '.' || is_sign(t[t.len() - 1]));
    assert(unpercented(t) == t);
}

} // verus!
