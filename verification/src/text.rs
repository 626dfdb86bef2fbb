//! Character-level text helpers with their mathematical models.
use vstd::prelude::*;

verus! {

/// Unicode `White_Space`, the set `char::is_whitespace` tests.
pub open spec fn is_ws(c: char) -> bool {
    let u = c as u32;
    (0x09 <= u <= 0x0D) || u == 0x20 || u == 0x85 || u == 0xA0 || u == 0x1680
        || (0x2000 <= u <= 0x200A) || u == 0x2028 || u == 0x2029 || u == 0x202F
        || u == 0x205F || u == 0x3000
}

pub fn char_is_ws(c: char) -> (b: bool)
    ensures
        b == is_ws(c),
{
    let u = c as u32;
    (0x09 <= u && u <= 0x0D) || u == 0x20 || u == 0x85 || u == 0xA0 || u == 0x1680 || (0x2000
        <= u && u <= 0x200A) || u == 0x2028 || u == 0x2029 || u == 0x202F || u == 0x205F || u
        == 0x3000
}

pub open spec fn is_digit(c: char) -> bool {
    '0' <= c <= '9'
}

pub open spec fn all_digits(s: Seq<char>) -> bool {
    forall|i: int| 0 <= i < s.len() ==> is_digit(#[trigger] s[i])
}

/// `s` with leading whitespace removed.
pub open spec fn trim_start(s: Seq<char>) -> Seq<char>
    decreases s.len(),
{
    if s.len() > 0 && is_ws(s[0]) {
        trim_start(s.drop_first())
    } else {
        s
    }
}

/// `s` with trailing whitespace removed.
pub open spec fn trim_end(s: Seq<char>) -> Seq<char>
    decreases s.len(),
{
    if s.len() > 0 && is_ws(s.last()) {
        trim_end(s.drop_last())
    } else {
        s
    }
}

/// `s` with whitespace removed at both ends, as `str::trim` does.
pub open spec fn trim(s: Seq<char>) -> Seq<char> {
    trim_end(trim_start(s))
}

/// Splitting state after reading a prefix: the finished words and the word
/// under construction.
pub open spec fn split_state(s: Seq<char>) -> (Seq<Seq<char>>, Seq<char>)
    decreases s.len(),
{
    if s.len() == 0 {
        (seq![], seq![])
    } else {
        let (done, cur) = split_state(s.drop_last());
        let c = s.last();
        if is_ws(c) {
            if cur.len() > 0 {
                (done.push(cur), seq![])
            } else {
                (done, seq![])
            }
        } else {
            (done, cur.push(c))
        }
    }
}

/// The maximal runs of non-whitespace characters of `s`, in order, as
/// `str::split_whitespace` yields them.
pub open spec fn words(s: Seq<char>) -> Seq<Seq<char>> {
    let (done, cur) = split_state(s);
    if cur.len() > 0 {
        done.push(cur)
    } else {
        done
    }
}

/// `p` occurs in `s` as a contiguous run.
pub open spec fn contains(s: Seq<char>, p: Seq<char>) -> bool {
    exists|i: int| 0 <= i <= s.len() - p.len() && #[trigger] s.subrange(i, i + p.len()) == p
}

pub open spec fn starts_with(s: Seq<char>, p: Seq<char>) -> bool {
    p.len() <= s.len() && s.subrange(0, p.len() as int) == p
}

pub open spec fn ends_with(s: Seq<char>, p: Seq<char>) -> bool {
    p.len() <= s.len() && s.subrange(s.len() - p.len(), s.len() as int) == p
}

pub open spec fn digit_char(d: nat) -> char {
    if d == 0 {
        '0'
    } else if d == 1 {
        '1'
    } else if d == 2 {
        '2'
    } else if d == 3 {
        '3'
    } else if d == 4 {
        '4'
    } else if d == 5 {
        '5'
    } else if d == 6 {
        '6'
    } else if d == 7 {
        '7'
    } else if d == 8 {
        '8'
    } else {
        '9'
    }
}

/// Decimal representation of `n` without leading zeros.
pub open spec fn decimal(n: nat) -> Seq<char>
    decreases n,
{
    if n < 10 {
        seq![digit_char(n)]
    } else {
        decimal(n / 10).push(digit_char(n % 10))
    }
}

/// The number that a run of ASCII digits denotes.
pub open spec fn digits_value(s: Seq<char>) -> nat
    decreases s.len(),
{
    if s.len() == 0 {
        0
    } else {
        digits_value(s.drop_last()) * 10 + ((s.last() as u32) - ('0' as u32)) as nat
    }
}

/// The characters of `s`, in order.
pub fn chars_of(s: &str) -> (v: Vec<char>)
    ensures
        v@ == s@,
{
    let mut v: Vec<char> = Vec::new();
    for c in it: s.chars()
        invariant
            v@ == it.seq().take(it.index() as int),
            it.seq() == s@,
    {
        v.push(c);
    }
    v
}

/// Builds a string from characters (`Iterator::collect` into `String`).
#[verifier::external_body]
pub fn string_from_chars(chars: &[char]) -> (s: String)
    ensures
        s@ == chars@,
{
    chars.iter().collect()
}

proof fn lemma_trim_start_skip(s: Seq<char>, i: int)
    requires
        0 <= i <= s.len(),
        forall|k: int| 0 <= k < i ==> is_ws(#[trigger] s[k]),
    ensures
        trim_start(s) == trim_start(s.subrange(i, s.len() as int)),
    decreases i,
{
    if i > 0 {
        assert(s.subrange(1, s.len() as int) =~= s.drop_first());
        lemma_trim_start_skip(s.drop_first(), i - 1);
        assert(s.drop_first().subrange(i - 1, s.drop_first().len() as int) =~= s.subrange(
            i,
            s.len() as int,
        ));
    } else {
        assert(s.subrange(0, s.len() as int) =~= s);
    }
}

proof fn lemma_trim_end_skip(s: Seq<char>, j: int)
    requires
        0 <= j <= s.len(),
        forall|k: int| j <= k < s.len() ==> is_ws(#[trigger] s[k]),
    ensures
        trim_end(s) == trim_end(s.subrange(0, j)),
    decreases s.len() - j,
{
    if j < s.len() {
        lemma_trim_end_skip(s.drop_last(), j);
        assert(s.drop_last().subrange(0, j) =~= s.subrange(0, j));
    } else {
        assert(s.subrange(0, j) =~= s);
    }
}

proof fn lemma_trim_start_shape(s: Seq<char>)
    ensures
        trim_start(s).len() <= s.len(),
        trim_start(s) == s.subrange(s.len() - trim_start(s).len(), s.len() as int),
        trim_start(s).len() > 0 ==> !is_ws(trim_start(s)[0]),
    decreases s.len(),
{
    if s.len() > 0 && is_ws(s[0]) {
        lemma_trim_start_shape(s.drop_first());
        assert(s.drop_first().subrange(
            s.drop_first().len() - trim_start(s).len(),
            s.drop_first().len() as int,
        ) =~= s.subrange(s.len() - trim_start(s).len(), s.len() as int));
    } else {
        assert(s.subrange(0, s.len() as int) =~= s);
    }
}

proof fn lemma_trim_end_shape(s: Seq<char>)
    ensures
        trim_end(s).len() <= s.len(),
        trim_end(s) == s.subrange(0, trim_end(s).len() as int),
        trim_end(s).len() > 0 ==> !is_ws(trim_end(s).last()),
    decreases s.len(),
{
    if s.len() > 0 && is_ws(s.last()) {
        lemma_trim_end_shape(s.drop_last());
        assert(s.drop_last().subrange(0, trim_end(s).len() as int) =~= s.subrange(
            0,
            trim_end(s).len() as int,
        ));
    } else {
        assert(s.subrange(0, s.len() as int) =~= s);
    }
}

/// A text without whitespace at either end is its own trim.
pub proof fn lemma_trim_of_trimmed(s: Seq<char>)
    requires
        s.len() > 0 ==> !is_ws(s[0]) && !is_ws(s.last()),
    ensures
        trim(s) == s,
{
    if s.len() > 0 {
        assert(trim_start(s) == s);
        assert(trim_end(s) == s);
    }
}

/// Trimming twice is trimming once.
pub proof fn lemma_trim_idempotent(s: Seq<char>)
    ensures
        trim(trim(s)) == trim(s),
        trim(s).len() > 0 ==> !is_ws(trim(s)[0]) && !is_ws(trim(s).last()),
{
    let a = trim_start(s);
    lemma_trim_start_shape(s);
    lemma_trim_end_shape(a);
    let t = trim_end(a);
    if t.len() > 0 {
        assert(t[0] == a[0]);
    }
    lemma_trim_of_trimmed(t);
}

proof fn lemma_digit_char_value(d: nat)
    requires
        d < 10,
    ensures
        (digit_char(d) as u32) - ('0' as u32) == d,
        is_digit(digit_char(d)),
{
}

/// The decimal text of a number is made of digits, none of them a sign or
/// whitespace, and reads back as the number.
pub proof fn lemma_decimal_reads_back(n: nat)
    ensures
        decimal(n).len() > 0,
        all_digits(decimal(n)),
        digits_value(decimal(n)) == n,
        !is_ws(decimal(n)[0]),
        !is_ws(decimal(n).last()),
        decimal(n)[0] != '+',
        trim(decimal(n)) == decimal(n),
    decreases n,
{
    lemma_digit_char_value(n % 10);
    if n >= 10 {
        lemma_decimal_reads_back(n / 10);
        let d = decimal(n / 10);
        assert(decimal(n) == d.push(digit_char(n % 10)));
        assert(decimal(n).drop_last() =~= d);
        assert(decimal(n)[0] == d[0]);
        assert(digits_value(decimal(n)) == digits_value(d) * 10 + n % 10);
    } else {
        assert(decimal(n).drop_last() =~= Seq::<char>::empty());
        assert(digits_value(decimal(n)) == digits_value(Seq::<char>::empty()) * 10 + n % 10);
    }
    lemma_trim_of_trimmed(decimal(n));
}

/// Bounds `[start, end)` of `trim(v@)` within `v@`.
pub fn trim_bounds(v: &[char]) -> (r: (usize, usize))
    ensures
        r.0 <= r.1 <= v@.len(),
        trim(v@) == v@.subrange(r.0 as int, r.1 as int),
{
    let n = v.len();
    let mut i: usize = 0;
    while i < n && char_is_ws(v[i])
        invariant
            i <= n,
            n == v@.len(),
            forall|k: int| 0 <= k < i ==> is_ws(#[trigger] v@[k]),
        decreases n - i,
    {
        i = i + 1;
    }
    let mut j: usize = n;
    while j > i && char_is_ws(v[j - 1])
        invariant
            i <= j <= n,
            n == v@.len(),
            forall|k: int| j <= k < n ==> is_ws(#[trigger] v@[k]),
        decreases j,
    {
        j = j - 1;
    }
    proof {
        lemma_trim_start_skip(v@, i as int);
        let t = v@.subrange(i as int, n as int);
        assert(trim_start(t) == t);
        lemma_trim_end_skip(t, (j - i) as int);
        assert(t.subrange(0, (j - i) as int) =~= v@.subrange(i as int, j as int));
        let u = v@.subrange(i as int, j as int);
        assert(trim_end(u) == u);
    }
    (i, j)
}

/// `str::trim` as an owned string.
pub fn trim_string(s: &str) -> (r: String)
    ensures
        r@ == trim(s@),
{
    let v = chars_of(s);
    let (a, b) = trim_bounds(v.as_slice());
    let slice = slice_range(&v, a, b);
    string_from_chars(slice.as_slice())
}

/// The characters `v[a..b]` as a new vector.
pub fn slice_range(v: &Vec<char>, a: usize, b: usize) -> (r: Vec<char>)
    requires
        a <= b <= v@.len(),
    ensures
        r@ == v@.subrange(a as int, b as int),
{
    let mut r: Vec<char> = Vec::new();
    let mut k = a;
    while k < b
        invariant
            a <= k <= b,
            b <= v@.len(),
            r@ == v@.subrange(a as int, k as int),
        decreases b - k,
    {
        r.push(v[k]);
        proof {
            assert(v@.subrange(a as int, k + 1) =~= v@.subrange(a as int, k as int).push(v@[k as int]));
        }
        k = k + 1;
    }
    r
}

/// Splits `v` into its whitespace-separated words.
pub fn split_words(v: &[char]) -> (r: Vec<Vec<char>>)
    ensures
        r.deep_view() == words(v@),
{
    let mut done: Vec<Vec<char>> = Vec::new();
    let mut cur: Vec<char> = Vec::new();
    let n = v.len();
    let mut i: usize = 0;
    while i < n
        invariant
            i <= n,
            n == v@.len(),
            (done.deep_view(), cur@) == split_state(v@.take(i as int)),
        decreases n - i,
    {
        let c = v[i];
        proof {
            assert(v@.take(i + 1).drop_last() =~= v@.take(i as int));
        }
        if char_is_ws(c) {
            if cur.len() > 0 {
                let ghost old_done = done.deep_view();
                let ghost old_vec = done@;
                let ghost w_view = cur@;
                let w = cur;
                done.push(w);
                cur = Vec::new();
                proof {
                    assert(done.deep_view() =~= old_done.push(w_view)) by {
                        assert(done.deep_view().len() == old_done.len() + 1);
                        assert forall|k: int| 0 <= k < done.deep_view().len() implies
                            #[trigger] done.deep_view()[k] == old_done.push(w_view)[k] by {
                            if k < old_done.len() {
                                assert(done@[k] == old_vec[k]);
                            }
                        }
                    }
                }
            } else {
                cur = Vec::new();
            }
        } else {
            cur.push(c);
        }
        i = i + 1;
    }
    proof {
        assert(v@.take(n as int) =~= v@);
    }
    if cur.len() > 0 {
        let ghost old_done = done.deep_view();
        let ghost w_view = cur@;
        done.push(cur);
        proof {
            assert(done.deep_view() =~= old_done.push(w_view)) by {
                assert forall|k: int| 0 <= k < done.deep_view().len() implies
                    #[trigger] done.deep_view()[k] == old_done.push(w_view)[k] by {
                }
            }
        }
    }
    done
}


/// `s` with every occurrence of `c` removed.
pub open spec fn remove_char(s: Seq<char>, c: char) -> Seq<char>
    decreases s.len(),
{
    if s.len() == 0 {
        s
    } else if s.last() == c {
        remove_char(s.drop_last(), c)
    } else {
        remove_char(s.drop_last(), c).push(s.last())
    }
}

/// Index of the first occurrence of `c` in `s`, if any.
pub open spec fn find_char(s: Seq<char>, c: char) -> Option<int>
    decreases s.len(),
{
    if s.len() == 0 {
        None
    } else if s[0] == c {
        Some(0)
    } else {
        match find_char(s.drop_first(), c) {
            Some(i) => Some(i + 1),
            None => None,
        }
    }
}

pub proof fn lemma_find_char(s: Seq<char>, c: char)
    ensures
        match find_char(s, c) {
            Some(i) => 0 <= i < s.len() && s[i] == c && forall|k: int| 0 <= k < i ==> s[k] != c,
            None => forall|k: int| 0 <= k < s.len() ==> s[k] != c,
        },
    decreases s.len(),
{
    if s.len() > 0 && s[0] != c {
        lemma_find_char(s.drop_first(), c);
        match find_char(s.drop_first(), c) {
            Some(i) => {
                assert forall|k: int| 0 <= k < i + 1 implies s[k] != c by {
                    if k > 0 {
                        assert(s[k] == s.drop_first()[k - 1]);
                    }
                }
            },
            None => {
                assert forall|k: int| 0 <= k < s.len() implies s[k] != c by {
                    if k > 0 {
                        assert(s[k] == s.drop_first()[k - 1]);
                    }
                }
            },
        }
    }
}

/// Index of the first `c` in `v`, if any.
pub fn find_char_in(v: &[char], c: char) -> (r: Option<usize>)
    ensures
        match r {
            Some(i) => find_char(v@, c) == Some(i as int) && i < v@.len() && v@[i as int] == c,
            None => find_char(v@, c) is None,
        },
{
    proof {
        lemma_find_char(v@, c);
    }
    let n = v.len();
    let mut i: usize = 0;
    while i < n
        invariant
            i <= n,
            n == v@.len(),
            forall|k: int| 0 <= k < i ==> v@[k] != c,
        decreases n - i,
    {
        if v[i] == c {
            proof {
                lemma_find_char(v@, c);
                match find_char(v@, c) {
                    Some(j) => {
                        if j < i {
                        } else if j > i {
                        }
                    },
                    None => {},
                }
            }
            return Some(i);
        }
        i = i + 1;
    }
    None
}

/// Characters of `v` without any `c`.
pub fn without_char(v: &[char], c: char) -> (r: Vec<char>)
    ensures
        r@ == remove_char(v@, c),
{
    let mut r: Vec<char> = Vec::new();
    let n = v.len();
    let mut i: usize = 0;
    while i < n
        invariant
            i <= n,
            n == v@.len(),
            r@ == remove_char(v@.take(i as int), c),
        decreases n - i,
    {
        proof {
            assert(v@.take(i + 1).drop_last() =~= v@.take(i as int));
        }
        if v[i] != c {
            r.push(v[i]);
        }
        i = i + 1;
    }
    proof {
        assert(v@.take(n as int) =~= v@);
    }
    r
}

pub fn is_digit_char(c: char) -> (b: bool)
    ensures
        b == is_digit(c),
{
    '0' <= c && c <= '9'
}

/// Whether every character of `v` is an ASCII digit.
pub fn all_digits_in(v: &[char]) -> (b: bool)
    ensures
        b == all_digits(v@),
{
    let n = v.len();
    let mut i: usize = 0;
    while i < n
        invariant
            i <= n,
            n == v@.len(),
            forall|k: int| 0 <= k < i ==> is_digit(#[trigger] v@[k]),
        decreases n - i,
    {
        if !is_digit_char(v[i]) {
            return false;
        }
        i = i + 1;
    }
    true
}

pub proof fn lemma_digits_value_prefix(s: Seq<char>, k: int)
    requires
        0 <= k <= s.len(),
    ensures
        digits_value(s.take(k)) <= digits_value(s),
    decreases s.len() - k,
{
    if k < s.len() {
        lemma_digits_value_prefix(s.drop_last(), k);
        assert(s.drop_last().take(k) =~= s.take(k));
    } else {
        assert(s.take(k) =~= s);
    }
}

/// The value of a run of ASCII digits, when it does not exceed `i128::MAX`.
pub fn digits_to_i128(v: &[char]) -> (r: Option<i128>)
    requires
        all_digits(v@),
    ensures
        match r {
            Some(x) => x == digits_value(v@),
            None => digits_value(v@) > i128::MAX,
        },
{
    let n = v.len();
    let mut acc: i128 = 0;
    let mut i: usize = 0;
    while i < n
        invariant
            i <= n,
            n == v@.len(),
            all_digits(v@),
            acc == digits_value(v@.take(i as int)),
        decreases n - i,
    {
        proof {
            assert(v@.take(i + 1).drop_last() =~= v@.take(i as int));
            assert(is_digit(v@[i as int]));
        }
        let d = ((v[i] as u32) - ('0' as u32)) as i128;
        let m = acc.checked_mul(10);
        match m {
            None => {
                proof {
                    lemma_digits_value_prefix(v@, i + 1);
                }
                return None;
            },
            Some(m) => {
                let a = m.checked_add(d);
                match a {
                    None => {
                        proof {
                            lemma_digits_value_prefix(v@, i + 1);
                        }
                        return None;
                    },
                    Some(a) => {
                        acc = a;
                    },
                }
            },
        }
        i = i + 1;
    }
    proof {
        assert(v@.take(n as int) =~= v@);
    }
    Some(acc)
}

/// Decimal text of `n`.
pub fn u128_to_string(n: u128) -> (s: String)
    ensures
        s@ == decimal(n as nat),
{
    let mut digits: Vec<char> = Vec::new();
    let mut m = n;
    // digits holds the low-order digits of n in reverse order
    while m >= 10
        invariant
            decimal(n as nat) == decimal(m as nat) + digits@.reverse(),
        decreases m,
    {
        let d = (m % 10) as u32;
        let c = digit_to_char(d);
        proof {
            assert(decimal(m as nat) == decimal((m / 10) as nat).push(digit_char((m % 10) as nat)));
            assert(digits@.push(c).reverse() =~= seq![c] + digits@.reverse());
            assert(decimal((m / 10) as nat).push(c) + digits@.reverse() =~= decimal((m / 10) as nat) + digits@.push(c).reverse());
        }
        digits.push(c);
        m = m / 10;
    }
    let c0 = digit_to_char(m as u32);
    digits.push(c0);
    proof {
        assert(digits@.reverse() =~= seq![c0] + digits@.drop_last().reverse());
        assert(decimal(m as nat) == seq![c0]);
        assert(decimal(n as nat) =~= digits@.reverse());
    }
    let mut out: Vec<char> = Vec::new();
    let k = digits.len();
    let mut i: usize = 0;
    while i < k
        invariant
            i <= k,
            k == digits@.len(),
            out@ == digits@.reverse().take(i as int),
        decreases k - i,
    {
        out.push(digits[k - 1 - i]);
        proof {
            assert(out@ =~= digits@.reverse().take(i + 1));
        }
        i = i + 1;
    }
    proof {
        assert(digits@.reverse().take(k as int) =~= digits@.reverse());
    }
    string_from_chars(out.as_slice())
}

/// Decimal text of `n`.
pub fn u64_to_string(n: u64) -> (s: String)
    ensures
        s@ == decimal(n as nat),
{
    u128_to_string(n as u128)
}

pub fn digit_to_char(d: u32) -> (c: char)
    requires
        d < 10,
    ensures
        c == digit_char(d as nat),
        is_digit(c),
{
    if d == 0 {
        '0'
    } else if d == 1 {
        '1'
    } else if d == 2 {
        '2'
    } else if d == 3 {
        '3'
    } else if d == 4 {
        '4'
    } else if d == 5 {
        '5'
    } else if d == 6 {
        '6'
    } else if d == 7 {
        '7'
    } else if d == 8 {
        '8'
    } else {
        '9'
    }
}

/// Whether two strings hold the same characters.
pub fn str_eq(a: &str, b: &str) -> (r: bool)
    ensures
        r == (a@ == b@),
{
    let x = chars_of(a);
    let y = chars_of(b);
    seq_eq(x.as_slice(), y.as_slice())
}

pub fn seq_eq(x: &[char], y: &[char]) -> (r: bool)
    ensures
        r == (x@ == y@),
{
    if x.len() != y.len() {
        return false;
    }
    let n = x.len();
    let mut i: usize = 0;
    while i < n
        invariant
            i <= n,
            n == x@.len(),
            n == y@.len(),
            forall|k: int| 0 <= k < i ==> x@[k] == y@[k],
        decreases n - i,
    {
        if x[i] != y[i] {
            return false;
        }
        i = i + 1;
    }
    proof {
        assert(x@ =~= y@);
    }
    true
}

/// Whether `p` occurs in `s`.
pub fn contains_str(s: &str, p: &str) -> (r: bool)
    ensures
        r == contains(s@, p@),
{
    let x = chars_of(s);
    let y = chars_of(p);
    contains_chars(x.as_slice(), y.as_slice())
}

pub fn contains_chars(x: &[char], y: &[char]) -> (r: bool)
    ensures
        r == contains(x@, y@),
{
    if y.len() > x.len() {
        return false;
    }
    let total = x.len();
    let n = x.len() - y.len();
    let m = y.len();
    let mut i: usize = 0;
    loop
        invariant
            total == x@.len(),
            n + m == x@.len(),
            m == y@.len(),
            i <= n,
            forall|k: int| 0 <= k < i ==> #[trigger] x@.subrange(k, k + m) != y@,
        decreases n - i,
    {
        let mut j: usize = 0;
        let mut ok = true;
        while j < m
            invariant
                j <= m,
                m == y@.len(),
                i <= n,
                n + m == x@.len(),
                total == x@.len(),
                ok ==> forall|t: int| 0 <= t < j ==> x@[i + t] == y@[t],
                !ok ==> x@.subrange(i as int, i + m) != y@,
            decreases m - j,
        {
            if ok && x[i + j] != y[j] {
                ok = false;
                proof {
                    assert(x@.subrange(i as int, i + m)[j as int] != y@[j as int]);
                }
            }
            j = j + 1;
        }
        if ok {
            proof {
                assert(x@.subrange(i as int, i + m) =~= y@);
            }
            return true;
        }
        if i == n {
            proof {
                assert forall|k: int| 0 <= k <= x@.len() - y@.len() implies #[trigger] x@.subrange(k, k + y@.len()) != y@ by {
                    assert(k <= i);
                }
            }
            return false;
        }
        i = i + 1;
    }
}


/// Appends `msg` to a list of messages.
pub fn push_message(list: &mut Vec<String>, msg: &str)
    ensures
        final(list).deep_view() == old(list).deep_view().push(msg@),
{
    let ghost before = list.deep_view();
    let ghost before_vec = list@;
    list.push(String::from_str(msg));
    proof {
        assert(list.deep_view() =~= before.push(msg@)) by {
            assert forall|k: int| 0 <= k < list.deep_view().len() implies #[trigger] list.deep_view()[k]
                == before.push(msg@)[k] by {
                if k < before.len() {
                    assert(list@[k] == before_vec[k]);
                }
            }
        }
    }
}

/// Appends an owned message to a list of messages.
pub fn push_owned(list: &mut Vec<String>, msg: String)
    ensures
        final(list).deep_view() == old(list).deep_view().push(msg@),
{
    let ghost before = list.deep_view();
    let ghost before_vec = list@;
    let ghost m = msg@;
    list.push(msg);
    proof {
        assert(list.deep_view() =~= before.push(m)) by {
            assert forall|k: int| 0 <= k < list.deep_view().len() implies #[trigger] list.deep_view()[k]
                == before.push(m)[k] by {
                if k < before.len() {
                    assert(list@[k] == before_vec[k]);
                }
            }
        }
    }
}

/// ASCII letters mapped to lower case, as `str::to_ascii_lowercase` does.
pub open spec fn ascii_lower(s: Seq<char>) -> Seq<char> {
    s.map_values(|c: char| if 'A' <= c <= 'Z' {
        ((c as u32) + 32) as char
    } else {
        c
    })
}

pub fn to_ascii_lower(s: &str) -> (r: String)
    ensures
        r@ == ascii_lower(s@),
{
    let v = chars_of(s);
    let mut out: Vec<char> = Vec::new();
    let mut i: usize = 0;
    while i < v.len()
        invariant
            i <= v@.len(),
            v@ == s@,
            out@ == ascii_lower(v@.take(i as int)),
        decreases v@.len() - i,
    {
        let c = v[i];
        let d = if 'A' <= c && c <= 'Z' {
            ((c as u8) + 32) as char
        } else {
            c
        };
        out.push(d);
        proof {
            assert(out@ =~= ascii_lower(v@.take(i + 1)));
        }
        i = i + 1;
    }
    proof {
        assert(v@.take(v@.len() as int) =~= v@);
    }
    string_from_chars(out.as_slice())
}

/// `s` without the runs of `c` at either end, as `str::trim_matches(c)` does.
pub open spec fn strip_char(s: Seq<char>, c: char) -> Seq<char>
    decreases s.len(),
{
    if s.len() > 0 && s[0] == c {
        strip_char(s.drop_first(), c)
    } else if s.len() > 0 && s.last() == c {
        strip_char(s.drop_last(), c)
    } else {
        s
    }
}

proof fn lemma_strip_char_range(s: Seq<char>, c: char, i: int, j: int)
    requires
        0 <= i <= j <= s.len(),
        forall|k: int| 0 <= k < i ==> #[trigger] s[k] == c,
        forall|k: int| j <= k < s.len() ==> #[trigger] s[k] == c,
        i < j ==> s[i] != c && s[j - 1] != c,
    ensures
        strip_char(s, c) == s.subrange(i, j),
    decreases s.len(),
{
    if s.len() > 0 && s[0] == c {
        if i == 0 {
            assert(j == 0);
            lemma_strip_char_range(s.drop_first(), c, 0, 0);
            assert(s.drop_first().subrange(0, 0) =~= s.subrange(0, 0));
        } else {
            lemma_strip_char_range(s.drop_first(), c, i - 1, j - 1);
            assert(s.drop_first().subrange(i - 1, j - 1) =~= s.subrange(i, j));
        }
    } else if s.len() > 0 && s.last() == c {
        assert(j < s.len()) by {
            if j == s.len() {
                if i < j {
                    assert(s[j - 1] != c);
                } else if i > 0 {
                    assert(s[0] == c);
                }
            }
        }
        lemma_strip_char_range(s.drop_last(), c, i, j);
        assert(s.drop_last().subrange(i, j) =~= s.subrange(i, j));
    } else {
        assert(i == 0 && j == s.len()) by {
            if i > 0 {
                assert(s[0] == c);
            }
            if j < s.len() {
                assert(s[s.len() - 1] == c);
            }
        }
        assert(s.subrange(0, s.len() as int) =~= s);
    }
}

/// `s.trim_matches(c)` as an owned string.
pub fn strip_char_string(s: &str, c: char) -> (r: String)
    ensures
        r@ == strip_char(s@, c),
{
    let v = chars_of(s);
    let n = v.len();
    let mut i: usize = 0;
    while i < n && v[i] == c
        invariant
            i <= n,
            n == v@.len(),
            forall|k: int| 0 <= k < i ==> #[trigger] v@[k] == c,
        decreases n - i,
    {
        i = i + 1;
    }
    let mut j: usize = n;
    while j > i && v[j - 1] == c
        invariant
            i <= j <= n,
            n == v@.len(),
            forall|k: int| j <= k < n ==> #[trigger] v@[k] == c,
        decreases j,
    {
        j = j - 1;
    }
    proof {
        if i < j {
            assert(v@[i as int] != c);
        }
        lemma_strip_char_range(v@, c, i as int, j as int);
    }
    let w = slice_range(&v, i, j);
    string_from_chars(w.as_slice())
}

/// The value of an unsigned integer text as `str::parse::<usize>` reads it:
/// an optional `+`, then one or more ASCII digits, within `usize`.
pub open spec fn usize_text(s: Seq<char>) -> Option<nat> {
    let body = if s.len() > 0 && s[0] == '+' {
        s.drop_first()
    } else {
        s
    };
    if body.len() > 0 && all_digits(body) && digits_value(body) <= usize::MAX {
        Some(digits_value(body))
    } else {
        None
    }
}

pub fn parse_usize(s: &str) -> (r: Option<usize>)
    ensures
        match r {
            Some(v) => usize_text(s@) == Some(v as nat),
            None => usize_text(s@) is None,
        },
{
    let v = chars_of(s);
    let body = if v.len() > 0 && v[0] == '+' {
        slice_range(&v, 1, v.len())
    } else {
        slice_range(&v, 0, v.len())
    };
    proof {
        assert(v@.subrange(1, v@.len() as int) =~= v@.drop_first());
        assert(v@.subrange(0, v@.len() as int) =~= v@);
    }
    if body.len() == 0 || !all_digits_in(body.as_slice()) {
        return None;
    }
    match digits_to_i128(body.as_slice()) {
        Some(n) => {
            if n <= usize::MAX as i128 {
                Some(n as usize)
            } else {
                None
            }
        },
        None => None,
    }
}

/// The value of an unsigned integer text as `str::parse::<u64>` reads it:
/// an optional `+`, then one or more ASCII digits, within `u64`.
pub open spec fn u64_text(s: Seq<char>) -> Option<nat> {
    let body = if s.len() > 0 && s[0] == '+' {
        s.drop_first()
    } else {
        s
    };
    if body.len() > 0 && all_digits(body) && digits_value(body) <= u64::MAX {
        Some(digits_value(body))
    } else {
        None
    }
}

pub fn parse_u64(s: &str) -> (r: Option<u64>)
    ensures
        match r {
            Some(v) => u64_text(s@) == Some(v as nat),
            None => u64_text(s@) is None,
        },
{
    let v = chars_of(s);
    let body = if v.len() > 0 && v[0] == '+' {
        slice_range(&v, 1, v.len())
    } else {
        slice_range(&v, 0, v.len())
    };
    proof {
        assert(v@.subrange(1, v@.len() as int) =~= v@.drop_first());
        assert(v@.subrange(0, v@.len() as int) =~= v@);
    }
    if body.len() == 0 || !all_digits_in(body.as_slice()) {
        return None;
    }
    match digits_to_i128(body.as_slice()) {
        Some(n) => {
            if n <= u64::MAX as i128 {
                Some(n as u64)
            } else {
                None
            }
        },
        None => None,
    }
}

/// A single message when `b` holds, none otherwise.
pub open spec fn msg_if(b: bool, m: Seq<char>) -> Seq<Seq<char>> {
    if b {
        seq![m]
    } else {
        seq![]
    }
}

/// Appends `msg` when `b` holds.
pub fn push_message_if(list: &mut Vec<String>, b: bool, msg: &str)
    ensures
        final(list).deep_view() == old(list).deep_view() + msg_if(b, msg@),
{
    let ghost before = list.deep_view();
    if b {
        push_message(list, msg);
    } else {
        assert(list.deep_view() =~= before + seq![]);
    }
}

} // verus!
