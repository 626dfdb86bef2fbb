//! The order of strings by their characters, and sorted sets of strings
//! kept in a `Vec`.
use vstd::prelude::*;

use crate::text::chars_of;

verus! {

/// `a` comes before `b`: compared character by character (by code point),
/// a proper prefix first. This is the order of `String`'s `Ord`, which
/// compares the UTF-8 bytes.
pub open spec fn lex_lt(a: Seq<char>, b: Seq<char>) -> bool
    decreases a.len(),
{
    if a.len() == 0 {
        b.len() > 0
    } else if b.len() == 0 {
        false
    } else if a[0] != b[0] {
        (a[0] as u32) < (b[0] as u32)
    } else {
        lex_lt(a.drop_first(), b.drop_first())
    }
}

/// Every string comes strictly before the ones after it.
pub open spec fn strictly_sorted(s: Seq<Seq<char>>) -> bool {
    forall|i: int, j: int| 0 <= i < j < s.len() ==> lex_lt(#[trigger] s[i], #[trigger] s[j])
}

pub proof fn lemma_lex_irreflexive(a: Seq<char>)
    ensures
        !lex_lt(a, a),
    decreases a.len(),
{
    if a.len() > 0 {
        lemma_lex_irreflexive(a.drop_first());
    }
}

pub proof fn lemma_lex_transitive(a: Seq<char>, b: Seq<char>, c: Seq<char>)
    requires
        lex_lt(a, b),
        lex_lt(b, c),
    ensures
        lex_lt(a, c),
    decreases a.len(),
{
    if a.len() > 0 && a[0] == b[0] && b[0] == c[0] {
        lemma_lex_transitive(a.drop_first(), b.drop_first(), c.drop_first());
    }
}

proof fn lemma_char_code_injective(x: char, y: char)
    requires
        x != y,
    ensures
        (x as u32) != (y as u32),
{
}

pub proof fn lemma_lex_total(a: Seq<char>, b: Seq<char>)
    requires
        a != b,
    ensures
        lex_lt(a, b) || lex_lt(b, a),
    decreases a.len(),
{
    if a.len() == 0 || b.len() == 0 {
        if a.len() == 0 && b.len() == 0 {
            assert(a =~= b);
        }
    } else if a[0] != b[0] {
        lemma_char_code_injective(a[0], b[0]);
    } else {
        let ta = a.drop_first();
        let tb = b.drop_first();
        if ta =~= tb {
            assert forall|i: int| 0 <= i < a.len() implies a[i] == b[i] by {
                if i > 0 {
                    assert(a[i] == ta[i - 1]);
                    assert(b[i] == tb[i - 1]);
                }
            }
            assert(a =~= b);
        } else {
            lemma_lex_total(ta, tb);
            assert(lex_lt(a, b) == lex_lt(ta, tb));
            assert(lex_lt(b, a) == lex_lt(tb, ta));
        }
    }
}

/// Whether `a` comes before `b`.
pub fn lex_less(a: &Vec<char>, b: &Vec<char>) -> (r: bool)
    ensures
        r == lex_lt(a@, b@),
{
    let mut i: usize = 0;
    proof {
        assert(a@.skip(0) =~= a@);
        assert(b@.skip(0) =~= b@);
    }
    while i < a.len() && i < b.len()
        invariant
            i <= a@.len(),
            i <= b@.len(),
            lex_lt(a@, b@) == lex_lt(a@.skip(i as int), b@.skip(i as int)),
        decreases a@.len() - i,
    {
        proof {
            assert(a@.skip(i as int)[0] == a@[i as int]);
            assert(b@.skip(i as int)[0] == b@[i as int]);
        }
        if a[i] != b[i] {
            return (a[i] as u32) < (b[i] as u32);
        }
        proof {
            assert(a@.skip(i as int).drop_first() =~= a@.skip(i + 1));
            assert(b@.skip(i as int).drop_first() =~= b@.skip(i + 1));
        }
        i = i + 1;
    }
    i < b.len()
}

/// Adds `v` to a strictly sorted list of strings unless it is there already;
/// the list stays strictly sorted.
pub fn insert_sorted(out: &mut Vec<String>, v: String)
    requires
        strictly_sorted(old(out).deep_view()),
    ensures
        strictly_sorted(final(out).deep_view()),
        forall|x: Seq<char>| #[trigger] final(out).deep_view().contains(x) <==> (old(out).deep_view().contains(x) || x == v@),
{
    let ghost before = out.deep_view();
    let key = chars_of(v.as_str());
    let mut k: usize = 0;
    while k < out.len()
        invariant
            k <= out@.len(),
            out.deep_view() == before,
            key@ == v@,
            forall|j: int| 0 <= j < k ==> lex_lt(#[trigger] before[j], v@),
        ensures
            k <= out@.len(),
            forall|j: int| 0 <= j < k ==> lex_lt(#[trigger] before[j], v@),
            k < out@.len() ==> !lex_lt(before[k as int], v@),
        decreases out@.len() - k,
    {
        let here = chars_of(out[k].as_str());
        proof {
            assert(before[k as int] == out@[k as int]@);
        }
        if !lex_less(&here, &key) {
            break;
        }
        k = k + 1;
    }
    if k < out.len() {
        let here = chars_of(out[k].as_str());
        proof {
            assert(before[k as int] == out@[k as int]@);
        }
        let after_v = lex_less(&key, &here);
        if !after_v {
            proof {
                if before[k as int] != v@ {
                    lemma_lex_total(before[k as int], v@);
                }
                assert(before.contains(v@)) by {
                    assert(before[k as int] == v@);
                }
            }
            return;
        }
    }
    proof {
        assert(k < before.len() ==> lex_lt(v@, before[k as int])) by {
            if k < before.len() {
                if before[k as int] != v@ {
                    lemma_lex_total(before[k as int], v@);
                } else {
                    lemma_lex_irreflexive(v@);
                }
            }
        }
    }
    out.insert(k, v);
    let ghost after = out.deep_view();
    proof {
        assert(after =~= before.insert(k as int, v@));
        assert forall|i: int, j: int| 0 <= i < j < after.len() implies lex_lt(
            #[trigger] after[i],
            #[trigger] after[j],
        ) by {
            if j < k {
                assert(lex_lt(before[i], before[j]));
            } else if j == k {
                assert(lex_lt(before[i], v@));
            } else if i == k {
                if j - 1 > k {
                    assert(lex_lt(before[k as int], before[j - 1]));
                    lemma_lex_transitive(v@, before[k as int], before[j - 1]);
                }
            } else if i < k {
                assert(lex_lt(before[i], v@));
                assert(lex_lt(v@, before[k as int]));
                lemma_lex_transitive(before[i], v@, before[k as int]);
                if j - 1 > k {
                    assert(lex_lt(before[k as int], before[j - 1]));
                    lemma_lex_transitive(before[i], before[k as int], before[j - 1]);
                }
            } else {
                assert(lex_lt(before[i - 1], before[j - 1]));
            }
        }
        assert forall|x: Seq<char>| #[trigger] after.contains(x) <==> (before.contains(x) || x == v@) by {
            if after.contains(x) {
                let i = choose|i: int| 0 <= i < after.len() && after[i] == x;
                if i < k {
                    assert(before[i] == x);
                } else if i > k {
                    assert(before[i - 1] == x);
                }
            }
            if before.contains(x) {
                let i = choose|i: int| 0 <= i < before.len() && before[i] == x;
                if i < k {
                    assert(after[i] == x);
                } else {
                    assert(after[i + 1] == x);
                }
            }
            if x == v@ {
                assert(after[k as int] == x);
            }
        }
    }
}

} // verus!
