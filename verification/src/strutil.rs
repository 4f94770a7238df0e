//! Small verified string helpers shared across the library.

use vstd::prelude::*;
use vstd::string::*;

verus! {

/// True exactly when the two strings read the same characters.
pub fn str_eq(a: &str, b: &str) -> (r: bool)
    ensures
        r == (a@ == b@),
{
    let sa: String = a.to_owned();
    let sb: String = b.to_owned();
    sa == sb
}

/// Joins two strings.
pub fn concat2(a: &str, b: &str) -> (r: String)
    ensures
        r@ == a@ + b@,
{
    let s: String = a.to_owned();
    s.concat(b)
}

/// Joins three strings.
pub fn concat3(a: &str, b: &str, c: &str) -> (r: String)
    ensures
        r@ == a@ + b@ + c@,
{
    let s = concat2(a, b);
    let r = s.concat(c);
    proof {
        assert(r@ =~= a@ + b@ + c@);
    }
    r
}

/// Joins two path components with a separator.
pub open spec fn spec_join_path(dir: Seq<char>, sep: char, name: Seq<char>) -> Seq<char> {
    dir + seq![sep] + name
}

/// Joins a directory and an entry name with `/`.
pub fn join_path(dir: &str, name: &str) -> (r: String)
    ensures
        r@ == spec_join_path(dir@, '/', name@),
{
    let r = concat3(dir, "/", name);
    proof {
        reveal_strlit("/");
        assert(r@ =~= spec_join_path(dir@, '/', name@));
    }
    r
}

/// The character for one decimal digit.
pub open spec fn digit_char(d: nat) -> char {
    if d == 0 {
        '0'
    } else if d == 1 {
        '1'
    } else if d == 2 {
        '2'
    } else if d == 3 {
        '3'
    } else if d == 4 {
        '4'
    } else if d == 5 {
        '5'
    } else if d == 6 {
        '6'
    } else if d == 7 {
        '7'
    } else if d == 8 {
        '8'
    } else {
        '9'
    }
}

/// The decimal spelling of a natural number, without sign or padding.
pub open spec fn spec_dec(n: nat) -> Seq<char>
    decreases n,
{
    if n < 10 {
        seq![digit_char(n)]
    } else {
        spec_dec(n / 10) + seq![digit_char(n % 10)]
    }
}

/// The string for one decimal digit.
pub fn digit_str(d: u64) -> (r: &'static str)
    requires
        d < 10,
    ensures
        r@ == seq![digit_char(d as nat)],
{
    let r = if d == 0 {
        "0"
    } else if d == 1 {
        "1"
    } else if d == 2 {
        "2"
    } else if d == 3 {
        "3"
    } else if d == 4 {
        "4"
    } else if d == 5 {
        "5"
    } else if d == 6 {
        "6"
    } else if d == 7 {
        "7"
    } else if d == 8 {
        "8"
    } else {
        "9"
    };
    proof {
        reveal_strlit("0");
        reveal_strlit("1");
        reveal_strlit("2");
        reveal_strlit("3");
        reveal_strlit("4");
        reveal_strlit("5");
        reveal_strlit("6");
        reveal_strlit("7");
        reveal_strlit("8");
        reveal_strlit("9");
        assert(r@ =~= seq![digit_char(d as nat)]);
    }
    r
}

/// Renders a number in decimal.
pub fn u64_to_dec(n: u64) -> (r: String)
    ensures
        r@ == spec_dec(n as nat),
    decreases n,
{
    if n < 10 {
        digit_str(n).to_owned()
    } else {
        let prefix = u64_to_dec(n / 10);
        let r = prefix.concat(digit_str(n % 10));
        proof {
            assert(r@ =~= spec_dec(n as nat));
        }
        r
    }
}

/// Two distinct digits are spelled with two distinct characters.
proof fn lemma_digit_char_injective(a: nat, b: nat)
    requires
        a < 10,
        b < 10,
        digit_char(a) == digit_char(b),
    ensures
        a == b,
{
}

/// A decimal spelling is never empty.
proof fn lemma_dec_len(n: nat)
    ensures
        spec_dec(n).len() >= 1,
        spec_dec(n).last() == digit_char(n % 10),
        n < 10 ==> spec_dec(n).len() == 1,
        n >= 10 ==> spec_dec(n).drop_last() == spec_dec(n / 10),
    decreases n,
{
    if n < 10 {
        assert(n % 10 == n);
    } else {
        lemma_dec_len(n / 10);
        assert(spec_dec(n).drop_last() =~= spec_dec(n / 10));
    }
}

/// Distinct numbers have distinct decimal spellings.
pub proof fn lemma_dec_injective(a: nat, b: nat)
    requires
        spec_dec(a) == spec_dec(b),
    ensures
        a == b,
    decreases a,
{
    lemma_dec_len(a);
    lemma_dec_len(b);
    lemma_digit_char_injective(a % 10, b % 10);
    if a < 10 && b < 10 {
        assert(a % 10 == a && b % 10 == b);
    } else if a >= 10 && b >= 10 {
        lemma_dec_injective(a / 10, b / 10);
        assert(a == 10 * (a / 10) + a % 10);
        assert(b == 10 * (b / 10) + b % 10);
    } else if a < 10 {
        assert(spec_dec(b).len() == spec_dec(b / 10).len() + 1);
    } else {
        assert(spec_dec(a).len() == spec_dec(a / 10).len() + 1);
    }
}

/// Lexicographic order on character sequences, by code point.
pub open spec fn lex_leq(a: Seq<char>, b: Seq<char>) -> bool
    decreases a.len(),
{
    if a.len() == 0 {
        true
    } else if b.len() == 0 {
        false
    } else if (a[0] as u32) < (b[0] as u32) {
        true
    } else if (a[0] as u32) > (b[0] as u32) {
        false
    } else {
        lex_leq(a.skip(1), b.skip(1))
    }
}

/// The order is reflexive.
pub proof fn lemma_lex_refl(a: Seq<char>)
    ensures
        lex_leq(a, a),
    decreases a.len(),
{
    if a.len() > 0 {
        lemma_lex_refl(a.skip(1));
    }
}

/// The order is total.
pub proof fn lemma_lex_total(a: Seq<char>, b: Seq<char>)
    ensures
        lex_leq(a, b) || lex_leq(b, a),
    decreases a.len(),
{
    if a.len() == 0 {
    } else if b.len() == 0 {
    } else if (a[0] as u32) < (b[0] as u32) {
    } else if (a[0] as u32) > (b[0] as u32) {
    } else {
        lemma_lex_total(a.skip(1), b.skip(1));
    }
}

/// The order is transitive.
pub proof fn lemma_lex_trans(a: Seq<char>, b: Seq<char>, c: Seq<char>)
    requires
        lex_leq(a, b),
        lex_leq(b, c),
    ensures
        lex_leq(a, c),
    decreases a.len(),
{
    if a.len() == 0 {
    } else if b.len() == 0 {
    } else if c.len() == 0 {
    } else if (a[0] as u32) == (b[0] as u32) && (b[0] as u32) == (c[0] as u32) {
        lemma_lex_trans(a.skip(1), b.skip(1), c.skip(1));
    }
}

/// Compares two strings in lexicographic order by code point.
pub fn lex_le(a: &str, b: &str) -> (r: bool)
    ensures
        r == lex_leq(a@, b@),
{
    let na = a.unicode_len();
    let nb = b.unicode_len();
    let mut i: usize = 0;
    proof {
        assert(a@.skip(0) =~= a@);
        assert(b@.skip(0) =~= b@);
    }
    loop
        invariant
            i <= na,
            i <= nb,
            na == a@.len(),
            nb == b@.len(),
            lex_leq(a@, b@) == lex_leq(a@.skip(i as int), b@.skip(i as int)),
        decreases na - i,
    {
        if i >= na {
            return true;
        }
        if i >= nb {
            return false;
        }
        let ca = a.get_char(i);
        let cb = b.get_char(i);
        let ua = ca as u32;
        let ub = cb as u32;
        if ua < ub {
            return true;
        }
        if ua > ub {
            return false;
        }
        proof {
            assert(a@.skip(i as int).skip(1) =~= a@.skip(i as int + 1));
            assert(b@.skip(i as int).skip(1) =~= b@.skip(i as int + 1));
        }
        i = i + 1;
    }
}

/// A sequence of names in non-decreasing lexicographic order.
pub open spec fn lex_sorted(s: Seq<Seq<char>>) -> bool {
    forall|i: int, j: int| 0 <= i < j < s.len() ==> lex_leq(s[i], s[j])
}

/// The index of a lexicographically smallest element.
fn lex_min_index(v: &Vec<String>) -> (mi: usize)
    requires
        v.len() > 0,
    ensures
        mi < v.len(),
        forall|j: int| 0 <= j < v.len() ==> lex_leq(v.deep_view()[mi as int], v.deep_view()[j]),
{
    let mut mi: usize = 0;
    let mut i: usize = 1;
    proof {
        lemma_lex_refl(v.deep_view()[0]);
    }
    while i < v.len()
        invariant
            mi < i <= v.len(),
            forall|j: int| 0 <= j < i ==> lex_leq(v.deep_view()[mi as int], v.deep_view()[j]),
        decreases v.len() - i,
    {
        if lex_le(v[i].as_str(), v[mi].as_str()) {
            proof {
                assert forall|j: int| 0 <= j < i implies lex_leq(
                    v.deep_view()[i as int],
                    v.deep_view()[j],
                ) by {
                    lemma_lex_trans(v.deep_view()[i as int], v.deep_view()[mi as int], v.deep_view()[j]);
                }
                lemma_lex_refl(v.deep_view()[i as int]);
            }
            mi = i;
        } else {
            proof {
                lemma_lex_total(v.deep_view()[i as int], v.deep_view()[mi as int]);
            }
        }
        i = i + 1;
    }
    mi
}

/// Sorts names in lexicographic order; the result is a permutation of
/// the input.
pub fn sort_lex(v: Vec<String>) -> (r: Vec<String>)
    ensures
        lex_sorted(r.deep_view()),
        r.deep_view().to_multiset() == v.deep_view().to_multiset(),
{
    let ghost orig = v.deep_view();
    let mut rest = v;
    let mut out: Vec<String> = Vec::new();
    proof {
        broadcast use vstd::multiset::group_multiset_axioms;

        let e = out.deep_view();
        assert(e =~= Seq::<Seq<char>>::empty());
        assert forall|x: Seq<char>| e.to_multiset().count(x) == 0 by {
            vstd::seq_lib::to_multiset_contains(e, x);
            assert(!e.contains(x));
        }
        assert(e.to_multiset().add(rest.deep_view().to_multiset()) =~= orig.to_multiset());
    }
    while rest.len() > 0
        invariant
            lex_sorted(out.deep_view()),
            out.deep_view().to_multiset().add(rest.deep_view().to_multiset()) =~= orig.to_multiset(),
            forall|i: int, j: int|
                0 <= i < out.len() && 0 <= j < rest.len() ==> lex_leq(
                    out.deep_view()[i],
                    rest.deep_view()[j],
                ),
        decreases rest.len(),
    {
        let mi = lex_min_index(&rest);
        let ghost old_out = out.deep_view();
        let ghost old_rest = rest.deep_view();
        let ghost picked = rest.deep_view()[mi as int];
        let s = rest.remove(mi);
        out.push(s);
        proof {
            assert(s.deep_view() == picked);
            assert(out.deep_view() =~= old_out.push(picked));
            assert(rest.deep_view() =~= old_rest.remove(mi as int));
            vstd::seq_lib::to_multiset_build(old_out, picked);
            vstd::seq_lib::to_multiset_remove(old_rest, mi as int);
            vstd::seq_lib::to_multiset_contains(old_rest, picked);
            assert(old_rest.contains(picked)) by {
                assert(old_rest[mi as int] == picked);
            }
            assert(old_rest.to_multiset().count(picked) > 0);
            assert(out.deep_view().to_multiset().add(rest.deep_view().to_multiset())
                =~= orig.to_multiset()) by {
                assert forall|x: Seq<char>|
                    out.deep_view().to_multiset().add(rest.deep_view().to_multiset()).count(x)
                        == orig.to_multiset().count(x) by {
                    assert(old_out.to_multiset().add(old_rest.to_multiset()).count(x)
                        == orig.to_multiset().count(x));
                }
            }
            assert forall|i: int, j: int|
                0 <= i < out.deep_view().len() && 0 <= j < rest.deep_view().len() implies lex_leq(
                out.deep_view()[i],
                rest.deep_view()[j],
            ) by {
                let jj: int = if j < mi { j } else { j + 1 };
                assert(rest.deep_view()[j] == old_rest[jj]);
                if i < old_out.len() {
                    assert(lex_leq(old_out[i], old_rest[jj]));
                } else {
                    assert(out.deep_view()[i] == picked);
                    assert(lex_leq(old_rest[mi as int], old_rest[jj]));
                }
            }
            assert forall|i: int, j: int|
                0 <= i < j < out.deep_view().len() implies lex_leq(
                out.deep_view()[i],
                out.deep_view()[j],
            ) by {
                if j == out.deep_view().len() - 1 {
                    assert(out.deep_view()[j] == picked);
                    assert(lex_leq(old_out[i], old_rest[mi as int]));
                } else {
                    assert(lex_leq(old_out[i], old_out[j]));
                }
            }
            assert(lex_sorted(out.deep_view()));
        }
    }
    proof {
        broadcast use vstd::multiset::group_multiset_axioms;

        let rr = rest.deep_view();
        assert(rr =~= Seq::<Seq<char>>::empty());
        assert forall|x: Seq<char>| rr.to_multiset().count(x) == 0 by {
            vstd::seq_lib::to_multiset_contains(rr, x);
            assert(!rr.contains(x));
        }
        assert(out.deep_view().to_multiset() =~= orig.to_multiset());
    }
    out
}

/// A name of a waveform file: long enough to have a stem, with the
/// `.wav` extension.
pub open spec fn is_wav_name(s: Seq<char>) -> bool {
    s.len() > 4 && s.subrange(s.len() - 4, s.len() as int) == ".wav"@
}

/// Recognizes waveform file names (see [`is_wav_name`]).
pub fn has_wav_ext(name: &str) -> (r: bool)
    ensures
        r == is_wav_name(name@),
{
    let n = name.unicode_len();
    if n > 4 {
        str_eq(name.substring_char(n - 4, n), ".wav")
    } else {
        false
    }
}

/// Appending to a common prefix keeps strings distinct exactly when the
/// appended parts are distinct.
pub proof fn lemma_concat_cancel_left(p: Seq<char>, s1: Seq<char>, s2: Seq<char>)
    requires
        p + s1 == p + s2,
    ensures
        s1 == s2,
{
    assert(s1 =~= (p + s1).skip(p.len() as int));
    assert(s2 =~= (p + s2).skip(p.len() as int));
}

} // verus!
