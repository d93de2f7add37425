//! Numbers as the decimal text they travel in.

use vstd::prelude::*;
use crate::text::{is_space, no_space, chars_of, closed_at, expect, is_closer, is_digit, occurs_at, push_chars, scan_to_closer, slice_chars, string_of};

verus! {

/// An unsigned decimal: digits with at most one point, a digit at each end.
pub open spec fn is_decimal(t: Seq<char>) -> bool {
    &&& t.len() >= 1
    &&& is_digit(t[0])
    &&& is_digit(t.last())
    &&& forall|j: int| 0 <= j < t.len() ==> is_digit(#[trigger] t[j]) || t[j] == '.'
    &&& forall|j: int, k: int|
        #![trigger t[j], t[k]]
        0 <= j < k < t.len() && t[j] == '.' ==> t[k] != '.'
}

pub open spec fn is_unsigned(t: Seq<char>) -> bool {
    is_decimal(t) || t == seq!['i', 'n', 'f']
}

/// The texts a number may take: a decimal or `inf`, either with a leading
/// minus sign, or `NaN`.
pub open spec fn is_number(t: Seq<char>) -> bool {
    ||| is_unsigned(t)
    ||| (t.len() >= 1 && t[0] == '-' && is_unsigned(t.drop_first()))
    ||| t == seq!['N', 'a', 'N']
}

/// A real number as the decimal text it travels in, such as `256.0`, `-0.5`,
/// `inf` or `NaN`. The value is carried as written: nothing here rounds or
/// checks its range.
#[derive(Clone, Debug, PartialEq)]
pub struct Scalar {
    text: Vec<char>,
}

impl View for Scalar {
    type V = Seq<char>;

    closed spec fn view(&self) -> Seq<char> {
        self.text@
    }
}

impl Scalar {
    pub open spec fn wf(&self) -> bool {
        is_number(self@)
    }

    /// The number written as `s`, when `s` is a number text.
    pub fn parse(s: &str) -> (r: Option<Scalar>)
        ensures
            r is Some <==> is_number(s@),
            r matches Some(v) ==> v@ == s@,
    {
        let t = chars_of(s);
        if number_text(&t) {
            Some(Scalar { text: t })
        } else {
            None
        }
    }

    /// The text of the number.
    pub fn to_text(&self) -> (r: String)
        ensures
            r@ == self@,
    {
        string_of(&self.text)
    }

    /// Appends the text of the number.
    pub(crate) fn write(&self, out: &mut Vec<char>)
        ensures
            final(out)@ == old(out)@ + self@,
    {
        push_chars(out, &self.text);
    }
}

pub proof fn lemma_number_has_no_closer(t: Seq<char>)
    requires
        is_number(t),
    ensures
        forall|j: int| 0 <= j < t.len() ==> !is_closer(#[trigger] t[j]),
{
    assert forall|j: int| 0 <= j < t.len() implies !is_closer(#[trigger] t[j]) by {
        if is_unsigned(t) {
            if is_decimal(t) {
                assert(is_digit(t[j]) || t[j] == '.');
            }
        } else if t.len() >= 1 && t[0] == '-' && is_unsigned(t.drop_first()) {
            if j > 0 {
                let u = t.drop_first();
                assert(t[j] == u[j - 1]);
                if is_decimal(u) {
                    assert(is_digit(u[j - 1]) || u[j - 1] == '.');
                }
            }
        }
    }
}

pub proof fn lemma_number_no_space(t: Seq<char>)
    requires
        is_number(t),
    ensures
        no_space(t),
{
    assert forall|j: int| 0 <= j < t.len() implies !is_space(#[trigger] t[j]) by {
        if is_unsigned(t) {
            if is_decimal(t) {
                assert(is_digit(t[j]) || t[j] == '.');
            }
        } else if t.len() >= 1 && t[0] == '-' && is_unsigned(t.drop_first()) {
            if j > 0 {
                let u = t.drop_first();
                assert(t[j] == u[j - 1]);
                if is_decimal(u) {
                    assert(is_digit(u[j - 1]) || u[j - 1] == '.');
                }
            }
        }
    }
}

fn decimal_from(t: &Vec<char>, lo: usize) -> (r: bool)
    requires
        lo <= t@.len(),
    ensures
        r == is_decimal(t@.subrange(lo as int, t@.len() as int)),
{
    let ghost u = t@.subrange(lo as int, t@.len() as int);
    let n = t.len();
    if lo >= n {
        return false;
    }
    if !('0' <= t[lo] && t[lo] <= '9') || !('0' <= t[n - 1] && t[n - 1] <= '9') {
        return false;
    }
    let mut k = lo;
    let mut dot: Option<usize> = None;
    while k < n
        invariant
            lo <= k <= n,
            n == t@.len(),
            u == t@.subrange(lo as int, n as int),
            forall|j: int| lo <= j < k ==> is_digit(t@[j]) || t@[j] == '.',
            match dot {
                Some(d) => lo <= d < k && t@[d as int] == '.' && forall|j: int|
                    lo <= j < k && j != d ==> t@[j] != '.',
                None => forall|j: int| lo <= j < k ==> t@[j] != '.',
            },
        decreases n - k,
    {
        let c = t[k];
        if c == '.' {
            if let Some(d) = dot {
                assert(u[d - lo] == '.' && u[k - lo] == '.');
                return false;
            }
            dot = Some(k);
        } else if !('0' <= c && c <= '9') {
            assert(!(is_digit(u[k - lo]) || u[k - lo] == '.'));
            return false;
        }
        k = k + 1;
    }
    assert forall|j: int| 0 <= j < u.len() implies is_digit(#[trigger] u[j]) || u[j] == '.' by {
        assert(u[j] == t@[j + lo]);
    }
    assert forall|j: int, i: int| 0 <= j < i < u.len() && u[j] == '.' implies u[i] != '.' by {
        assert(u[j] == t@[j + lo] && u[i] == t@[i + lo]);
    }
    true
}

fn word_from(t: &Vec<char>, lo: usize, w: &str) -> (r: bool)
    requires
        lo <= t@.len(),
    ensures
        r == (t@.subrange(lo as int, t@.len() as int) == w@),
{
    let n = w.unicode_len();
    if t.len() - lo != n {
        return false;
    }
    match expect(t, lo, w) {
        Some(_) => true,
        None => false,
    }
}

/// Whether `t` is a number text.
fn number_text(t: &Vec<char>) -> (r: bool)
    ensures
        r == is_number(t@),
{
    proof {
        reveal_strlit("inf");
        reveal_strlit("NaN");
        assert("inf"@ =~= seq!['i', 'n', 'f']);
        assert("NaN"@ =~= seq!['N', 'a', 'N']);
        assert(t@.subrange(0, t@.len() as int) =~= t@);
    }
    if decimal_from(t, 0) || word_from(t, 0, "inf") || word_from(t, 0, "NaN") {
        return true;
    }
    if t.len() >= 1 && t[0] == '-' {
        assert(t@.subrange(1, t@.len() as int) =~= t@.drop_first());
        decimal_from(t, 1) || word_from(t, 1, "inf")
    } else {
        false
    }
}

/// Reads a number that starts at `i` and runs up to the next closer.
pub(crate) fn parse_scalar(s: &Vec<char>, i: usize) -> (r: Option<(Scalar, usize)>)
    requires
        i <= s@.len(),
    ensures
        r matches Some((v, e)) ==> v.wf() && i <= e <= s@.len(),
        forall|w: Scalar|
            w.wf() && #[trigger] occurs_at(s@, i as int, w@) && closed_at(s@, i + w@.len())
                ==> (r matches Some((v, e)) && v@ == w@ && e == i + w@.len()),
{
    let e = scan_to_closer(s, i);
    let t = slice_chars(s, i, e);
    let ok = number_text(&t);
    assert forall|w: Scalar|
        w.wf() && #[trigger] occurs_at(s@, i as int, w@) && closed_at(s@, i + w@.len()) implies
        e == i + w@.len() && t@ == w@ by {
        lemma_number_has_no_closer(w@);
        if e < i + w@.len() {
            assert(s@[e as int] == w@[e - i]);
        }
        if e > i + w@.len() {
            assert(!is_closer(s@[i + w@.len()]));
        }
    }
    if ok {
        Some((Scalar { text: t }, e))
    } else {
        None
    }
}

} // verus!
