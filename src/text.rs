//! Character-level helpers for reading and writing command texts.

use vstd::prelude::*;

verus! {

/// Characters that a decoder skips between the symbols of an encoded command.
pub open spec fn is_space(c: char) -> bool {
    c == ' ' || c == '\t' || c == '\n' || c == '\r'
}

/// The punctuation of an encoded command.
pub open spec fn is_punct(c: char) -> bool {
    c == '(' || c == ')' || c == ',' || c == ':' || c == '[' || c == ']'
}

/// Characters of names and numbers.
pub open spec fn is_word_char(c: char) -> bool {
    !is_space(c) && !is_punct(c)
}

/// Whitespace in `s` stands inside a name or a number: two characters of
/// names or numbers have only whitespace, and some of it, between them.
pub open spec fn splits_word(s: Seq<char>) -> bool {
    exists|i: int, j: int|
        0 <= i && i + 1 < j < s.len() && is_word_char(#[trigger] s[i]) && is_word_char(
            #[trigger] s[j],
        ) && forall|k: int| i < k < j ==> is_space(s[k])
}

/// Characters that close a number inside an encoded value.
pub open spec fn is_closer(c: char) -> bool {
    c == ',' || c == ')' || c == ']'
}

pub open spec fn is_digit(c: char) -> bool {
    '0' <= c && c <= '9'
}

/// `s` with every whitespace character removed.
pub open spec fn strip_spaces(s: Seq<char>) -> Seq<char>
    decreases s.len(),
{
    if s.len() == 0 {
        s
    } else if is_space(s.last()) {
        strip_spaces(s.drop_last())
    } else {
        strip_spaces(s.drop_last()).push(s.last())
    }
}

/// `s` holds no whitespace.
pub open spec fn no_space(s: Seq<char>) -> bool {
    forall|j: int| 0 <= j < s.len() ==> !is_space(#[trigger] s[j])
}

pub broadcast proof fn lemma_no_space_concat(a: Seq<char>, b: Seq<char>)
    requires
        no_space(a),
        no_space(b),
    ensures
        #[trigger] no_space(a + b),
{
    assert forall|j: int| 0 <= j < (a + b).len() implies !is_space(#[trigger] (a + b)[j]) by {
        if j < a.len() {
            assert((a + b)[j] == a[j]);
        } else {
            assert((a + b)[j] == b[j - a.len()]);
        }
    }
}

pub proof fn lemma_no_space_no_split(s: Seq<char>)
    requires
        no_space(s),
    ensures
        !splits_word(s),
{
    assert forall|i: int, j: int|
        0 <= i && i + 1 < j < s.len() && is_word_char(#[trigger] s[i]) && is_word_char(
            #[trigger] s[j],
        ) implies !(forall|k: int| i < k < j ==> is_space(s[k])) by {
        assert(!is_space(s[i + 1]));
    }
}

pub proof fn lemma_strip_no_space(s: Seq<char>)
    requires
        no_space(s),
    ensures
        strip_spaces(s) == s,
    decreases s.len(),
{
    if s.len() > 0 {
        lemma_strip_no_space(s.drop_last());
        assert(s.drop_last().push(s.last()) =~= s);
    }
}

/// The one-character text `c`.
pub open spec fn one(c: char) -> Seq<char> {
    seq![c]
}

/// `p` occurs in `s` starting at index `i`.
pub open spec fn occurs_at(s: Seq<char>, i: int, p: Seq<char>) -> bool {
    0 <= i && i + p.len() <= s.len() && s.subrange(i, i + p.len()) == p
}

/// Position `i` of `s` ends a number: the text ends there or a closer follows.
pub open spec fn closed_at(s: Seq<char>, i: int) -> bool {
    i == s.len() || (0 <= i < s.len() && is_closer(s[i]))
}

pub broadcast proof fn lemma_occurs_concat(s: Seq<char>, i: int, a: Seq<char>, b: Seq<char>)
    requires
        #[trigger] occurs_at(s, i, a + b),
    ensures
        occurs_at(s, i, a),
        occurs_at(s, i + a.len(), b),
{
    let whole = s.subrange(i, i + a.len() + b.len());
    assert(whole == a + b);
    assert forall|k: int| 0 <= k < a.len() implies #[trigger] s.subrange(i, i + a.len())[k] == a[k] by {
        assert(whole[k] == (a + b)[k]);
    }
    assert forall|k: int| 0 <= k < b.len() implies #[trigger] s.subrange(i + a.len(), i + a.len() + b.len())[k] == b[k] by {
        assert(whole[k + a.len()] == (a + b)[k + a.len()]);
    }
    assert(s.subrange(i, i + a.len()) =~= a);
    assert(s.subrange(i + a.len(), i + a.len() + b.len()) =~= b);
}

pub broadcast proof fn lemma_occurs_one(s: Seq<char>, i: int, c: char)
    ensures
        #[trigger] occurs_at(s, i, one(c)) <==> (0 <= i < s.len() && s[i] == c),
{
    if 0 <= i < s.len() && s[i] == c {
        assert(s.subrange(i, i + 1) =~= one(c));
    }
    if occurs_at(s, i, one(c)) {
        assert(s.subrange(i, i + 1)[0] == s[i]);
    }
}

pub proof fn lemma_occurs_first(s: Seq<char>, i: int, p: Seq<char>)
    requires
        occurs_at(s, i, p),
        p.len() >= 1,
    ensures
        s[i] == p[0],
{
    assert(s.subrange(i, i + p.len())[0] == s[i]);
}

pub proof fn lemma_occurs_pair(s: Seq<char>, i: int, a: Seq<char>, b: Seq<char>)
    requires
        occurs_at(s, i, a),
        occurs_at(s, i + a.len(), b),
    ensures
        occurs_at(s, i, a + b),
{
    assert forall|k: int| 0 <= k < (a + b).len() implies #[trigger] s.subrange(i, i + (a + b).len())[k]
        == (a + b)[k] by {
        if k < a.len() {
            assert(s.subrange(i, i + a.len())[k] == a[k]);
        } else {
            assert(s.subrange(i + a.len(), i + a.len() + b.len())[k - a.len()] == b[k - a.len()]);
        }
    }
    assert(s.subrange(i, i + (a + b).len()) =~= a + b);
}

pub proof fn lemma_occurs_trans(s: Seq<char>, i: int, p: Seq<char>, q: Seq<char>)
    requires
        occurs_at(s, i, p),
        occurs_at(p, 0, q),
    ensures
        occurs_at(s, i, q),
{
    assert forall|k: int| 0 <= k < q.len() implies #[trigger] s.subrange(i, i + q.len())[k] == q[k] by {
        assert(s.subrange(i, i + p.len())[k] == p[k]);
        assert(p.subrange(0, q.len() as int)[k] == q[k]);
    }
    assert(s.subrange(i, i + q.len()) =~= q);
}

pub proof fn lemma_occurs_whole(s: Seq<char>)
    ensures
        occurs_at(s, 0, s),
{
    assert(s.subrange(0, s.len() as int) =~= s);
}

/// The characters of `s`, in order.
///
/// Relies on `str::chars`, which yields the characters of the string slice.
#[verifier::external_body]
pub(crate) fn chars_of(s: &str) -> (r: Vec<char>)
    ensures
        r@ == s@,
{
    s.chars().collect()
}

/// The string made of the characters of `v`, in order.
///
/// Relies on `String::from_iter` over characters, which appends each one.
#[verifier::external_body]
pub(crate) fn string_of(v: &Vec<char>) -> (r: String)
    ensures
        r@ == v@,
{
    v.iter().collect()
}

/// Appends the characters of the string slice `lit`.
pub(crate) fn push_str(out: &mut Vec<char>, lit: &str)
    ensures
        final(out)@ == old(out)@ + lit@,
{
    let n = lit.unicode_len();
    let mut k: usize = 0;
    while k < n
        invariant
            n == lit@.len(),
            k <= n,
            out@ == old(out)@ + lit@.subrange(0, k as int),
        decreases n - k,
    {
        let c = lit.get_char(k);
        out.push(c);
        k = k + 1;
        assert(out@ =~= old(out)@ + lit@.subrange(0, k as int));
    }
    assert(lit@.subrange(0, n as int) =~= lit@);
}

/// Appends the characters of `src`.
pub(crate) fn push_chars(out: &mut Vec<char>, src: &Vec<char>)
    ensures
        final(out)@ == old(out)@ + src@,
{
    let mut k: usize = 0;
    while k < src.len()
        invariant
            k <= src@.len(),
            out@ == old(out)@ + src@.subrange(0, k as int),
        decreases src@.len() - k,
    {
        out.push(src[k]);
        k = k + 1;
        assert(out@ =~= old(out)@ + src@.subrange(0, k as int));
    }
    assert(src@.subrange(0, src@.len() as int) =~= src@);
}

/// Where `c` stands in `s` at `i`, the index just after it.
pub(crate) fn expect_char(s: &Vec<char>, i: usize, c: char) -> (r: Option<usize>)
    ensures
        r is Some <==> occurs_at(s@, i as int, one(c)),
        r matches Some(e) ==> e == i + 1 && e <= s@.len(),
{
    proof {
        lemma_occurs_one(s@, i as int, c);
    }
    if i < s.len() && s[i] == c {
        Some(i + 1)
    } else {
        None
    }
}

/// Where `lit` occurs in `s` at `i`, the index just after it.
pub(crate) fn expect(s: &Vec<char>, i: usize, lit: &str) -> (r: Option<usize>)
    ensures
        r is Some <==> occurs_at(s@, i as int, lit@),
        r matches Some(e) ==> e == i + lit@.len() && e <= s@.len(),
{
    let n = lit.unicode_len();
    if n > s.len() || i > s.len() - n {
        return None;
    }
    let mut k: usize = 0;
    while k < n
        invariant
            n == lit@.len(),
            i + n <= s.len(),
            k <= n,
            forall|j: int| 0 <= j < k ==> s@[i + j] == lit@[j],
        decreases n - k,
    {
        assert(i + k < s@.len());
        if s[i + k] != lit.get_char(k) {
            assert(s@.subrange(i as int, i + n)[k as int] != lit@[k as int]);
            return None;
        }
        k = k + 1;
    }
    assert(s@.subrange(i as int, i + n) =~= lit@);
    Some(i + n)
}

/// The first index at or after `i` that holds a closer, or the length of `s`.
pub(crate) fn scan_to_closer(s: &Vec<char>, i: usize) -> (r: usize)
    requires
        i <= s@.len(),
    ensures
        i <= r <= s@.len(),
        closed_at(s@, r as int),
        forall|j: int| i <= j < r ==> !is_closer(s@[j]),
{
    let mut k = i;
    while k < s.len() && !(s[k] == ',' || s[k] == ')' || s[k] == ']')
        invariant
            i <= k <= s@.len(),
            forall|j: int| i <= j < k ==> !is_closer(s@[j]),
        decreases s@.len() - k,
    {
        k = k + 1;
    }
    k
}

/// The first index at or after `i` that holds `c`, or the length of `s`.
pub(crate) fn scan_to(s: &Vec<char>, i: usize, c: char) -> (r: usize)
    requires
        i <= s@.len(),
    ensures
        i <= r <= s@.len(),
        r < s@.len() ==> s@[r as int] == c,
        forall|j: int| i <= j < r ==> s@[j] != c,
{
    let mut k = i;
    while k < s.len() && s[k] != c
        invariant
            i <= k <= s@.len(),
            forall|j: int| i <= j < k ==> s@[j] != c,
        decreases s@.len() - k,
    {
        k = k + 1;
    }
    k
}

/// Whether `v` holds exactly the characters of `lit`.
pub(crate) fn same_text(v: &Vec<char>, lit: &str) -> (r: bool)
    ensures
        r == (v@ == lit@),
{
    if v.len() != lit.unicode_len() {
        return false;
    }
    match expect(v, 0, lit) {
        Some(_) => {
            assert(v@.subrange(0, v@.len() as int) =~= v@);
            true
        },
        None => {
            assert(v@.subrange(0, v@.len() as int) =~= v@);
            false
        },
    }
}

/// The characters of `s` from `lo` up to `hi`.
pub(crate) fn slice_chars(s: &Vec<char>, lo: usize, hi: usize) -> (r: Vec<char>)
    requires
        lo <= hi <= s@.len(),
    ensures
        r@ == s@.subrange(lo as int, hi as int),
{
    let mut r: Vec<char> = Vec::new();
    let mut k = lo;
    while k < hi
        invariant
            lo <= k <= hi,
            hi <= s@.len(),
            r@ == s@.subrange(lo as int, k as int),
        decreases hi - k,
    {
        r.push(s[k]);
        k = k + 1;
        assert(r@ =~= s@.subrange(lo as int, k as int));
    }
    r
}

/// Whether the two character vectors hold the same characters.
pub(crate) fn same_chars(a: &Vec<char>, b: &Vec<char>) -> (r: bool)
    ensures
        r == (a@ == b@),
{
    if a.len() != b.len() {
        return false;
    }
    let mut k: usize = 0;
    while k < a.len()
        invariant
            a@.len() == b@.len(),
            k <= a@.len(),
            forall|j: int| 0 <= j < k ==> a@[j] == b@[j],
        decreases a@.len() - k,
    {
        if a[k] != b[k] {
            return false;
        }
        k = k + 1;
    }
    assert(a@ =~= b@);
    true
}

/// Whether whitespace in `s` stands inside a name or a number.
pub(crate) fn split_word(s: &Vec<char>) -> (r: bool)
    ensures
        r == splits_word(s@),
{
    let mut prev: Option<usize> = None;
    let mut k: usize = 0;
    while k < s.len()
        invariant
            k <= s@.len(),
            match prev {
                Some(p) => p < k && !is_space(s@[p as int]) && forall|m: int|
                    p < m < k ==> is_space(s@[m]),
                None => forall|m: int| 0 <= m < k ==> is_space(s@[m]),
            },
            forall|i: int, j: int|
                0 <= i && i + 1 < j < k && is_word_char(#[trigger] s@[i]) && is_word_char(
                    #[trigger] s@[j],
                ) ==> !(forall|m: int| i < m < j ==> is_space(s@[m])),
        decreases s@.len() - k,
    {
        let c = s[k];
        let space = c == ' ' || c == '\t' || c == '\n' || c == '\r';
        if !space {
            let word = !(c == '(' || c == ')' || c == ',' || c == ':' || c == '[' || c == ']');
            if let Some(p) = prev {
                let d = s[p];
                let prev_word = !(d == '(' || d == ')' || d == ',' || d == ':' || d == '[' || d
                    == ']');
                if word && prev_word && p + 1 < k {
                    assert(is_word_char(s@[p as int]) && is_word_char(s@[k as int]));
                    return true;
                }
            }
            proof {
                assert forall|i: int, j: int|
                    0 <= i && i + 1 < j < k + 1 && is_word_char(#[trigger] s@[i]) && is_word_char(
                        #[trigger] s@[j],
                    ) implies !(forall|m: int| i < m < j ==> is_space(s@[m])) by {
                    if j == k && (forall|m: int| i < m < j ==> is_space(s@[m])) {
                        match prev {
                            Some(p) => {
                                if p > i {
                                    assert(is_space(s@[p as int]));
                                }
                                if p < i {
                                    assert(is_space(s@[i]));
                                }
                            },
                            None => {
                                assert(is_space(s@[i]));
                            },
                        }
                    }
                }
            }
            prev = Some(k);
        } else {
            proof {
                assert forall|i: int, j: int|
                    0 <= i && i + 1 < j < k + 1 && is_word_char(#[trigger] s@[i]) && is_word_char(
                        #[trigger] s@[j],
                    ) implies !(forall|m: int| i < m < j ==> is_space(s@[m])) by {
                    if j == k {
                        assert(!is_word_char(s@[k as int]));
                    }
                }
            }
        }
        k = k + 1;
    }
    false
}

/// `s` without its whitespace.
pub(crate) fn remove_spaces(s: &Vec<char>) -> (r: Vec<char>)
    ensures
        r@ == strip_spaces(s@),
{
    let mut r: Vec<char> = Vec::new();
    let mut k: usize = 0;
    while k < s.len()
        invariant
            k <= s@.len(),
            r@ == strip_spaces(s@.subrange(0, k as int)),
        decreases s@.len() - k,
    {
        let c = s[k];
        assert(s@.subrange(0, k + 1).drop_last() =~= s@.subrange(0, k as int));
        if !(c == ' ' || c == '\t' || c == '\n' || c == '\r') {
            r.push(c);
        }
        k = k + 1;
    }
    assert(s@.subrange(0, s@.len() as int) =~= s@);
    r
}

} // verus!

verus! {

pub open spec fn digit_char(d: nat) -> char {
    if d == 0 {
        '0'
    } else if d == 1 {
        '1'
    } else if d == 2 {
        '2'
    } else if d == 3 {
        '3'
    } else if d == 4 {
        '4'
    } else if d == 5 {
        '5'
    } else if d == 6 {
        '6'
    } else if d == 7 {
        '7'
    } else if d == 8 {
        '8'
    } else {
        '9'
    }
}

pub open spec fn digit_value(c: char) -> nat {
    (c as u32 - '0' as u32) as nat
}

/// The decimal digits of `n`, without leading zeros.
pub open spec fn dec(n: nat) -> Seq<char>
    decreases n,
{
    if n < 10 {
        one(digit_char(n))
    } else {
        dec(n / 10) + one(digit_char(n % 10))
    }
}

/// The value of a string of decimal digits.
pub open spec fn digits_value(t: Seq<char>) -> nat
    decreases t.len(),
{
    if t.len() == 0 {
        0
    } else {
        digits_value(t.drop_last()) * 10 + digit_value(t.last())
    }
}

pub broadcast proof fn lemma_dec_digits(n: nat)
    ensures
        #![trigger dec(n)]
        dec(n).len() >= 1,
        forall|j: int| 0 <= j < dec(n).len() ==> is_digit(#[trigger] dec(n)[j]),
        digits_value(dec(n)) == n,
    decreases n,
{
    if n >= 10 {
        lemma_dec_digits(n / 10);
        let a = dec(n / 10);
        let d = digit_char(n % 10);
        assert(dec(n) == a + one(d));
        assert((a + one(d)).drop_last() =~= a);
        assert((a + one(d)).last() == d);
        assert(forall|j: int| 0 <= j < a.len() ==> (a + one(d))[j] == a[j]);
        assert(digit_value(d) == n % 10);
        assert(digits_value(a + one(d)) == digits_value(a) * 10 + digit_value(d));
        assert(n == (n / 10) * 10 + n % 10);
        assert(digits_value(dec(n)) == n);
    } else {
        assert(dec(n) == one(digit_char(n)));
        let d = digit_char(n);
        assert(one(d).drop_last() =~= Seq::<char>::empty());
        assert(digits_value(one(d)) == digits_value(Seq::<char>::empty()) * 10 + digit_value(d));
        assert(digit_value(d) == n);
    }
}

pub proof fn lemma_dec_no_space(n: nat)
    ensures
        no_space(dec(n)),
{
    lemma_dec_digits(n);
    assert forall|j: int| 0 <= j < dec(n).len() implies !is_space(#[trigger] dec(n)[j]) by {
        assert(is_digit(dec(n)[j]));
    }
}

pub proof fn lemma_digits_prefix(t: Seq<char>, m: int)
    requires
        0 <= m <= t.len(),
    ensures
        digits_value(t.subrange(0, m)) <= digits_value(t),
    decreases t.len(),
{
    if m < t.len() {
        let u = t.drop_last();
        lemma_digits_prefix(u, m);
        assert(u.subrange(0, m) =~= t.subrange(0, m));
    } else {
        assert(t.subrange(0, m) =~= t);
    }
}

fn digit_of(d: u32) -> (c: char)
    requires
        d < 10,
    ensures
        c == digit_char(d as nat),
{
    if d == 0 {
        '0'
    } else if d == 1 {
        '1'
    } else if d == 2 {
        '2'
    } else if d == 3 {
        '3'
    } else if d == 4 {
        '4'
    } else if d == 5 {
        '5'
    } else if d == 6 {
        '6'
    } else if d == 7 {
        '7'
    } else if d == 8 {
        '8'
    } else {
        '9'
    }
}

/// Appends the decimal digits of `n`.
pub(crate) fn write_count(n: u32, out: &mut Vec<char>)
    ensures
        final(out)@ == old(out)@ + dec(n as nat),
    decreases n,
{
    if n >= 10 {
        write_count(n / 10, out);
    }
    out.push(digit_of(n % 10));
    proof {
        if n >= 10 {
            assert(final(out)@ =~= old(out)@ + dec(n as nat));
        } else {
            assert(final(out)@ =~= old(out)@ + dec(n as nat));
        }
    }
}

/// Reads a count written in decimal that starts at `i` and runs up to the next closer.
pub(crate) fn parse_count(s: &Vec<char>, i: usize) -> (r: Option<(u32, usize)>)
    requires
        i <= s@.len(),
    ensures
        r matches Some((v, e)) ==> i <= e <= s@.len(),
        forall|n: u32|
            #[trigger] occurs_at(s@, i as int, dec(n as nat)) && closed_at(s@, i + dec(n as nat).len())
                ==> (r matches Some((v, e)) && v == n && e == i + dec(n as nat).len()),
{
    let e = scan_to_closer(s, i);
    let ghost t = s@.subrange(i as int, e as int);
    proof {
        assert forall|n: u32|
            #[trigger] occurs_at(s@, i as int, dec(n as nat)) && closed_at(s@, i + dec(n as nat).len())
            implies e == i + dec(n as nat).len() && t == dec(n as nat) by {
            let w = dec(n as nat);
            lemma_dec_digits(n as nat);
            if e < i + w.len() {
                assert(s@[e as int] == w[e - i]);
            }
            if e > i + w.len() {
                assert(!is_closer(s@[i + w.len()]));
            }
        }
    }
    if e == i {
        return None;
    }
    let mut acc: u64 = 0;
    let mut k = i;
    while k < e
        invariant
            i <= k <= e <= s@.len(),
            t == s@.subrange(i as int, e as int),
            acc <= 0xffff_ffff,
            forall|j: int| i <= j < k ==> is_digit(s@[j]),
            acc == digits_value(t.subrange(0, k - i)),
            forall|n: u32|
                #[trigger] occurs_at(s@, i as int, dec(n as nat)) && closed_at(s@, i + dec(n as nat).len())
                ==> e == i + dec(n as nat).len() && t == dec(n as nat),
        decreases e - k,
    {
        let c = s[k];
        if !('0' <= c && c <= '9') {
            assert(t[k - i] == c);
            proof {
                assert forall|n: u32|
                    #[trigger] occurs_at(s@, i as int, dec(n as nat)) && closed_at(
                        s@,
                        i + dec(n as nat).len(),
                    ) implies false by {
                    lemma_dec_digits(n as nat);
                    assert(is_digit(dec(n as nat)[k - i]));
                }
            }
            return None;
        }
        let d = (c as u32 - '0' as u32) as u64;
        assert(t.subrange(0, k + 1 - i).drop_last() =~= t.subrange(0, k - i));
        proof {
            lemma_digits_prefix(t, k + 1 - i);
        }
        acc = acc * 10 + d;
        assert(acc == digits_value(t.subrange(0, k + 1 - i)));
        if acc > 0xffff_ffff {
            proof {
                assert forall|n: u32|
                    #[trigger] occurs_at(s@, i as int, dec(n as nat)) && closed_at(
                        s@,
                        i + dec(n as nat).len(),
                    ) implies false by {
                    lemma_dec_digits(n as nat);
                    assert(digits_value(t) == n);
                }
            }
            return None;
        }
        k = k + 1;
    }
    assert(t.subrange(0, e - i) =~= t);
    proof {
        assert forall|n: u32|
            #[trigger] occurs_at(s@, i as int, dec(n as nat)) && closed_at(s@, i + dec(n as nat).len())
            implies acc == n by {
            lemma_dec_digits(n as nat);
        }
    }
    Some((acc as u32, e))
}

} // verus!
