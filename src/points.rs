//! Lists of points, written `[p0,p1,...]`.

use vstd::prelude::*;
use crate::color::{lemma_color_no_space, parse_color, Color};
use crate::geometry::{lemma_vec2_no_space, lemma_vec3_no_space, parse_vec2, parse_vec3, Vec2, Vec3};
use crate::text::{
    expect_char, lemma_no_space_concat, lemma_occurs_concat, lemma_occurs_first, lemma_occurs_one,
    no_space, occurs_at, one,
};

verus! {

broadcast use lemma_occurs_concat, lemma_occurs_one, lemma_no_space_concat;

/// `(point,color)`
#[verifier::opaque]
pub open spec fn colored_point2_enc(e: (Vec2, Color)) -> Seq<char> {
    one('(') + e.0.enc() + one(',') + e.1.enc() + one(')')
}

fn write_colored_point2(e: &(Vec2, Color), out: &mut Vec<char>)
    ensures
        final(out)@ == old(out)@ + colored_point2_enc(*e),
{
    reveal(colored_point2_enc);
    out.push('(');
    e.0.write(out);
    out.push(',');
    e.1.write(out);
    out.push(')');
    proof {
        assert(final(out)@ =~= old(out)@ + colored_point2_enc(*e));
    }
}

fn parse_colored_point2(s: &Vec<char>, i: usize) -> (r: Option<((Vec2, Color), usize)>)
    requires
        i <= s@.len(),
    ensures
        r matches Some((v, e)) ==> v.0.wf() && v.1.wf() && i <= e <= s@.len(),
        forall|w: (Vec2, Color)|
            w.0.wf() && w.1.wf() && #[trigger] occurs_at(s@, i as int, colored_point2_enc(w)) ==> (
            r matches Some((v, e)) && colored_point2_enc(v) == colored_point2_enc(w) && v.0@ == w.0@
                && v.1@ == w.1@ && e == i
                + colored_point2_enc(w).len()),
{
    reveal(colored_point2_enc);
    let i = expect_char(s, i, '(')?;
    let (p, i) = parse_vec2(s, i)?;
    let i = expect_char(s, i, ',')?;
    let (c, i) = parse_color(s, i)?;
    let i = expect_char(s, i, ')')?;
    Some(((p, c), i))
}

proof fn lemma_colored_point2_no_space(e: (Vec2, Color))
    requires
        e.0.wf() && e.1.wf(),
    ensures
        no_space(colored_point2_enc(e)),
{
    reveal(colored_point2_enc);
    lemma_vec2_no_space(e.0);
    lemma_color_no_space(e.1);
}

proof fn lemma_colored_point2_first(e: (Vec2, Color))
    ensures
        colored_point2_enc(e).len() >= 1,
        colored_point2_enc(e)[0] == '(',
{
    reveal(colored_point2_enc);
}

/// `(point,color)`
#[verifier::opaque]
pub open spec fn colored_point3_enc(e: (Vec3, Color)) -> Seq<char> {
    one('(') + e.0.enc() + one(',') + e.1.enc() + one(')')
}

fn write_colored_point3(e: &(Vec3, Color), out: &mut Vec<char>)
    ensures
        final(out)@ == old(out)@ + colored_point3_enc(*e),
{
    reveal(colored_point3_enc);
    out.push('(');
    e.0.write(out);
    out.push(',');
    e.1.write(out);
    out.push(')');
    proof {
        assert(final(out)@ =~= old(out)@ + colored_point3_enc(*e));
    }
}

fn parse_colored_point3(s: &Vec<char>, i: usize) -> (r: Option<((Vec3, Color), usize)>)
    requires
        i <= s@.len(),
    ensures
        r matches Some((v, e)) ==> v.0.wf() && v.1.wf() && i <= e <= s@.len(),
        forall|w: (Vec3, Color)|
            w.0.wf() && w.1.wf() && #[trigger] occurs_at(s@, i as int, colored_point3_enc(w)) ==> (
            r matches Some((v, e)) && colored_point3_enc(v) == colored_point3_enc(w) && v.0@ == w.0@
                && v.1@ == w.1@ && e == i
                + colored_point3_enc(w).len()),
{
    reveal(colored_point3_enc);
    let i = expect_char(s, i, '(')?;
    let (p, i) = parse_vec3(s, i)?;
    let i = expect_char(s, i, ',')?;
    let (c, i) = parse_color(s, i)?;
    let i = expect_char(s, i, ')')?;
    Some(((p, c), i))
}

proof fn lemma_colored_point3_no_space(e: (Vec3, Color))
    requires
        e.0.wf() && e.1.wf(),
    ensures
        no_space(colored_point3_enc(e)),
{
    reveal(colored_point3_enc);
    lemma_vec3_no_space(e.0);
    lemma_color_no_space(e.1);
}

proof fn lemma_colored_point3_first(e: (Vec3, Color))
    ensures
        colored_point3_enc(e).len() >= 1,
        colored_point3_enc(e)[0] == '(',
{
    reveal(colored_point3_enc);
}

/// The two lists hold items with the same views, in the same order.
pub open spec fn points2_same(a: Seq<Vec2>, b: Seq<Vec2>) -> bool {
    a.len() == b.len() && forall|k: int| #![trigger a[k], b[k]] 0 <= k < a.len() ==> a[k]@ == b[k]@
}

pub open spec fn points2_wf(w: Seq<Vec2>) -> bool {
    forall|k: int| #![trigger w[k]] 0 <= k < w.len() ==> w[k].wf()
}

/// The rest of a list after its first item: `,item` for each, then `]`.
pub open spec fn points2_more(u: Seq<Vec2>) -> Seq<char>
    decreases u.len(),
{
    if u.len() == 0 {
        one(']')
    } else {
        one(',') + u[0].enc() + points2_more(u.drop_first())
    }
}

/// `[item,item,...]`
pub open spec fn points2_enc(w: Seq<Vec2>) -> Seq<char> {
    if w.len() == 0 {
        one('[') + one(']')
    } else {
        one('[') + w[0].enc() + points2_more(w.drop_first())
    }
}

fn write_points2_more(v: &Vec<Vec2>, k: usize, out: &mut Vec<char>)
    requires
        k <= v@.len(),
    ensures
        final(out)@ == old(out)@ + points2_more(v@.skip(k as int)),
    decreases v@.len() - k,
{
    if k == v.len() {
        out.push(']');
        proof {
            assert(v@.skip(k as int) =~= Seq::<Vec2>::empty());
        }
    } else {
        out.push(',');
        v[k].write(out);
        write_points2_more(v, k + 1, out);
        proof {
            assert(v@.skip(k as int).drop_first() =~= v@.skip(k + 1));
            assert(final(out)@ =~= old(out)@ + points2_more(v@.skip(k as int)));
        }
    }
}

pub(crate) fn write_points2(v: &Vec<Vec2>, out: &mut Vec<char>)
    ensures
        final(out)@ == old(out)@ + points2_enc(v@),
{
    out.push('[');
    if v.len() == 0 {
        out.push(']');
    } else {
        v[0].write(out);
        write_points2_more(v, 1, out);
        assert(v@.drop_first() =~= v@.skip(1));
    }
    proof {
        assert(final(out)@ =~= old(out)@ + points2_enc(v@));
    }
}

fn parse_points2_more(s: &Vec<char>, j: usize, out: &mut Vec<Vec2>) -> (r: Option<usize>)
    requires
        j <= s@.len(),
        points2_wf(old(out)@),
    ensures
        points2_wf(final(out)@),
        final(out)@.len() >= old(out)@.len(),
        final(out)@.subrange(0, old(out)@.len() as int) == old(out)@,
        r matches Some(e) ==> j <= e <= s@.len(),
        forall|u: Seq<Vec2>|
            points2_wf(u) && #[trigger] occurs_at(s@, j as int, points2_more(u)) ==> (r matches Some(e)
                && points2_more(final(out)@.skip(old(out)@.len() as int)) == points2_more(u) && points2_same(
                final(out)@.skip(old(out)@.len() as int),
                u,
            ) && e == j + points2_more(u).len()),
    decreases s@.len() - j,
{
    if j < s.len() && s[j] == ']' {
        proof {
            assert(final(out)@.subrange(0, old(out)@.len() as int) =~= old(out)@);
            assert(final(out)@.skip(old(out)@.len() as int) =~= Seq::<Vec2>::empty());
        }
        return Some(j + 1);
    }
    let ghost before = out@;
    proof {
        assert(out@.subrange(0, out@.len() as int) =~= out@);
    }
    let j1 = expect_char(s, j, ',')?;
    let (p, j2) = match parse_vec2(s, j1) {
        Some(x) => x,
        None => {
            proof {
                assert forall|u: Seq<Vec2>|
                    points2_wf(u) && #[trigger] occurs_at(s@, j as int, points2_more(u)) implies false by {
                    if u.len() == 0 {
                        assert(s@[j as int] == ']');
                    }
                    assert(u[0].wf());
                    assert(occurs_at(s@, j1 as int, u[0].enc()));
                }
                assert(final(out)@.subrange(0, old(out)@.len() as int) =~= old(out)@);
            }
            return None;
        },
    };
    out.push(p);
    let ghost mid = out@;
    proof {
        assert forall|k: int| #![trigger mid[k]] 0 <= k < mid.len() implies mid[k].wf() by {
            if k < before.len() {
                assert(mid[k] == before[k]);
            }
        }
    }
    let r = parse_points2_more(s, j2, out);
    proof {
        assert(final(out)@.subrange(0, before.len() as int) =~= mid.subrange(0, before.len() as int));
        assert(mid.subrange(0, before.len() as int) =~= before);
        assert forall|u: Seq<Vec2>|
            points2_wf(u) && #[trigger] occurs_at(s@, j as int, points2_more(u)) implies (r matches Some(e)
                && points2_more(final(out)@.skip(before.len() as int)) == points2_more(u) && points2_same(
                final(out)@.skip(before.len() as int),
                u,
            ) && e == j + points2_more(u).len()) by {
            if u.len() == 0 {
                assert(s@[j as int] == ']');
            }
            let rest = u.drop_first();
            assert(occurs_at(s@, j2 as int, points2_more(rest)));
            let t = final(out)@.skip(before.len() as int);
            assert(t.drop_first() =~= final(out)@.skip(mid.len() as int));
            assert(t[0] == mid[before.len() as int]);
            assert forall|k: int| #![trigger t[k], u[k]] 0 <= k < t.len() implies t[k]@ == u[k]@ by {
                if k > 0 {
                    assert(t[k] == t.drop_first()[k - 1]);
                    assert(u[k] == rest[k - 1]);
                }
            }
        }
    }
    r
}

pub(crate) fn parse_points2(s: &Vec<char>, i: usize) -> (r: Option<(Vec<Vec2>, usize)>)
    requires
        i <= s@.len(),
    ensures
        r matches Some((v, e)) ==> points2_wf(v@) && i <= e <= s@.len(),
        forall|w: Seq<Vec2>|
            points2_wf(w) && #[trigger] occurs_at(s@, i as int, points2_enc(w)) ==> (r matches Some((v, e))
                && points2_enc(v@) == points2_enc(w) && points2_same(v@, w) && e == i + points2_enc(w).len()),
{
    let j = expect_char(s, i, '[')?;
    let mut out: Vec<Vec2> = Vec::new();
    if j < s.len() && s[j] == ']' {
        proof {
            assert forall|w: Seq<Vec2>|
                points2_wf(w) && #[trigger] occurs_at(s@, i as int, points2_enc(w)) implies w.len() == 0 by {
                if w.len() > 0 {
                    assert(occurs_at(s@, j as int, w[0].enc()));
                    
                    lemma_occurs_first(s@, j as int, w[0].enc());
                }
            }
        }
        return Some((out, j + 1));
    }
    let (p, j) = match parse_vec2(s, j) {
        Some(x) => x,
        None => {
            proof {
                assert forall|w: Seq<Vec2>|
                    points2_wf(w) && #[trigger] occurs_at(s@, i as int, points2_enc(w)) implies false by {
                    if w.len() == 0 {
                        assert(s@[j as int] == ']');
                    }
                    assert(w[0].wf());
                    assert(occurs_at(s@, j as int, w[0].enc()));
                }
            }
            return None;
        },
    };
    out.push(p);
    let ghost first = out@;
    let e = parse_points2_more(s, j, &mut out)?;
    proof {
        assert(out@.drop_first() =~= out@.skip(1));
        assert(out@[0] == first[0]);
        assert forall|w: Seq<Vec2>|
            points2_wf(w) && #[trigger] occurs_at(s@, i as int, points2_enc(w)) implies points2_enc(out@)
            == points2_enc(w) && points2_same(out@, w) && e == i + points2_enc(w).len() by {
            assert(w.len() > 0);
            assert(occurs_at(s@, j as int, points2_more(w.drop_first())));
            let rest = w.drop_first();
            let t = out@.skip(1);
            assert forall|k: int| #![trigger out@[k], w[k]] 0 <= k < out@.len() implies out@[k]@ == w[k]@ by {
                if k > 0 {
                    assert(out@[k] == t[k - 1]);
                    assert(w[k] == rest[k - 1]);
                }
            }
        }
    }
    Some((out, e))
}

/// The two lists hold items with the same views, in the same order.
pub open spec fn points3_same(a: Seq<Vec3>, b: Seq<Vec3>) -> bool {
    a.len() == b.len() && forall|k: int| #![trigger a[k], b[k]] 0 <= k < a.len() ==> a[k]@ == b[k]@
}

pub open spec fn points3_wf(w: Seq<Vec3>) -> bool {
    forall|k: int| #![trigger w[k]] 0 <= k < w.len() ==> w[k].wf()
}

/// The rest of a list after its first item: `,item` for each, then `]`.
pub open spec fn points3_more(u: Seq<Vec3>) -> Seq<char>
    decreases u.len(),
{
    if u.len() == 0 {
        one(']')
    } else {
        one(',') + u[0].enc() + points3_more(u.drop_first())
    }
}

/// `[item,item,...]`
pub open spec fn points3_enc(w: Seq<Vec3>) -> Seq<char> {
    if w.len() == 0 {
        one('[') + one(']')
    } else {
        one('[') + w[0].enc() + points3_more(w.drop_first())
    }
}

fn write_points3_more(v: &Vec<Vec3>, k: usize, out: &mut Vec<char>)
    requires
        k <= v@.len(),
    ensures
        final(out)@ == old(out)@ + points3_more(v@.skip(k as int)),
    decreases v@.len() - k,
{
    if k == v.len() {
        out.push(']');
        proof {
            assert(v@.skip(k as int) =~= Seq::<Vec3>::empty());
        }
    } else {
        out.push(',');
        v[k].write(out);
        write_points3_more(v, k + 1, out);
        proof {
            assert(v@.skip(k as int).drop_first() =~= v@.skip(k + 1));
            assert(final(out)@ =~= old(out)@ + points3_more(v@.skip(k as int)));
        }
    }
}

pub(crate) fn write_points3(v: &Vec<Vec3>, out: &mut Vec<char>)
    ensures
        final(out)@ == old(out)@ + points3_enc(v@),
{
    out.push('[');
    if v.len() == 0 {
        out.push(']');
    } else {
        v[0].write(out);
        write_points3_more(v, 1, out);
        assert(v@.drop_first() =~= v@.skip(1));
    }
    proof {
        assert(final(out)@ =~= old(out)@ + points3_enc(v@));
    }
}

fn parse_points3_more(s: &Vec<char>, j: usize, out: &mut Vec<Vec3>) -> (r: Option<usize>)
    requires
        j <= s@.len(),
        points3_wf(old(out)@),
    ensures
        points3_wf(final(out)@),
        final(out)@.len() >= old(out)@.len(),
        final(out)@.subrange(0, old(out)@.len() as int) == old(out)@,
        r matches Some(e) ==> j <= e <= s@.len(),
        forall|u: Seq<Vec3>|
            points3_wf(u) && #[trigger] occurs_at(s@, j as int, points3_more(u)) ==> (r matches Some(e)
                && points3_more(final(out)@.skip(old(out)@.len() as int)) == points3_more(u) && points3_same(
                final(out)@.skip(old(out)@.len() as int),
                u,
            ) && e == j + points3_more(u).len()),
    decreases s@.len() - j,
{
    if j < s.len() && s[j] == ']' {
        proof {
            assert(final(out)@.subrange(0, old(out)@.len() as int) =~= old(out)@);
            assert(final(out)@.skip(old(out)@.len() as int) =~= Seq::<Vec3>::empty());
        }
        return Some(j + 1);
    }
    let ghost before = out@;
    proof {
        assert(out@.subrange(0, out@.len() as int) =~= out@);
    }
    let j1 = expect_char(s, j, ',')?;
    let (p, j2) = match parse_vec3(s, j1) {
        Some(x) => x,
        None => {
            proof {
                assert forall|u: Seq<Vec3>|
                    points3_wf(u) && #[trigger] occurs_at(s@, j as int, points3_more(u)) implies false by {
                    if u.len() == 0 {
                        assert(s@[j as int] == ']');
                    }
                    assert(u[0].wf());
                    assert(occurs_at(s@, j1 as int, u[0].enc()));
                }
                assert(final(out)@.subrange(0, old(out)@.len() as int) =~= old(out)@);
            }
            return None;
        },
    };
    out.push(p);
    let ghost mid = out@;
    proof {
        assert forall|k: int| #![trigger mid[k]] 0 <= k < mid.len() implies mid[k].wf() by {
            if k < before.len() {
                assert(mid[k] == before[k]);
            }
        }
    }
    let r = parse_points3_more(s, j2, out);
    proof {
        assert(final(out)@.subrange(0, before.len() as int) =~= mid.subrange(0, before.len() as int));
        assert(mid.subrange(0, before.len() as int) =~= before);
        assert forall|u: Seq<Vec3>|
            points3_wf(u) && #[trigger] occurs_at(s@, j as int, points3_more(u)) implies (r matches Some(e)
                && points3_more(final(out)@.skip(before.len() as int)) == points3_more(u) && points3_same(
                final(out)@.skip(before.len() as int),
                u,
            ) && e == j + points3_more(u).len()) by {
            if u.len() == 0 {
                assert(s@[j as int] == ']');
            }
            let rest = u.drop_first();
            assert(occurs_at(s@, j2 as int, points3_more(rest)));
            let t = final(out)@.skip(before.len() as int);
            assert(t.drop_first() =~= final(out)@.skip(mid.len() as int));
            assert(t[0] == mid[before.len() as int]);
            assert forall|k: int| #![trigger t[k], u[k]] 0 <= k < t.len() implies t[k]@ == u[k]@ by {
                if k > 0 {
                    assert(t[k] == t.drop_first()[k - 1]);
                    assert(u[k] == rest[k - 1]);
                }
            }
        }
    }
    r
}

pub(crate) fn parse_points3(s: &Vec<char>, i: usize) -> (r: Option<(Vec<Vec3>, usize)>)
    requires
        i <= s@.len(),
    ensures
        r matches Some((v, e)) ==> points3_wf(v@) && i <= e <= s@.len(),
        forall|w: Seq<Vec3>|
            points3_wf(w) && #[trigger] occurs_at(s@, i as int, points3_enc(w)) ==> (r matches Some((v, e))
                && points3_enc(v@) == points3_enc(w) && points3_same(v@, w) && e == i + points3_enc(w).len()),
{
    let j = expect_char(s, i, '[')?;
    let mut out: Vec<Vec3> = Vec::new();
    if j < s.len() && s[j] == ']' {
        proof {
            assert forall|w: Seq<Vec3>|
                points3_wf(w) && #[trigger] occurs_at(s@, i as int, points3_enc(w)) implies w.len() == 0 by {
                if w.len() > 0 {
                    assert(occurs_at(s@, j as int, w[0].enc()));
                    
                    lemma_occurs_first(s@, j as int, w[0].enc());
                }
            }
        }
        return Some((out, j + 1));
    }
    let (p, j) = match parse_vec3(s, j) {
        Some(x) => x,
        None => {
            proof {
                assert forall|w: Seq<Vec3>|
                    points3_wf(w) && #[trigger] occurs_at(s@, i as int, points3_enc(w)) implies false by {
                    if w.len() == 0 {
                        assert(s@[j as int] == ']');
                    }
                    assert(w[0].wf());
                    assert(occurs_at(s@, j as int, w[0].enc()));
                }
            }
            return None;
        },
    };
    out.push(p);
    let ghost first = out@;
    let e = parse_points3_more(s, j, &mut out)?;
    proof {
        assert(out@.drop_first() =~= out@.skip(1));
        assert(out@[0] == first[0]);
        assert forall|w: Seq<Vec3>|
            points3_wf(w) && #[trigger] occurs_at(s@, i as int, points3_enc(w)) implies points3_enc(out@)
            == points3_enc(w) && points3_same(out@, w) && e == i + points3_enc(w).len() by {
            assert(w.len() > 0);
            assert(occurs_at(s@, j as int, points3_more(w.drop_first())));
            let rest = w.drop_first();
            let t = out@.skip(1);
            assert forall|k: int| #![trigger out@[k], w[k]] 0 <= k < out@.len() implies out@[k]@ == w[k]@ by {
                if k > 0 {
                    assert(out@[k] == t[k - 1]);
                    assert(w[k] == rest[k - 1]);
                }
            }
        }
    }
    Some((out, e))
}

/// The two lists hold items with the same views, in the same order.
pub open spec fn colored2_same(a: Seq<(Vec2, Color)>, b: Seq<(Vec2, Color)>) -> bool {
    a.len() == b.len() && forall|k: int| #![trigger a[k], b[k]] 0 <= k < a.len() ==> (a[k].0@, a[k].1@) == (b[k].0@, b[k].1@)
}

pub open spec fn colored2_wf(w: Seq<(Vec2, Color)>) -> bool {
    forall|k: int| #![trigger w[k]] 0 <= k < w.len() ==> w[k].0.wf() && w[k].1.wf()
}

/// The rest of a list after its first item: `,item` for each, then `]`.
pub open spec fn colored2_more(u: Seq<(Vec2, Color)>) -> Seq<char>
    decreases u.len(),
{
    if u.len() == 0 {
        one(']')
    } else {
        one(',') + colored_point2_enc(u[0]) + colored2_more(u.drop_first())
    }
}

/// `[item,item,...]`
pub open spec fn colored2_enc(w: Seq<(Vec2, Color)>) -> Seq<char> {
    if w.len() == 0 {
        one('[') + one(']')
    } else {
        one('[') + colored_point2_enc(w[0]) + colored2_more(w.drop_first())
    }
}

fn write_colored2_more(v: &Vec<(Vec2, Color)>, k: usize, out: &mut Vec<char>)
    requires
        k <= v@.len(),
    ensures
        final(out)@ == old(out)@ + colored2_more(v@.skip(k as int)),
    decreases v@.len() - k,
{
    if k == v.len() {
        out.push(']');
        proof {
            assert(v@.skip(k as int) =~= Seq::<(Vec2, Color)>::empty());
        }
    } else {
        out.push(',');
        write_colored_point2(&v[k], out);
        write_colored2_more(v, k + 1, out);
        proof {
            assert(v@.skip(k as int).drop_first() =~= v@.skip(k + 1));
            assert(final(out)@ =~= old(out)@ + colored2_more(v@.skip(k as int)));
        }
    }
}

pub(crate) fn write_colored2(v: &Vec<(Vec2, Color)>, out: &mut Vec<char>)
    ensures
        final(out)@ == old(out)@ + colored2_enc(v@),
{
    out.push('[');
    if v.len() == 0 {
        out.push(']');
    } else {
        write_colored_point2(&v[0], out);
        write_colored2_more(v, 1, out);
        assert(v@.drop_first() =~= v@.skip(1));
    }
    proof {
        assert(final(out)@ =~= old(out)@ + colored2_enc(v@));
    }
}

fn parse_colored2_more(s: &Vec<char>, j: usize, out: &mut Vec<(Vec2, Color)>) -> (r: Option<usize>)
    requires
        j <= s@.len(),
        colored2_wf(old(out)@),
    ensures
        colored2_wf(final(out)@),
        final(out)@.len() >= old(out)@.len(),
        final(out)@.subrange(0, old(out)@.len() as int) == old(out)@,
        r matches Some(e) ==> j <= e <= s@.len(),
        forall|u: Seq<(Vec2, Color)>|
            colored2_wf(u) && #[trigger] occurs_at(s@, j as int, colored2_more(u)) ==> (r matches Some(e)
                && colored2_more(final(out)@.skip(old(out)@.len() as int)) == colored2_more(u) && colored2_same(
                final(out)@.skip(old(out)@.len() as int),
                u,
            ) && e == j + colored2_more(u).len()),
    decreases s@.len() - j,
{
    if j < s.len() && s[j] == ']' {
        proof {
            assert(final(out)@.subrange(0, old(out)@.len() as int) =~= old(out)@);
            assert(final(out)@.skip(old(out)@.len() as int) =~= Seq::<(Vec2, Color)>::empty());
        }
        return Some(j + 1);
    }
    let ghost before = out@;
    proof {
        assert(out@.subrange(0, out@.len() as int) =~= out@);
    }
    let j1 = expect_char(s, j, ',')?;
    let (p, j2) = match parse_colored_point2(s, j1) {
        Some(x) => x,
        None => {
            proof {
                assert forall|u: Seq<(Vec2, Color)>|
                    colored2_wf(u) && #[trigger] occurs_at(s@, j as int, colored2_more(u)) implies false by {
                    if u.len() == 0 {
                        assert(s@[j as int] == ']');
                    }
                    assert(u[0].0.wf() && u[0].1.wf());
                    assert(occurs_at(s@, j1 as int, colored_point2_enc(u[0])));
                }
                assert(final(out)@.subrange(0, old(out)@.len() as int) =~= old(out)@);
            }
            return None;
        },
    };
    out.push(p);
    let ghost mid = out@;
    proof {
        assert forall|k: int| #![trigger mid[k]] 0 <= k < mid.len() implies mid[k].0.wf() && mid[k].1.wf() by {
            if k < before.len() {
                assert(mid[k] == before[k]);
            }
        }
    }
    let r = parse_colored2_more(s, j2, out);
    proof {
        assert(final(out)@.subrange(0, before.len() as int) =~= mid.subrange(0, before.len() as int));
        assert(mid.subrange(0, before.len() as int) =~= before);
        assert forall|u: Seq<(Vec2, Color)>|
            colored2_wf(u) && #[trigger] occurs_at(s@, j as int, colored2_more(u)) implies (r matches Some(e)
                && colored2_more(final(out)@.skip(before.len() as int)) == colored2_more(u) && colored2_same(
                final(out)@.skip(before.len() as int),
                u,
            ) && e == j + colored2_more(u).len()) by {
            if u.len() == 0 {
                assert(s@[j as int] == ']');
            }
            let rest = u.drop_first();
            assert(occurs_at(s@, j2 as int, colored2_more(rest)));
            let t = final(out)@.skip(before.len() as int);
            assert(t.drop_first() =~= final(out)@.skip(mid.len() as int));
            assert(t[0] == mid[before.len() as int]);
            assert forall|k: int| #![trigger t[k], u[k]] 0 <= k < t.len() implies (t[k].0@, t[k].1@) == (u[k].0@, u[k].1@) by {
                if k > 0 {
                    assert(t[k] == t.drop_first()[k - 1]);
                    assert(u[k] == rest[k - 1]);
                }
            }
        }
    }
    r
}

pub(crate) fn parse_colored2(s: &Vec<char>, i: usize) -> (r: Option<(Vec<(Vec2, Color)>, usize)>)
    requires
        i <= s@.len(),
    ensures
        r matches Some((v, e)) ==> colored2_wf(v@) && i <= e <= s@.len(),
        forall|w: Seq<(Vec2, Color)>|
            colored2_wf(w) && #[trigger] occurs_at(s@, i as int, colored2_enc(w)) ==> (r matches Some((v, e))
                && colored2_enc(v@) == colored2_enc(w) && colored2_same(v@, w) && e == i + colored2_enc(w).len()),
{
    let j = expect_char(s, i, '[')?;
    let mut out: Vec<(Vec2, Color)> = Vec::new();
    if j < s.len() && s[j] == ']' {
        proof {
            assert forall|w: Seq<(Vec2, Color)>|
                colored2_wf(w) && #[trigger] occurs_at(s@, i as int, colored2_enc(w)) implies w.len() == 0 by {
                if w.len() > 0 {
                    assert(occurs_at(s@, j as int, colored_point2_enc(w[0])));
                    lemma_colored_point2_first(w[0]);
                    lemma_occurs_first(s@, j as int, colored_point2_enc(w[0]));
                }
            }
        }
        return Some((out, j + 1));
    }
    let (p, j) = match parse_colored_point2(s, j) {
        Some(x) => x,
        None => {
            proof {
                assert forall|w: Seq<(Vec2, Color)>|
                    colored2_wf(w) && #[trigger] occurs_at(s@, i as int, colored2_enc(w)) implies false by {
                    if w.len() == 0 {
                        assert(s@[j as int] == ']');
                    }
                    assert(w[0].0.wf() && w[0].1.wf());
                    assert(occurs_at(s@, j as int, colored_point2_enc(w[0])));
                }
            }
            return None;
        },
    };
    out.push(p);
    let ghost first = out@;
    let e = parse_colored2_more(s, j, &mut out)?;
    proof {
        assert(out@.drop_first() =~= out@.skip(1));
        assert(out@[0] == first[0]);
        assert forall|w: Seq<(Vec2, Color)>|
            colored2_wf(w) && #[trigger] occurs_at(s@, i as int, colored2_enc(w)) implies colored2_enc(out@)
            == colored2_enc(w) && colored2_same(out@, w) && e == i + colored2_enc(w).len() by {
            assert(w.len() > 0);
            assert(occurs_at(s@, j as int, colored2_more(w.drop_first())));
            let rest = w.drop_first();
            let t = out@.skip(1);
            assert forall|k: int| #![trigger out@[k], w[k]] 0 <= k < out@.len() implies (out@[k].0@, out@[k].1@) == (w[k].0@, w[k].1@) by {
                if k > 0 {
                    assert(out@[k] == t[k - 1]);
                    assert(w[k] == rest[k - 1]);
                }
            }
        }
    }
    Some((out, e))
}

/// The two lists hold items with the same views, in the same order.
pub open spec fn colored3_same(a: Seq<(Vec3, Color)>, b: Seq<(Vec3, Color)>) -> bool {
    a.len() == b.len() && forall|k: int| #![trigger a[k], b[k]] 0 <= k < a.len() ==> (a[k].0@, a[k].1@) == (b[k].0@, b[k].1@)
}

pub open spec fn colored3_wf(w: Seq<(Vec3, Color)>) -> bool {
    forall|k: int| #![trigger w[k]] 0 <= k < w.len() ==> w[k].0.wf() && w[k].1.wf()
}

/// The rest of a list after its first item: `,item` for each, then `]`.
pub open spec fn colored3_more(u: Seq<(Vec3, Color)>) -> Seq<char>
    decreases u.len(),
{
    if u.len() == 0 {
        one(']')
    } else {
        one(',') + colored_point3_enc(u[0]) + colored3_more(u.drop_first())
    }
}

/// `[item,item,...]`
pub open spec fn colored3_enc(w: Seq<(Vec3, Color)>) -> Seq<char> {
    if w.len() == 0 {
        one('[') + one(']')
    } else {
        one('[') + colored_point3_enc(w[0]) + colored3_more(w.drop_first())
    }
}

fn write_colored3_more(v: &Vec<(Vec3, Color)>, k: usize, out: &mut Vec<char>)
    requires
        k <= v@.len(),
    ensures
        final(out)@ == old(out)@ + colored3_more(v@.skip(k as int)),
    decreases v@.len() - k,
{
    if k == v.len() {
        out.push(']');
        proof {
            assert(v@.skip(k as int) =~= Seq::<(Vec3, Color)>::empty());
        }
    } else {
        out.push(',');
        write_colored_point3(&v[k], out);
        write_colored3_more(v, k + 1, out);
        proof {
            assert(v@.skip(k as int).drop_first() =~= v@.skip(k + 1));
            assert(final(out)@ =~= old(out)@ + colored3_more(v@.skip(k as int)));
        }
    }
}

pub(crate) fn write_colored3(v: &Vec<(Vec3, Color)>, out: &mut Vec<char>)
    ensures
        final(out)@ == old(out)@ + colored3_enc(v@),
{
    out.push('[');
    if v.len() == 0 {
        out.push(']');
    } else {
        write_colored_point3(&v[0], out);
        write_colored3_more(v, 1, out);
        assert(v@.drop_first() =~= v@.skip(1));
    }
    proof {
        assert(final(out)@ =~= old(out)@ + colored3_enc(v@));
    }
}

fn parse_colored3_more(s: &Vec<char>, j: usize, out: &mut Vec<(Vec3, Color)>) -> (r: Option<usize>)
    requires
        j <= s@.len(),
        colored3_wf(old(out)@),
    ensures
        colored3_wf(final(out)@),
        final(out)@.len() >= old(out)@.len(),
        final(out)@.subrange(0, old(out)@.len() as int) == old(out)@,
        r matches Some(e) ==> j <= e <= s@.len(),
        forall|u: Seq<(Vec3, Color)>|
            colored3_wf(u) && #[trigger] occurs_at(s@, j as int, colored3_more(u)) ==> (r matches Some(e)
                && colored3_more(final(out)@.skip(old(out)@.len() as int)) == colored3_more(u) && colored3_same(
                final(out)@.skip(old(out)@.len() as int),
                u,
            ) && e == j + colored3_more(u).len()),
    decreases s@.len() - j,
{
    if j < s.len() && s[j] == ']' {
        proof {
            assert(final(out)@.subrange(0, old(out)@.len() as int) =~= old(out)@);
            assert(final(out)@.skip(old(out)@.len() as int) =~= Seq::<(Vec3, Color)>::empty());
        }
        return Some(j + 1);
    }
    let ghost before = out@;
    proof {
        assert(out@.subrange(0, out@.len() as int) =~= out@);
    }
    let j1 = expect_char(s, j, ',')?;
    let (p, j2) = match parse_colored_point3(s, j1) {
        Some(x) => x,
        None => {
            proof {
                assert forall|u: Seq<(Vec3, Color)>|
                    colored3_wf(u) && #[trigger] occurs_at(s@, j as int, colored3_more(u)) implies false by {
                    if u.len() == 0 {
                        assert(s@[j as int] == ']');
                    }
                    assert(u[0].0.wf() && u[0].1.wf());
                    assert(occurs_at(s@, j1 as int, colored_point3_enc(u[0])));
                }
                assert(final(out)@.subrange(0, old(out)@.len() as int) =~= old(out)@);
            }
            return None;
        },
    };
    out.push(p);
    let ghost mid = out@;
    proof {
        assert forall|k: int| #![trigger mid[k]] 0 <= k < mid.len() implies mid[k].0.wf() && mid[k].1.wf() by {
            if k < before.len() {
                assert(mid[k] == before[k]);
            }
        }
    }
    let r = parse_colored3_more(s, j2, out);
    proof {
        assert(final(out)@.subrange(0, before.len() as int) =~= mid.subrange(0, before.len() as int));
        assert(mid.subrange(0, before.len() as int) =~= before);
        assert forall|u: Seq<(Vec3, Color)>|
            colored3_wf(u) && #[trigger] occurs_at(s@, j as int, colored3_more(u)) implies (r matches Some(e)
                && colored3_more(final(out)@.skip(before.len() as int)) == colored3_more(u) && colored3_same(
                final(out)@.skip(before.len() as int),
                u,
            ) && e == j + colored3_more(u).len()) by {
            if u.len() == 0 {
                assert(s@[j as int] == ']');
            }
            let rest = u.drop_first();
            assert(occurs_at(s@, j2 as int, colored3_more(rest)));
            let t = final(out)@.skip(before.len() as int);
            assert(t.drop_first() =~= final(out)@.skip(mid.len() as int));
            assert(t[0] == mid[before.len() as int]);
            assert forall|k: int| #![trigger t[k], u[k]] 0 <= k < t.len() implies (t[k].0@, t[k].1@) == (u[k].0@, u[k].1@) by {
                if k > 0 {
                    assert(t[k] == t.drop_first()[k - 1]);
                    assert(u[k] == rest[k - 1]);
                }
            }
        }
    }
    r
}

pub(crate) fn parse_colored3(s: &Vec<char>, i: usize) -> (r: Option<(Vec<(Vec3, Color)>, usize)>)
    requires
        i <= s@.len(),
    ensures
        r matches Some((v, e)) ==> colored3_wf(v@) && i <= e <= s@.len(),
        forall|w: Seq<(Vec3, Color)>|
            colored3_wf(w) && #[trigger] occurs_at(s@, i as int, colored3_enc(w)) ==> (r matches Some((v, e))
                && colored3_enc(v@) == colored3_enc(w) && colored3_same(v@, w) && e == i + colored3_enc(w).len()),
{
    let j = expect_char(s, i, '[')?;
    let mut out: Vec<(Vec3, Color)> = Vec::new();
    if j < s.len() && s[j] == ']' {
        proof {
            assert forall|w: Seq<(Vec3, Color)>|
                colored3_wf(w) && #[trigger] occurs_at(s@, i as int, colored3_enc(w)) implies w.len() == 0 by {
                if w.len() > 0 {
                    assert(occurs_at(s@, j as int, colored_point3_enc(w[0])));
                    lemma_colored_point3_first(w[0]);
                    lemma_occurs_first(s@, j as int, colored_point3_enc(w[0]));
                }
            }
        }
        return Some((out, j + 1));
    }
    let (p, j) = match parse_colored_point3(s, j) {
        Some(x) => x,
        None => {
            proof {
                assert forall|w: Seq<(Vec3, Color)>|
                    colored3_wf(w) && #[trigger] occurs_at(s@, i as int, colored3_enc(w)) implies false by {
                    if w.len() == 0 {
                        assert(s@[j as int] == ']');
                    }
                    assert(w[0].0.wf() && w[0].1.wf());
                    assert(occurs_at(s@, j as int, colored_point3_enc(w[0])));
                }
            }
            return None;
        },
    };
    out.push(p);
    let ghost first = out@;
    let e = parse_colored3_more(s, j, &mut out)?;
    proof {
        assert(out@.drop_first() =~= out@.skip(1));
        assert(out@[0] == first[0]);
        assert forall|w: Seq<(Vec3, Color)>|
            colored3_wf(w) && #[trigger] occurs_at(s@, i as int, colored3_enc(w)) implies colored3_enc(out@)
            == colored3_enc(w) && colored3_same(out@, w) && e == i + colored3_enc(w).len() by {
            assert(w.len() > 0);
            assert(occurs_at(s@, j as int, colored3_more(w.drop_first())));
            let rest = w.drop_first();
            let t = out@.skip(1);
            assert forall|k: int| #![trigger out@[k], w[k]] 0 <= k < out@.len() implies (out@[k].0@, out@[k].1@) == (w[k].0@, w[k].1@) by {
                if k > 0 {
                    assert(out@[k] == t[k - 1]);
                    assert(w[k] == rest[k - 1]);
                }
            }
        }
    }
    Some((out, e))
}

proof fn lemma_points2_more_no_space(u: Seq<Vec2>)
    requires
        points2_wf(u),
    ensures
        no_space(points2_more(u)),
    decreases u.len(),
{
    if u.len() > 0 {
        lemma_vec2_no_space(u[0]);
        assert(points2_wf(u.drop_first())) by {
            assert forall|k: int| 0 <= k < u.drop_first().len() implies u.drop_first()[k].wf() by {
                assert(u.drop_first()[k] == u[k + 1]);
            }
        }
        lemma_points2_more_no_space(u.drop_first());
    }
}

pub proof fn lemma_points2_no_space(w: Seq<Vec2>)
    requires
        points2_wf(w),
    ensures
        no_space(points2_enc(w)),
{
    if w.len() > 0 {
        lemma_vec2_no_space(w[0]);
        assert(points2_wf(w.drop_first())) by {
            assert forall|k: int| 0 <= k < w.drop_first().len() implies w.drop_first()[k].wf() by {
                assert(w.drop_first()[k] == w[k + 1]);
            }
        }
        lemma_points2_more_no_space(w.drop_first());
    }
}

proof fn lemma_points3_more_no_space(u: Seq<Vec3>)
    requires
        points3_wf(u),
    ensures
        no_space(points3_more(u)),
    decreases u.len(),
{
    if u.len() > 0 {
        lemma_vec3_no_space(u[0]);
        assert(points3_wf(u.drop_first())) by {
            assert forall|k: int| 0 <= k < u.drop_first().len() implies u.drop_first()[k].wf() by {
                assert(u.drop_first()[k] == u[k + 1]);
            }
        }
        lemma_points3_more_no_space(u.drop_first());
    }
}

pub proof fn lemma_points3_no_space(w: Seq<Vec3>)
    requires
        points3_wf(w),
    ensures
        no_space(points3_enc(w)),
{
    if w.len() > 0 {
        lemma_vec3_no_space(w[0]);
        assert(points3_wf(w.drop_first())) by {
            assert forall|k: int| 0 <= k < w.drop_first().len() implies w.drop_first()[k].wf() by {
                assert(w.drop_first()[k] == w[k + 1]);
            }
        }
        lemma_points3_more_no_space(w.drop_first());
    }
}

proof fn lemma_colored2_more_no_space(u: Seq<(Vec2, Color)>)
    requires
        colored2_wf(u),
    ensures
        no_space(colored2_more(u)),
    decreases u.len(),
{
    if u.len() > 0 {
        lemma_colored_point2_no_space(u[0]);
        assert(colored2_wf(u.drop_first())) by {
            assert forall|k: int| 0 <= k < u.drop_first().len() implies u.drop_first()[k].0.wf() && u.drop_first()[k].1.wf() by {
                assert(u.drop_first()[k] == u[k + 1]);
            }
        }
        lemma_colored2_more_no_space(u.drop_first());
    }
}

pub proof fn lemma_colored2_no_space(w: Seq<(Vec2, Color)>)
    requires
        colored2_wf(w),
    ensures
        no_space(colored2_enc(w)),
{
    if w.len() > 0 {
        lemma_colored_point2_no_space(w[0]);
        assert(colored2_wf(w.drop_first())) by {
            assert forall|k: int| 0 <= k < w.drop_first().len() implies w.drop_first()[k].0.wf() && w.drop_first()[k].1.wf() by {
                assert(w.drop_first()[k] == w[k + 1]);
            }
        }
        lemma_colored2_more_no_space(w.drop_first());
    }
}

proof fn lemma_colored3_more_no_space(u: Seq<(Vec3, Color)>)
    requires
        colored3_wf(u),
    ensures
        no_space(colored3_more(u)),
    decreases u.len(),
{
    if u.len() > 0 {
        lemma_colored_point3_no_space(u[0]);
        assert(colored3_wf(u.drop_first())) by {
            assert forall|k: int| 0 <= k < u.drop_first().len() implies u.drop_first()[k].0.wf() && u.drop_first()[k].1.wf() by {
                assert(u.drop_first()[k] == u[k + 1]);
            }
        }
        lemma_colored3_more_no_space(u.drop_first());
    }
}

pub proof fn lemma_colored3_no_space(w: Seq<(Vec3, Color)>)
    requires
        colored3_wf(w),
    ensures
        no_space(colored3_enc(w)),
{
    if w.len() > 0 {
        lemma_colored_point3_no_space(w[0]);
        assert(colored3_wf(w.drop_first())) by {
            assert forall|k: int| 0 <= k < w.drop_first().len() implies w.drop_first()[k].0.wf() && w.drop_first()[k].1.wf() by {
                assert(w.drop_first()[k] == w[k + 1]);
            }
        }
        lemma_colored3_more_no_space(w.drop_first());
    }
}

} // verus!
