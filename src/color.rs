//! Colors, written as their color space followed by their named components.

use vstd::prelude::*;
use crate::scalar::{lemma_number_no_space, parse_scalar, Scalar};
use crate::text::{
    expect, expect_char, lemma_no_space_concat, lemma_occurs_concat, lemma_occurs_one, no_space,
    occurs_at, one, push_str, same_text, scan_to, slice_chars,
};

verus! {

broadcast use lemma_occurs_concat, lemma_occurs_one, lemma_no_space_concat;

/// A color in one of the usual color spaces, with its alpha last.
#[derive(Clone, Debug, PartialEq)]
pub enum Color {
    /// Non-linear red, green and blue, with alpha.
    Srgba { red: Scalar, green: Scalar, blue: Scalar, alpha: Scalar },
    /// Linear red, green and blue, with alpha.
    LinearRgba { red: Scalar, green: Scalar, blue: Scalar, alpha: Scalar },
    /// Hue, saturation and lightness, with alpha.
    Hsla { hue: Scalar, saturation: Scalar, lightness: Scalar, alpha: Scalar },
    /// Hue, saturation and value, with alpha.
    Hsva { hue: Scalar, saturation: Scalar, value: Scalar, alpha: Scalar },
    /// Hue, whiteness and blackness, with alpha.
    Hwba { hue: Scalar, whiteness: Scalar, blackness: Scalar, alpha: Scalar },
    /// CIE L*a*b*, with alpha.
    Laba { lightness: Scalar, a: Scalar, b: Scalar, alpha: Scalar },
    /// CIE LCh, with alpha.
    Lcha { lightness: Scalar, chroma: Scalar, hue: Scalar, alpha: Scalar },
    /// Oklab, with alpha.
    Oklaba { lightness: Scalar, a: Scalar, b: Scalar, alpha: Scalar },
    /// Oklch, with alpha.
    Oklcha { lightness: Scalar, chroma: Scalar, hue: Scalar, alpha: Scalar },
    /// CIE 1931 XYZ, with alpha.
    Xyza { x: Scalar, y: Scalar, z: Scalar, alpha: Scalar },
}

/// The name of color space number `k`, in the order of [`Color`]'s variants.
pub open spec fn space_name(k: nat) -> Seq<char> {
    if k == 0 {
        "Srgba"@
    } else if k == 1 {
        "LinearRgba"@
    } else if k == 2 {
        "Hsla"@
    } else if k == 3 {
        "Hsva"@
    } else if k == 4 {
        "Hwba"@
    } else if k == 5 {
        "Laba"@
    } else if k == 6 {
        "Lcha"@
    } else if k == 7 {
        "Oklaba"@
    } else if k == 8 {
        "Oklcha"@
    } else {
        "Xyza"@
    }
}

/// The names of the first three components of color space number `k`.
pub open spec fn component_names(k: nat) -> (Seq<char>, Seq<char>, Seq<char>) {
    if k == 0 {
        ("red"@, "green"@, "blue"@)
    } else if k == 1 {
        ("red"@, "green"@, "blue"@)
    } else if k == 2 {
        ("hue"@, "saturation"@, "lightness"@)
    } else if k == 3 {
        ("hue"@, "saturation"@, "value"@)
    } else if k == 4 {
        ("hue"@, "whiteness"@, "blackness"@)
    } else if k == 5 {
        ("lightness"@, "a"@, "b"@)
    } else if k == 6 {
        ("lightness"@, "chroma"@, "hue"@)
    } else if k == 7 {
        ("lightness"@, "a"@, "b"@)
    } else if k == 8 {
        ("lightness"@, "chroma"@, "hue"@)
    } else {
        ("x"@, "y"@, "z"@)
    }
}

/// The fields of a color after its space: `((n0:v0,n1:v1,n2:v2,alpha:v3))`.
pub open spec fn color_body(
    names: (Seq<char>, Seq<char>, Seq<char>),
    v0: Seq<char>,
    v1: Seq<char>,
    v2: Seq<char>,
    v3: Seq<char>,
) -> Seq<char> {
    one('(') + one('(') + names.0 + one(':') + v0 + one(',') + names.1 + one(':') + v1 + one(',')
        + names.2 + one(':') + v2 + one(',') + "alpha"@ + one(':') + v3 + one(')') + one(')')
}

impl View for Color {
    type V = (nat, Seq<char>, Seq<char>, Seq<char>, Seq<char>);

    /// The color space's position, then the four component texts.
    open spec fn view(&self) -> (nat, Seq<char>, Seq<char>, Seq<char>, Seq<char>) {
        let (a, b, c, d) = self.components();
        (self.space(), a@, b@, c@, d@)
    }
}

impl Color {
    /// The position of the color's space among [`Color`]'s variants.
    pub open spec fn space(&self) -> nat {
        match self {
            Color::Srgba { .. } => 0,
            Color::LinearRgba { .. } => 1,
            Color::Hsla { .. } => 2,
            Color::Hsva { .. } => 3,
            Color::Hwba { .. } => 4,
            Color::Laba { .. } => 5,
            Color::Lcha { .. } => 6,
            Color::Oklaba { .. } => 7,
            Color::Oklcha { .. } => 8,
            Color::Xyza { .. } => 9,
        }
    }

    /// The four components, alpha last.
    pub open spec fn components(&self) -> (Scalar, Scalar, Scalar, Scalar) {
        match self {
            Color::Srgba { red, green, blue, alpha } => (*red, *green, *blue, *alpha),
            Color::LinearRgba { red, green, blue, alpha } => (*red, *green, *blue, *alpha),
            Color::Hsla { hue, saturation, lightness, alpha } => (*hue, *saturation, *lightness, *alpha),
            Color::Hsva { hue, saturation, value, alpha } => (*hue, *saturation, *value, *alpha),
            Color::Hwba { hue, whiteness, blackness, alpha } => (*hue, *whiteness, *blackness, *alpha),
            Color::Laba { lightness, a, b, alpha } => (*lightness, *a, *b, *alpha),
            Color::Lcha { lightness, chroma, hue, alpha } => (*lightness, *chroma, *hue, *alpha),
            Color::Oklaba { lightness, a, b, alpha } => (*lightness, *a, *b, *alpha),
            Color::Oklcha { lightness, chroma, hue, alpha } => (*lightness, *chroma, *hue, *alpha),
            Color::Xyza { x, y, z, alpha } => (*x, *y, *z, *alpha),
        }
    }

    pub open spec fn wf(&self) -> bool {
        let (a, b, c, d) = self.components();
        a.wf() && b.wf() && c.wf() && d.wf()
    }

    /// `Space((n0:v0,n1:v1,n2:v2,alpha:v3))`
    #[verifier::opaque]
    pub open spec fn enc(&self) -> Seq<char> {
        let (a, b, c, d) = self.components();
        space_name(self.space()) + color_body(component_names(self.space()), a@, b@, c@, d@)
    }

    pub(crate) fn write(&self, out: &mut Vec<char>)
        ensures
            final(out)@ == old(out)@ + self.enc(),
    {
        match self {
            Color::Srgba { red, green, blue, alpha } => write_color(out, "Srgba", "red", "green", "blue", red, green, blue, alpha),
            Color::LinearRgba { red, green, blue, alpha } => write_color(out, "LinearRgba", "red", "green", "blue", red, green, blue, alpha),
            Color::Hsla { hue, saturation, lightness, alpha } => write_color(out, "Hsla", "hue", "saturation", "lightness", hue, saturation, lightness, alpha),
            Color::Hsva { hue, saturation, value, alpha } => write_color(out, "Hsva", "hue", "saturation", "value", hue, saturation, value, alpha),
            Color::Hwba { hue, whiteness, blackness, alpha } => write_color(out, "Hwba", "hue", "whiteness", "blackness", hue, whiteness, blackness, alpha),
            Color::Laba { lightness, a, b, alpha } => write_color(out, "Laba", "lightness", "a", "b", lightness, a, b, alpha),
            Color::Lcha { lightness, chroma, hue, alpha } => write_color(out, "Lcha", "lightness", "chroma", "hue", lightness, chroma, hue, alpha),
            Color::Oklaba { lightness, a, b, alpha } => write_color(out, "Oklaba", "lightness", "a", "b", lightness, a, b, alpha),
            Color::Oklcha { lightness, chroma, hue, alpha } => write_color(out, "Oklcha", "lightness", "chroma", "hue", lightness, chroma, hue, alpha),
            Color::Xyza { x, y, z, alpha } => write_color(out, "Xyza", "x", "y", "z", x, y, z, alpha),
        }
        proof {
            reveal(Color::enc);
        }
    }
}

fn write_color(
    out: &mut Vec<char>,
    space: &str,
    n0: &str,
    n1: &str,
    n2: &str,
    v0: &Scalar,
    v1: &Scalar,
    v2: &Scalar,
    v3: &Scalar,
)
    ensures
        final(out)@ == old(out)@ + space@ + color_body((n0@, n1@, n2@), v0@, v1@, v2@, v3@),
{
    push_str(out, space);
    out.push('(');
    out.push('(');
    push_str(out, n0);
    out.push(':');
    v0.write(out);
    out.push(',');
    push_str(out, n1);
    out.push(':');
    v1.write(out);
    out.push(',');
    push_str(out, n2);
    out.push(':');
    v2.write(out);
    out.push(',');
    push_str(out, "alpha");
    out.push(':');
    v3.write(out);
    out.push(')');
    out.push(')');
    proof {
        assert(final(out)@ =~= old(out)@ + space@ + color_body(
            (n0@, n1@, n2@),
            v0@,
            v1@,
            v2@,
            v3@,
        ));
    }
}

fn parse_color_body(s: &Vec<char>, i: usize, n0: &str, n1: &str, n2: &str) -> (r: Option<
    (Scalar, Scalar, Scalar, Scalar, usize),
>)
    requires
        i <= s@.len(),
    ensures
        r matches Some((a, b, c, d, e)) ==> a.wf() && b.wf() && c.wf() && d.wf() && i <= e
            <= s@.len(),
        forall|v0: Scalar, v1: Scalar, v2: Scalar, v3: Scalar|
            v0.wf() && v1.wf() && v2.wf() && v3.wf() && #[trigger] occurs_at(
                s@,
                i as int,
                color_body((n0@, n1@, n2@), v0@, v1@, v2@, v3@),
            ) ==> (r matches Some((a, b, c, d, e)) && a@ == v0@ && b@ == v1@ && c@ == v2@ && d@
                == v3@ && e == i + color_body((n0@, n1@, n2@), v0@, v1@, v2@, v3@).len()),
{
    let i = expect_char(s, i, '(')?;
    let i = expect_char(s, i, '(')?;
    let i = expect(s, i, n0)?;
    let i = expect_char(s, i, ':')?;
    let (a, i) = parse_scalar(s, i)?;
    let i = expect_char(s, i, ',')?;
    let i = expect(s, i, n1)?;
    let i = expect_char(s, i, ':')?;
    let (b, i) = parse_scalar(s, i)?;
    let i = expect_char(s, i, ',')?;
    let i = expect(s, i, n2)?;
    let i = expect_char(s, i, ':')?;
    let (c, i) = parse_scalar(s, i)?;
    let i = expect_char(s, i, ',')?;
    let i = expect(s, i, "alpha")?;
    let i = expect_char(s, i, ':')?;
    let (d, i) = parse_scalar(s, i)?;
    let i = expect_char(s, i, ')')?;
    let i = expect_char(s, i, ')')?;
    Some((a, b, c, d, i))
}

/// No name of a color space holds a parenthesis, and no two spaces share a name.
proof fn lemma_space_names()
    ensures
        forall|k: nat, j: int|
            k < 10 && 0 <= j < space_name(k).len() ==> #[trigger] space_name(k)[j] != '(',
        forall|k: nat| k < 10 ==> #[trigger] space_name(k).len() >= 1,
        forall|k1: nat, k2: nat|
            k1 < 10 && k2 < 10 && #[trigger] space_name(k1) == #[trigger] space_name(k2) ==> k1
                == k2,
{
    broadcast use vstd::string::group_string_axioms;

    reveal_strlit("Srgba");
    assert("Srgba"@[0] == 'S' && "Srgba"@[1] == 'r' && "Srgba"@[2] == 'g' && "Srgba"@[3] == 'b' && "Srgba"@[4] == 'a');
    reveal_strlit("LinearRgba");
    assert("LinearRgba"@[0] == 'L' && "LinearRgba"@[1] == 'i' && "LinearRgba"@[2] == 'n' && "LinearRgba"@[3] == 'e' && "LinearRgba"@[4] == 'a' && "LinearRgba"@[5] == 'r' && "LinearRgba"@[6] == 'R' && "LinearRgba"@[7] == 'g' && "LinearRgba"@[8] == 'b' && "LinearRgba"@[9] == 'a');
    reveal_strlit("Hsla");
    assert("Hsla"@[0] == 'H' && "Hsla"@[1] == 's' && "Hsla"@[2] == 'l' && "Hsla"@[3] == 'a');
    reveal_strlit("Hsva");
    assert("Hsva"@[0] == 'H' && "Hsva"@[1] == 's' && "Hsva"@[2] == 'v' && "Hsva"@[3] == 'a');
    reveal_strlit("Hwba");
    assert("Hwba"@[0] == 'H' && "Hwba"@[1] == 'w' && "Hwba"@[2] == 'b' && "Hwba"@[3] == 'a');
    reveal_strlit("Laba");
    assert("Laba"@[0] == 'L' && "Laba"@[1] == 'a' && "Laba"@[2] == 'b' && "Laba"@[3] == 'a');
    reveal_strlit("Lcha");
    assert("Lcha"@[0] == 'L' && "Lcha"@[1] == 'c' && "Lcha"@[2] == 'h' && "Lcha"@[3] == 'a');
    reveal_strlit("Oklaba");
    assert("Oklaba"@[0] == 'O' && "Oklaba"@[1] == 'k' && "Oklaba"@[2] == 'l' && "Oklaba"@[3] == 'a' && "Oklaba"@[4] == 'b' && "Oklaba"@[5] == 'a');
    reveal_strlit("Oklcha");
    assert("Oklcha"@[0] == 'O' && "Oklcha"@[1] == 'k' && "Oklcha"@[2] == 'l' && "Oklcha"@[3] == 'c' && "Oklcha"@[4] == 'h' && "Oklcha"@[5] == 'a');
    reveal_strlit("Xyza");
    assert("Xyza"@[0] == 'X' && "Xyza"@[1] == 'y' && "Xyza"@[2] == 'z' && "Xyza"@[3] == 'a');
}

/// The position of the color space named `name`.
fn space_of(name: &Vec<char>) -> (r: Option<usize>)
    ensures
        r matches Some(k) ==> k < 10 && name@ == space_name(k as nat),
        r is None ==> forall|k: nat| k < 10 ==> name@ != space_name(k),
{
    if same_text(name, "Srgba") {
        return Some(0);
    }
    if same_text(name, "LinearRgba") {
        return Some(1);
    }
    if same_text(name, "Hsla") {
        return Some(2);
    }
    if same_text(name, "Hsva") {
        return Some(3);
    }
    if same_text(name, "Hwba") {
        return Some(4);
    }
    if same_text(name, "Laba") {
        return Some(5);
    }
    if same_text(name, "Lcha") {
        return Some(6);
    }
    if same_text(name, "Oklaba") {
        return Some(7);
    }
    if same_text(name, "Oklcha") {
        return Some(8);
    }
    if same_text(name, "Xyza") {
        return Some(9);
    }
    None
}

fn names_of(k: usize) -> (r: (&'static str, &'static str, &'static str))
    requires
        k < 10,
    ensures
        (r.0@, r.1@, r.2@) == component_names(k as nat),
{
    if k == 0 {
        ("red", "green", "blue")
    } else if k == 1 {
        ("red", "green", "blue")
    } else if k == 2 {
        ("hue", "saturation", "lightness")
    } else if k == 3 {
        ("hue", "saturation", "value")
    } else if k == 4 {
        ("hue", "whiteness", "blackness")
    } else if k == 5 {
        ("lightness", "a", "b")
    } else if k == 6 {
        ("lightness", "chroma", "hue")
    } else if k == 7 {
        ("lightness", "a", "b")
    } else if k == 8 {
        ("lightness", "chroma", "hue")
    } else {
        ("x", "y", "z")
    }
}

fn color_of(k: usize, a: Scalar, b: Scalar, c: Scalar, d: Scalar) -> (r: Color)
    requires
        k < 10,
    ensures
        r.space() == k,
        r.components() == (a, b, c, d),
{
    if k == 0 {
        Color::Srgba { red: a, green: b, blue: c, alpha: d }
    } else if k == 1 {
        Color::LinearRgba { red: a, green: b, blue: c, alpha: d }
    } else if k == 2 {
        Color::Hsla { hue: a, saturation: b, lightness: c, alpha: d }
    } else if k == 3 {
        Color::Hsva { hue: a, saturation: b, value: c, alpha: d }
    } else if k == 4 {
        Color::Hwba { hue: a, whiteness: b, blackness: c, alpha: d }
    } else if k == 5 {
        Color::Laba { lightness: a, a: b, b: c, alpha: d }
    } else if k == 6 {
        Color::Lcha { lightness: a, chroma: b, hue: c, alpha: d }
    } else if k == 7 {
        Color::Oklaba { lightness: a, a: b, b: c, alpha: d }
    } else if k == 8 {
        Color::Oklcha { lightness: a, chroma: b, hue: c, alpha: d }
    } else {
        Color::Xyza { x: a, y: b, z: c, alpha: d }
    }
}

proof fn lemma_color_body_no_space(
    names: (Seq<char>, Seq<char>, Seq<char>),
    v0: Seq<char>,
    v1: Seq<char>,
    v2: Seq<char>,
    v3: Seq<char>,
)
    requires
        no_space(names.0) && no_space(names.1) && no_space(names.2),
        no_space(v0) && no_space(v1) && no_space(v2) && no_space(v3),
    ensures
        no_space(color_body(names, v0, v1, v2, v3)),
{
    reveal_strlit("alpha");
    assert(no_space("alpha"@));
}

pub proof fn lemma_color_no_space(c: Color)
    requires
        c.wf(),
    ensures
        no_space(c.enc()),
{
    reveal(Color::enc);
    let (a, b, x, d) = c.components();
    lemma_number_no_space(a@);
    lemma_number_no_space(b@);
    lemma_number_no_space(x@);
    lemma_number_no_space(d@);
    let k = c.space();
    match c {
        Color::Srgba { .. } => {
            reveal_strlit("Srgba");
            reveal_strlit("red");
            reveal_strlit("green");
            reveal_strlit("blue");
            assert(no_space("Srgba"@));
            assert(no_space("red"@));
            assert(no_space("green"@));
            assert(no_space("blue"@));
        },
        Color::LinearRgba { .. } => {
            reveal_strlit("LinearRgba");
            reveal_strlit("red");
            reveal_strlit("green");
            reveal_strlit("blue");
            assert(no_space("LinearRgba"@));
            assert(no_space("red"@));
            assert(no_space("green"@));
            assert(no_space("blue"@));
        },
        Color::Hsla { .. } => {
            reveal_strlit("Hsla");
            reveal_strlit("hue");
            reveal_strlit("saturation");
            reveal_strlit("lightness");
            assert(no_space("Hsla"@));
            assert(no_space("hue"@));
            assert(no_space("saturation"@));
            assert(no_space("lightness"@));
        },
        Color::Hsva { .. } => {
            reveal_strlit("Hsva");
            reveal_strlit("hue");
            reveal_strlit("saturation");
            reveal_strlit("value");
            assert(no_space("Hsva"@));
            assert(no_space("hue"@));
            assert(no_space("saturation"@));
            assert(no_space("value"@));
        },
        Color::Hwba { .. } => {
            reveal_strlit("Hwba");
            reveal_strlit("hue");
            reveal_strlit("whiteness");
            reveal_strlit("blackness");
            assert(no_space("Hwba"@));
            assert(no_space("hue"@));
            assert(no_space("whiteness"@));
            assert(no_space("blackness"@));
        },
        Color::Laba { .. } => {
            reveal_strlit("Laba");
            reveal_strlit("lightness");
            reveal_strlit("a");
            reveal_strlit("b");
            assert(no_space("Laba"@));
            assert(no_space("lightness"@));
            assert(no_space("a"@));
            assert(no_space("b"@));
        },
        Color::Lcha { .. } => {
            reveal_strlit("Lcha");
            reveal_strlit("lightness");
            reveal_strlit("chroma");
            reveal_strlit("hue");
            assert(no_space("Lcha"@));
            assert(no_space("lightness"@));
            assert(no_space("chroma"@));
            assert(no_space("hue"@));
        },
        Color::Oklaba { .. } => {
            reveal_strlit("Oklaba");
            reveal_strlit("lightness");
            reveal_strlit("a");
            reveal_strlit("b");
            assert(no_space("Oklaba"@));
            assert(no_space("lightness"@));
            assert(no_space("a"@));
            assert(no_space("b"@));
        },
        Color::Oklcha { .. } => {
            reveal_strlit("Oklcha");
            reveal_strlit("lightness");
            reveal_strlit("chroma");
            reveal_strlit("hue");
            assert(no_space("Oklcha"@));
            assert(no_space("lightness"@));
            assert(no_space("chroma"@));
            assert(no_space("hue"@));
        },
        Color::Xyza { .. } => {
            reveal_strlit("Xyza");
            reveal_strlit("x");
            reveal_strlit("y");
            reveal_strlit("z");
            assert(no_space("Xyza"@));
            assert(no_space("x"@));
            assert(no_space("y"@));
            assert(no_space("z"@));
        },
    }
    lemma_color_body_no_space(component_names(k), a@, b@, x@, d@);
}

pub(crate) fn parse_color(s: &Vec<char>, i: usize) -> (r: Option<(Color, usize)>)
    requires
        i <= s@.len(),
    ensures
        r matches Some((v, e)) ==> v.wf() && i <= e <= s@.len(),
        forall|w: Color|
            w.wf() && #[trigger] occurs_at(s@, i as int, w.enc()) ==> (r matches Some((v, e))
                && v.enc() == w.enc() && v@ == w@ && e == i + w.enc().len()),
{
    reveal(Color::enc);
    let k = scan_to(s, i, '(');
    let name = slice_chars(s, i, k);
    proof {
        lemma_space_names();
        assert forall|w: Color| w.wf() && #[trigger] occurs_at(s@, i as int, w.enc()) implies k == i
            + space_name(w.space()).len() && name@ == space_name(w.space()) by {
            let t = space_name(w.space());
            if k < i + t.len() {
                assert(s@[k as int] == t[k - i]);
            }
            if k > i + t.len() {
                assert(s@[i + t.len()] == '(');
            }
        }
    }
    let sp = space_of(&name)?;
    let (n0, n1, n2) = names_of(sp);
    let (a, b, c, d, e) = parse_color_body(s, k, n0, n1, n2)?;
    Some((color_of(sp, a, b, c, d), e))
}

} // verus!
