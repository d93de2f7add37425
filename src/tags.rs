//! The names of the command variants, and how a text's leading name tells its
//! variant.

use vstd::prelude::*;
use crate::command::GizmoCommand;
use crate::text::{lemma_occurs_trans, occurs_at, one, same_text};

verus! {

/// The name of variant number `k`, in the order of [`GizmoCommand`]'s variants.
pub open spec fn tag_name(k: nat) -> Seq<char> {
    if k == 0 {
        "Arc2d"@
    } else if k == 1 {
        "Arc3d"@
    } else if k == 2 {
        "Arrow"@
    } else if k == 3 {
        "Arrow2d"@
    } else if k == 4 {
        "Axes"@
    } else if k == 5 {
        "Axes2d"@
    } else if k == 6 {
        "Circle"@
    } else if k == 7 {
        "Circle2d"@
    } else if k == 8 {
        "Cuboid"@
    } else if k == 9 {
        "Ellipse"@
    } else if k == 10 {
        "Ellipse2d"@
    } else if k == 11 {
        "Grid"@
    } else if k == 12 {
        "Grid2d"@
    } else if k == 13 {
        "Grid3d"@
    } else if k == 14 {
        "Line"@
    } else if k == 15 {
        "Line2d"@
    } else if k == 16 {
        "LineGradient"@
    } else if k == 17 {
        "LineGradient2d"@
    } else if k == 18 {
        "Linestrip"@
    } else if k == 19 {
        "Linestrip2d"@
    } else if k == 20 {
        "LinestripGradient"@
    } else if k == 21 {
        "LinestripGradient2d"@
    } else if k == 22 {
        "LongArc3dBetween"@
    } else if k == 23 {
        "Ray"@
    } else if k == 24 {
        "Ray2d"@
    } else if k == 25 {
        "RayGradient"@
    } else if k == 26 {
        "RayGradient2d"@
    } else if k == 27 {
        "Rect"@
    } else if k == 28 {
        "Rect2d"@
    } else if k == 29 {
        "RoundedCuboid"@
    } else if k == 30 {
        "RoundedRect"@
    } else if k == 31 {
        "RoundedRect2d"@
    } else if k == 32 {
        "ShortArc3dBetween"@
    } else {
        "Sphere"@
    }
}

/// The position of the variant whose name is `t`, told by its length and a
/// few of its characters.
pub open spec fn name_kind(t: Seq<char>) -> nat {
    if t.len() == 5 && t[2] == 'c' && t[3] == '2' {
        0
    } else if t.len() == 5 && t[3] == '3' {
        1
    } else if t.len() == 5 && t[2] == 'r' {
        2
    } else if t.len() == 7 && t[0] == 'A' {
        3
    } else if t.len() == 4 && t[0] == 'A' {
        4
    } else if t.len() == 6 && t[0] == 'A' {
        5
    } else if t.len() == 6 && t[2] == 'r' {
        6
    } else if t.len() == 8 {
        7
    } else if t.len() == 6 && t[1] == 'u' {
        8
    } else if t.len() == 7 && t[0] == 'E' {
        9
    } else if t.len() == 9 && t[0] == 'E' {
        10
    } else if t.len() == 4 && t[0] == 'G' {
        11
    } else if t.len() == 6 && t[0] == 'G' && t[4] == '2' {
        12
    } else if t.len() == 6 && t[4] == '3' {
        13
    } else if t.len() == 4 && t[0] == 'L' {
        14
    } else if t.len() == 6 && t[0] == 'L' {
        15
    } else if t.len() == 12 {
        16
    } else if t.len() == 14 {
        17
    } else if t.len() == 9 && t[0] == 'L' {
        18
    } else if t.len() == 11 && t[0] == 'L' {
        19
    } else if t.len() == 17 && t[0] == 'L' {
        20
    } else if t.len() == 19 {
        21
    } else if t.len() == 16 {
        22
    } else if t.len() == 3 {
        23
    } else if t.len() == 5 && t[0] == 'R' {
        24
    } else if t.len() == 11 && t[1] == 'a' {
        25
    } else if t.len() == 13 && t[1] == 'a' {
        26
    } else if t.len() == 4 && t[0] == 'R' {
        27
    } else if t.len() == 6 && t[0] == 'R' {
        28
    } else if t.len() == 13 && t[7] == 'C' {
        29
    } else if t.len() == 11 && t[1] == 'o' {
        30
    } else if t.len() == 13 && t[7] == 'R' {
        31
    } else if t.len() == 17 && t[0] == 'S' {
        32
    } else if t.len() == 6 && t[0] == 'S' {
        33
    } else {
        34
    }
}

/// No variant name holds a parenthesis, and no two variants share a name.
proof fn lemma_tag_names()
    ensures
        forall|k: nat, j: int|
            k < 34 && 0 <= j < tag_name(k).len() ==> #[trigger] tag_name(k)[j] != '(',
        forall|k: nat| k < 34 ==> #[trigger] tag_name(k).len() >= 1,
        forall|k1: nat, k2: nat|
            k1 < 34 && k2 < 34 && #[trigger] tag_name(k1) == #[trigger] tag_name(k2) ==> k1
                == k2,
{
    broadcast use vstd::string::group_string_axioms;

    reveal_strlit("Arc2d");
    assert("Arc2d"@[0] == 'A' && "Arc2d"@[1] == 'r' && "Arc2d"@[2] == 'c' && "Arc2d"@[3] == '2' && "Arc2d"@[4] == 'd');
    reveal_strlit("Arc3d");
    assert("Arc3d"@[0] == 'A' && "Arc3d"@[1] == 'r' && "Arc3d"@[2] == 'c' && "Arc3d"@[3] == '3' && "Arc3d"@[4] == 'd');
    reveal_strlit("Arrow");
    assert("Arrow"@[0] == 'A' && "Arrow"@[1] == 'r' && "Arrow"@[2] == 'r' && "Arrow"@[3] == 'o' && "Arrow"@[4] == 'w');
    reveal_strlit("Arrow2d");
    assert("Arrow2d"@[0] == 'A' && "Arrow2d"@[1] == 'r' && "Arrow2d"@[2] == 'r' && "Arrow2d"@[3] == 'o' && "Arrow2d"@[4] == 'w' && "Arrow2d"@[5] == '2' && "Arrow2d"@[6] == 'd');
    reveal_strlit("Axes");
    assert("Axes"@[0] == 'A' && "Axes"@[1] == 'x' && "Axes"@[2] == 'e' && "Axes"@[3] == 's');
    reveal_strlit("Axes2d");
    assert("Axes2d"@[0] == 'A' && "Axes2d"@[1] == 'x' && "Axes2d"@[2] == 'e' && "Axes2d"@[3] == 's' && "Axes2d"@[4] == '2' && "Axes2d"@[5] == 'd');
    reveal_strlit("Circle");
    assert("Circle"@[0] == 'C' && "Circle"@[1] == 'i' && "Circle"@[2] == 'r' && "Circle"@[3] == 'c' && "Circle"@[4] == 'l' && "Circle"@[5] == 'e');
    reveal_strlit("Circle2d");
    assert("Circle2d"@[0] == 'C' && "Circle2d"@[1] == 'i' && "Circle2d"@[2] == 'r' && "Circle2d"@[3] == 'c' && "Circle2d"@[4] == 'l' && "Circle2d"@[5] == 'e' && "Circle2d"@[6] == '2' && "Circle2d"@[7] == 'd');
    reveal_strlit("Cuboid");
    assert("Cuboid"@[0] == 'C' && "Cuboid"@[1] == 'u' && "Cuboid"@[2] == 'b' && "Cuboid"@[3] == 'o' && "Cuboid"@[4] == 'i' && "Cuboid"@[5] == 'd');
    reveal_strlit("Ellipse");
    assert("Ellipse"@[0] == 'E' && "Ellipse"@[1] == 'l' && "Ellipse"@[2] == 'l' && "Ellipse"@[3] == 'i' && "Ellipse"@[4] == 'p' && "Ellipse"@[5] == 's' && "Ellipse"@[6] == 'e');
    reveal_strlit("Ellipse2d");
    assert("Ellipse2d"@[0] == 'E' && "Ellipse2d"@[1] == 'l' && "Ellipse2d"@[2] == 'l' && "Ellipse2d"@[3] == 'i' && "Ellipse2d"@[4] == 'p' && "Ellipse2d"@[5] == 's' && "Ellipse2d"@[6] == 'e' && "Ellipse2d"@[7] == '2' && "Ellipse2d"@[8] == 'd');
    reveal_strlit("Grid");
    assert("Grid"@[0] == 'G' && "Grid"@[1] == 'r' && "Grid"@[2] == 'i' && "Grid"@[3] == 'd');
    reveal_strlit("Grid2d");
    assert("Grid2d"@[0] == 'G' && "Grid2d"@[1] == 'r' && "Grid2d"@[2] == 'i' && "Grid2d"@[3] == 'd' && "Grid2d"@[4] == '2' && "Grid2d"@[5] == 'd');
    reveal_strlit("Grid3d");
    assert("Grid3d"@[0] == 'G' && "Grid3d"@[1] == 'r' && "Grid3d"@[2] == 'i' && "Grid3d"@[3] == 'd' && "Grid3d"@[4] == '3' && "Grid3d"@[5] == 'd');
    reveal_strlit("Line");
    assert("Line"@[0] == 'L' && "Line"@[1] == 'i' && "Line"@[2] == 'n' && "Line"@[3] == 'e');
    reveal_strlit("Line2d");
    assert("Line2d"@[0] == 'L' && "Line2d"@[1] == 'i' && "Line2d"@[2] == 'n' && "Line2d"@[3] == 'e' && "Line2d"@[4] == '2' && "Line2d"@[5] == 'd');
    reveal_strlit("LineGradient");
    assert("LineGradient"@[0] == 'L' && "LineGradient"@[1] == 'i' && "LineGradient"@[2] == 'n' && "LineGradient"@[3] == 'e' && "LineGradient"@[4] == 'G' && "LineGradient"@[5] == 'r' && "LineGradient"@[6] == 'a' && "LineGradient"@[7] == 'd' && "LineGradient"@[8] == 'i' && "LineGradient"@[9] == 'e' && "LineGradient"@[10] == 'n' && "LineGradient"@[11] == 't');
    reveal_strlit("LineGradient2d");
    assert("LineGradient2d"@[0] == 'L' && "LineGradient2d"@[1] == 'i' && "LineGradient2d"@[2] == 'n' && "LineGradient2d"@[3] == 'e' && "LineGradient2d"@[4] == 'G' && "LineGradient2d"@[5] == 'r' && "LineGradient2d"@[6] == 'a' && "LineGradient2d"@[7] == 'd' && "LineGradient2d"@[8] == 'i' && "LineGradient2d"@[9] == 'e' && "LineGradient2d"@[10] == 'n' && "LineGradient2d"@[11] == 't' && "LineGradient2d"@[12] == '2' && "LineGradient2d"@[13] == 'd');
    reveal_strlit("Linestrip");
    assert("Linestrip"@[0] == 'L' && "Linestrip"@[1] == 'i' && "Linestrip"@[2] == 'n' && "Linestrip"@[3] == 'e' && "Linestrip"@[4] == 's' && "Linestrip"@[5] == 't' && "Linestrip"@[6] == 'r' && "Linestrip"@[7] == 'i' && "Linestrip"@[8] == 'p');
    reveal_strlit("Linestrip2d");
    assert("Linestrip2d"@[0] == 'L' && "Linestrip2d"@[1] == 'i' && "Linestrip2d"@[2] == 'n' && "Linestrip2d"@[3] == 'e' && "Linestrip2d"@[4] == 's' && "Linestrip2d"@[5] == 't' && "Linestrip2d"@[6] == 'r' && "Linestrip2d"@[7] == 'i' && "Linestrip2d"@[8] == 'p' && "Linestrip2d"@[9] == '2' && "Linestrip2d"@[10] == 'd');
    reveal_strlit("LinestripGradient");
    assert("LinestripGradient"@[0] == 'L' && "LinestripGradient"@[1] == 'i' && "LinestripGradient"@[2] == 'n' && "LinestripGradient"@[3] == 'e' && "LinestripGradient"@[4] == 's' && "LinestripGradient"@[5] == 't' && "LinestripGradient"@[6] == 'r' && "LinestripGradient"@[7] == 'i' && "LinestripGradient"@[8] == 'p' && "LinestripGradient"@[9] == 'G' && "LinestripGradient"@[10] == 'r' && "LinestripGradient"@[11] == 'a' && "LinestripGradient"@[12] == 'd' && "LinestripGradient"@[13] == 'i' && "LinestripGradient"@[14] == 'e' && "LinestripGradient"@[15] == 'n' && "LinestripGradient"@[16] == 't');
    reveal_strlit("LinestripGradient2d");
    assert("LinestripGradient2d"@[0] == 'L' && "LinestripGradient2d"@[1] == 'i' && "LinestripGradient2d"@[2] == 'n' && "LinestripGradient2d"@[3] == 'e' && "LinestripGradient2d"@[4] == 's' && "LinestripGradient2d"@[5] == 't' && "LinestripGradient2d"@[6] == 'r' && "LinestripGradient2d"@[7] == 'i' && "LinestripGradient2d"@[8] == 'p' && "LinestripGradient2d"@[9] == 'G' && "LinestripGradient2d"@[10] == 'r' && "LinestripGradient2d"@[11] == 'a' && "LinestripGradient2d"@[12] == 'd' && "LinestripGradient2d"@[13] == 'i' && "LinestripGradient2d"@[14] == 'e' && "LinestripGradient2d"@[15] == 'n' && "LinestripGradient2d"@[16] == 't' && "LinestripGradient2d"@[17] == '2' && "LinestripGradient2d"@[18] == 'd');
    reveal_strlit("LongArc3dBetween");
    assert("LongArc3dBetween"@[0] == 'L' && "LongArc3dBetween"@[1] == 'o' && "LongArc3dBetween"@[2] == 'n' && "LongArc3dBetween"@[3] == 'g' && "LongArc3dBetween"@[4] == 'A' && "LongArc3dBetween"@[5] == 'r' && "LongArc3dBetween"@[6] == 'c' && "LongArc3dBetween"@[7] == '3' && "LongArc3dBetween"@[8] == 'd' && "LongArc3dBetween"@[9] == 'B' && "LongArc3dBetween"@[10] == 'e' && "LongArc3dBetween"@[11] == 't' && "LongArc3dBetween"@[12] == 'w' && "LongArc3dBetween"@[13] == 'e' && "LongArc3dBetween"@[14] == 'e' && "LongArc3dBetween"@[15] == 'n');
    reveal_strlit("Ray");
    assert("Ray"@[0] == 'R' && "Ray"@[1] == 'a' && "Ray"@[2] == 'y');
    reveal_strlit("Ray2d");
    assert("Ray2d"@[0] == 'R' && "Ray2d"@[1] == 'a' && "Ray2d"@[2] == 'y' && "Ray2d"@[3] == '2' && "Ray2d"@[4] == 'd');
    reveal_strlit("RayGradient");
    assert("RayGradient"@[0] == 'R' && "RayGradient"@[1] == 'a' && "RayGradient"@[2] == 'y' && "RayGradient"@[3] == 'G' && "RayGradient"@[4] == 'r' && "RayGradient"@[5] == 'a' && "RayGradient"@[6] == 'd' && "RayGradient"@[7] == 'i' && "RayGradient"@[8] == 'e' && "RayGradient"@[9] == 'n' && "RayGradient"@[10] == 't');
    reveal_strlit("RayGradient2d");
    assert("RayGradient2d"@[0] == 'R' && "RayGradient2d"@[1] == 'a' && "RayGradient2d"@[2] == 'y' && "RayGradient2d"@[3] == 'G' && "RayGradient2d"@[4] == 'r' && "RayGradient2d"@[5] == 'a' && "RayGradient2d"@[6] == 'd' && "RayGradient2d"@[7] == 'i' && "RayGradient2d"@[8] == 'e' && "RayGradient2d"@[9] == 'n' && "RayGradient2d"@[10] == 't' && "RayGradient2d"@[11] == '2' && "RayGradient2d"@[12] == 'd');
    reveal_strlit("Rect");
    assert("Rect"@[0] == 'R' && "Rect"@[1] == 'e' && "Rect"@[2] == 'c' && "Rect"@[3] == 't');
    reveal_strlit("Rect2d");
    assert("Rect2d"@[0] == 'R' && "Rect2d"@[1] == 'e' && "Rect2d"@[2] == 'c' && "Rect2d"@[3] == 't' && "Rect2d"@[4] == '2' && "Rect2d"@[5] == 'd');
    reveal_strlit("RoundedCuboid");
    assert("RoundedCuboid"@[0] == 'R' && "RoundedCuboid"@[1] == 'o' && "RoundedCuboid"@[2] == 'u' && "RoundedCuboid"@[3] == 'n' && "RoundedCuboid"@[4] == 'd' && "RoundedCuboid"@[5] == 'e' && "RoundedCuboid"@[6] == 'd' && "RoundedCuboid"@[7] == 'C' && "RoundedCuboid"@[8] == 'u' && "RoundedCuboid"@[9] == 'b' && "RoundedCuboid"@[10] == 'o' && "RoundedCuboid"@[11] == 'i' && "RoundedCuboid"@[12] == 'd');
    reveal_strlit("RoundedRect");
    assert("RoundedRect"@[0] == 'R' && "RoundedRect"@[1] == 'o' && "RoundedRect"@[2] == 'u' && "RoundedRect"@[3] == 'n' && "RoundedRect"@[4] == 'd' && "RoundedRect"@[5] == 'e' && "RoundedRect"@[6] == 'd' && "RoundedRect"@[7] == 'R' && "RoundedRect"@[8] == 'e' && "RoundedRect"@[9] == 'c' && "RoundedRect"@[10] == 't');
    reveal_strlit("RoundedRect2d");
    assert("RoundedRect2d"@[0] == 'R' && "RoundedRect2d"@[1] == 'o' && "RoundedRect2d"@[2] == 'u' && "RoundedRect2d"@[3] == 'n' && "RoundedRect2d"@[4] == 'd' && "RoundedRect2d"@[5] == 'e' && "RoundedRect2d"@[6] == 'd' && "RoundedRect2d"@[7] == 'R' && "RoundedRect2d"@[8] == 'e' && "RoundedRect2d"@[9] == 'c' && "RoundedRect2d"@[10] == 't' && "RoundedRect2d"@[11] == '2' && "RoundedRect2d"@[12] == 'd');
    reveal_strlit("ShortArc3dBetween");
    assert("ShortArc3dBetween"@[0] == 'S' && "ShortArc3dBetween"@[1] == 'h' && "ShortArc3dBetween"@[2] == 'o' && "ShortArc3dBetween"@[3] == 'r' && "ShortArc3dBetween"@[4] == 't' && "ShortArc3dBetween"@[5] == 'A' && "ShortArc3dBetween"@[6] == 'r' && "ShortArc3dBetween"@[7] == 'c' && "ShortArc3dBetween"@[8] == '3' && "ShortArc3dBetween"@[9] == 'd' && "ShortArc3dBetween"@[10] == 'B' && "ShortArc3dBetween"@[11] == 'e' && "ShortArc3dBetween"@[12] == 't' && "ShortArc3dBetween"@[13] == 'w' && "ShortArc3dBetween"@[14] == 'e' && "ShortArc3dBetween"@[15] == 'e' && "ShortArc3dBetween"@[16] == 'n');
    reveal_strlit("Sphere");
    assert("Sphere"@[0] == 'S' && "Sphere"@[1] == 'p' && "Sphere"@[2] == 'h' && "Sphere"@[3] == 'e' && "Sphere"@[4] == 'r' && "Sphere"@[5] == 'e');
    assert forall|k: nat| k < 34 implies #[trigger] name_kind(tag_name(k)) == k by {
        if k == 0 {
            assert(name_kind("Arc2d"@) == 0);
        } else if k == 1 {
            assert(name_kind("Arc3d"@) == 1);
        } else if k == 2 {
            assert(name_kind("Arrow"@) == 2);
        } else if k == 3 {
            assert(name_kind("Arrow2d"@) == 3);
        } else if k == 4 {
            assert(name_kind("Axes"@) == 4);
        } else if k == 5 {
            assert(name_kind("Axes2d"@) == 5);
        } else if k == 6 {
            assert(name_kind("Circle"@) == 6);
        } else if k == 7 {
            assert(name_kind("Circle2d"@) == 7);
        } else if k == 8 {
            assert(name_kind("Cuboid"@) == 8);
        } else if k == 9 {
            assert(name_kind("Ellipse"@) == 9);
        } else if k == 10 {
            assert(name_kind("Ellipse2d"@) == 10);
        } else if k == 11 {
            assert(name_kind("Grid"@) == 11);
        } else if k == 12 {
            assert(name_kind("Grid2d"@) == 12);
        } else if k == 13 {
            assert(name_kind("Grid3d"@) == 13);
        } else if k == 14 {
            assert(name_kind("Line"@) == 14);
        } else if k == 15 {
            assert(name_kind("Line2d"@) == 15);
        } else if k == 16 {
            assert(name_kind("LineGradient"@) == 16);
        } else if k == 17 {
            assert(name_kind("LineGradient2d"@) == 17);
        } else if k == 18 {
            assert(name_kind("Linestrip"@) == 18);
        } else if k == 19 {
            assert(name_kind("Linestrip2d"@) == 19);
        } else if k == 20 {
            assert(name_kind("LinestripGradient"@) == 20);
        } else if k == 21 {
            assert(name_kind("LinestripGradient2d"@) == 21);
        } else if k == 22 {
            assert(name_kind("LongArc3dBetween"@) == 22);
        } else if k == 23 {
            assert(name_kind("Ray"@) == 23);
        } else if k == 24 {
            assert(name_kind("Ray2d"@) == 24);
        } else if k == 25 {
            assert(name_kind("RayGradient"@) == 25);
        } else if k == 26 {
            assert(name_kind("RayGradient2d"@) == 26);
        } else if k == 27 {
            assert(name_kind("Rect"@) == 27);
        } else if k == 28 {
            assert(name_kind("Rect2d"@) == 28);
        } else if k == 29 {
            assert(name_kind("RoundedCuboid"@) == 29);
        } else if k == 30 {
            assert(name_kind("RoundedRect"@) == 30);
        } else if k == 31 {
            assert(name_kind("RoundedRect2d"@) == 31);
        } else if k == 32 {
            assert(name_kind("ShortArc3dBetween"@) == 32);
        } else if k == 33 {
            assert(name_kind("Sphere"@) == 33);
        }
    }
    assert forall|k1: nat, k2: nat|
        k1 < 34 && k2 < 34 && #[trigger] tag_name(k1) == #[trigger] tag_name(k2) implies k1 == k2 by {
        assert(name_kind(tag_name(k1)) == k1);
        assert(name_kind(tag_name(k2)) == k2);
    }
}

/// The text of a command starts with its variant's name and a parenthesis.
proof fn lemma_enc_starts(c: GizmoCommand)
    ensures
        occurs_at(c.enc(), 0, tag_name(c.kind()) + one('(')),
{
    match c {
        GizmoCommand::Arc2d { .. } => lemma_arc_2d_starts(c),
        GizmoCommand::Arc3d { .. } => lemma_arc_3d_starts(c),
        GizmoCommand::Arrow { .. } => lemma_arrow_starts(c),
        GizmoCommand::Arrow2d { .. } => lemma_arrow_2d_starts(c),
        GizmoCommand::Axes { .. } => lemma_axes_starts(c),
        GizmoCommand::Axes2d { .. } => lemma_axes_2d_starts(c),
        GizmoCommand::Circle { .. } => lemma_circle_starts(c),
        GizmoCommand::Circle2d { .. } => lemma_circle_2d_starts(c),
        GizmoCommand::Cuboid { .. } => lemma_cuboid_starts(c),
        GizmoCommand::Ellipse { .. } => lemma_ellipse_starts(c),
        GizmoCommand::Ellipse2d { .. } => lemma_ellipse_2d_starts(c),
        GizmoCommand::Grid { .. } => lemma_grid_starts(c),
        GizmoCommand::Grid2d { .. } => lemma_grid_2d_starts(c),
        GizmoCommand::Grid3d { .. } => lemma_grid_3d_starts(c),
        GizmoCommand::Line { .. } => lemma_line_starts(c),
        GizmoCommand::Line2d { .. } => lemma_line_2d_starts(c),
        GizmoCommand::LineGradient { .. } => lemma_line_gradient_starts(c),
        GizmoCommand::LineGradient2d { .. } => lemma_line_gradient_2d_starts(c),
        GizmoCommand::Linestrip { .. } => lemma_linestrip_starts(c),
        GizmoCommand::Linestrip2d { .. } => lemma_linestrip_2d_starts(c),
        GizmoCommand::LinestripGradient { .. } => lemma_linestrip_gradient_starts(c),
        GizmoCommand::LinestripGradient2d { .. } => lemma_linestrip_gradient_2d_starts(c),
        GizmoCommand::LongArc3dBetween { .. } => lemma_long_arc_3d_between_starts(c),
        GizmoCommand::Ray { .. } => lemma_ray_starts(c),
        GizmoCommand::Ray2d { .. } => lemma_ray_2d_starts(c),
        GizmoCommand::RayGradient { .. } => lemma_ray_gradient_starts(c),
        GizmoCommand::RayGradient2d { .. } => lemma_ray_gradient_2d_starts(c),
        GizmoCommand::Rect { .. } => lemma_rect_starts(c),
        GizmoCommand::Rect2d { .. } => lemma_rect_2d_starts(c),
        GizmoCommand::RoundedCuboid { .. } => lemma_rounded_cuboid_starts(c),
        GizmoCommand::RoundedRect { .. } => lemma_rounded_rect_starts(c),
        GizmoCommand::RoundedRect2d { .. } => lemma_rounded_rect_2d_starts(c),
        GizmoCommand::ShortArc3dBetween { .. } => lemma_short_arc_3d_between_starts(c),
        GizmoCommand::Sphere { .. } => lemma_sphere_starts(c),
    }
}

proof fn lemma_arc_2d_starts(c: GizmoCommand)
    requires
        c is Arc2d,
    ensures
        occurs_at(c.enc(), 0, tag_name(c.kind()) + one('(')),
{
    let n = "Arc2d"@.len() + 1;
    assert(c.enc().subrange(0, n as int) =~= "Arc2d"@ + one('('));
}

proof fn lemma_arc_3d_starts(c: GizmoCommand)
    requires
        c is Arc3d,
    ensures
        occurs_at(c.enc(), 0, tag_name(c.kind()) + one('(')),
{
    let n = "Arc3d"@.len() + 1;
    assert(c.enc().subrange(0, n as int) =~= "Arc3d"@ + one('('));
}

proof fn lemma_arrow_starts(c: GizmoCommand)
    requires
        c is Arrow,
    ensures
        occurs_at(c.enc(), 0, tag_name(c.kind()) + one('(')),
{
    let n = "Arrow"@.len() + 1;
    assert(c.enc().subrange(0, n as int) =~= "Arrow"@ + one('('));
}

proof fn lemma_arrow_2d_starts(c: GizmoCommand)
    requires
        c is Arrow2d,
    ensures
        occurs_at(c.enc(), 0, tag_name(c.kind()) + one('(')),
{
    let n = "Arrow2d"@.len() + 1;
    assert(c.enc().subrange(0, n as int) =~= "Arrow2d"@ + one('('));
}

proof fn lemma_axes_starts(c: GizmoCommand)
    requires
        c is Axes,
    ensures
        occurs_at(c.enc(), 0, tag_name(c.kind()) + one('(')),
{
    let n = "Axes"@.len() + 1;
    assert(c.enc().subrange(0, n as int) =~= "Axes"@ + one('('));
}

proof fn lemma_axes_2d_starts(c: GizmoCommand)
    requires
        c is Axes2d,
    ensures
        occurs_at(c.enc(), 0, tag_name(c.kind()) + one('(')),
{
    let n = "Axes2d"@.len() + 1;
    assert(c.enc().subrange(0, n as int) =~= "Axes2d"@ + one('('));
}

proof fn lemma_circle_starts(c: GizmoCommand)
    requires
        c is Circle,
    ensures
        occurs_at(c.enc(), 0, tag_name(c.kind()) + one('(')),
{
    let n = "Circle"@.len() + 1;
    assert(c.enc().subrange(0, n as int) =~= "Circle"@ + one('('));
}

proof fn lemma_circle_2d_starts(c: GizmoCommand)
    requires
        c is Circle2d,
    ensures
        occurs_at(c.enc(), 0, tag_name(c.kind()) + one('(')),
{
    let n = "Circle2d"@.len() + 1;
    assert(c.enc().subrange(0, n as int) =~= "Circle2d"@ + one('('));
}

proof fn lemma_cuboid_starts(c: GizmoCommand)
    requires
        c is Cuboid,
    ensures
        occurs_at(c.enc(), 0, tag_name(c.kind()) + one('(')),
{
    let n = "Cuboid"@.len() + 1;
    assert(c.enc().subrange(0, n as int) =~= "Cuboid"@ + one('('));
}

proof fn lemma_ellipse_starts(c: GizmoCommand)
    requires
        c is Ellipse,
    ensures
        occurs_at(c.enc(), 0, tag_name(c.kind()) + one('(')),
{
    let n = "Ellipse"@.len() + 1;
    assert(c.enc().subrange(0, n as int) =~= "Ellipse"@ + one('('));
}

proof fn lemma_ellipse_2d_starts(c: GizmoCommand)
    requires
        c is Ellipse2d,
    ensures
        occurs_at(c.enc(), 0, tag_name(c.kind()) + one('(')),
{
    let n = "Ellipse2d"@.len() + 1;
    assert(c.enc().subrange(0, n as int) =~= "Ellipse2d"@ + one('('));
}

proof fn lemma_grid_starts(c: GizmoCommand)
    requires
        c is Grid,
    ensures
        occurs_at(c.enc(), 0, tag_name(c.kind()) + one('(')),
{
    let n = "Grid"@.len() + 1;
    assert(c.enc().subrange(0, n as int) =~= "Grid"@ + one('('));
}

proof fn lemma_grid_2d_starts(c: GizmoCommand)
    requires
        c is Grid2d,
    ensures
        occurs_at(c.enc(), 0, tag_name(c.kind()) + one('(')),
{
    let n = "Grid2d"@.len() + 1;
    assert(c.enc().subrange(0, n as int) =~= "Grid2d"@ + one('('));
}

proof fn lemma_grid_3d_starts(c: GizmoCommand)
    requires
        c is Grid3d,
    ensures
        occurs_at(c.enc(), 0, tag_name(c.kind()) + one('(')),
{
    let n = "Grid3d"@.len() + 1;
    assert(c.enc().subrange(0, n as int) =~= "Grid3d"@ + one('('));
}

proof fn lemma_line_starts(c: GizmoCommand)
    requires
        c is Line,
    ensures
        occurs_at(c.enc(), 0, tag_name(c.kind()) + one('(')),
{
    let n = "Line"@.len() + 1;
    assert(c.enc().subrange(0, n as int) =~= "Line"@ + one('('));
}

proof fn lemma_line_2d_starts(c: GizmoCommand)
    requires
        c is Line2d,
    ensures
        occurs_at(c.enc(), 0, tag_name(c.kind()) + one('(')),
{
    let n = "Line2d"@.len() + 1;
    assert(c.enc().subrange(0, n as int) =~= "Line2d"@ + one('('));
}

proof fn lemma_line_gradient_starts(c: GizmoCommand)
    requires
        c is LineGradient,
    ensures
        occurs_at(c.enc(), 0, tag_name(c.kind()) + one('(')),
{
    let n = "LineGradient"@.len() + 1;
    assert(c.enc().subrange(0, n as int) =~= "LineGradient"@ + one('('));
}

proof fn lemma_line_gradient_2d_starts(c: GizmoCommand)
    requires
        c is LineGradient2d,
    ensures
        occurs_at(c.enc(), 0, tag_name(c.kind()) + one('(')),
{
    let n = "LineGradient2d"@.len() + 1;
    assert(c.enc().subrange(0, n as int) =~= "LineGradient2d"@ + one('('));
}

proof fn lemma_linestrip_starts(c: GizmoCommand)
    requires
        c is Linestrip,
    ensures
        occurs_at(c.enc(), 0, tag_name(c.kind()) + one('(')),
{
    let n = "Linestrip"@.len() + 1;
    assert(c.enc().subrange(0, n as int) =~= "Linestrip"@ + one('('));
}

proof fn lemma_linestrip_2d_starts(c: GizmoCommand)
    requires
        c is Linestrip2d,
    ensures
        occurs_at(c.enc(), 0, tag_name(c.kind()) + one('(')),
{
    let n = "Linestrip2d"@.len() + 1;
    assert(c.enc().subrange(0, n as int) =~= "Linestrip2d"@ + one('('));
}

proof fn lemma_linestrip_gradient_starts(c: GizmoCommand)
    requires
        c is LinestripGradient,
    ensures
        occurs_at(c.enc(), 0, tag_name(c.kind()) + one('(')),
{
    let n = "LinestripGradient"@.len() + 1;
    assert(c.enc().subrange(0, n as int) =~= "LinestripGradient"@ + one('('));
}

proof fn lemma_linestrip_gradient_2d_starts(c: GizmoCommand)
    requires
        c is LinestripGradient2d,
    ensures
        occurs_at(c.enc(), 0, tag_name(c.kind()) + one('(')),
{
    let n = "LinestripGradient2d"@.len() + 1;
    assert(c.enc().subrange(0, n as int) =~= "LinestripGradient2d"@ + one('('));
}

proof fn lemma_long_arc_3d_between_starts(c: GizmoCommand)
    requires
        c is LongArc3dBetween,
    ensures
        occurs_at(c.enc(), 0, tag_name(c.kind()) + one('(')),
{
    let n = "LongArc3dBetween"@.len() + 1;
    assert(c.enc().subrange(0, n as int) =~= "LongArc3dBetween"@ + one('('));
}

proof fn lemma_ray_starts(c: GizmoCommand)
    requires
        c is Ray,
    ensures
        occurs_at(c.enc(), 0, tag_name(c.kind()) + one('(')),
{
    let n = "Ray"@.len() + 1;
    assert(c.enc().subrange(0, n as int) =~= "Ray"@ + one('('));
}

proof fn lemma_ray_2d_starts(c: GizmoCommand)
    requires
        c is Ray2d,
    ensures
        occurs_at(c.enc(), 0, tag_name(c.kind()) + one('(')),
{
    let n = "Ray2d"@.len() + 1;
    assert(c.enc().subrange(0, n as int) =~= "Ray2d"@ + one('('));
}

proof fn lemma_ray_gradient_starts(c: GizmoCommand)
    requires
        c is RayGradient,
    ensures
        occurs_at(c.enc(), 0, tag_name(c.kind()) + one('(')),
{
    let n = "RayGradient"@.len() + 1;
    assert(c.enc().subrange(0, n as int) =~= "RayGradient"@ + one('('));
}

proof fn lemma_ray_gradient_2d_starts(c: GizmoCommand)
    requires
        c is RayGradient2d,
    ensures
        occurs_at(c.enc(), 0, tag_name(c.kind()) + one('(')),
{
    let n = "RayGradient2d"@.len() + 1;
    assert(c.enc().subrange(0, n as int) =~= "RayGradient2d"@ + one('('));
}

proof fn lemma_rect_starts(c: GizmoCommand)
    requires
        c is Rect,
    ensures
        occurs_at(c.enc(), 0, tag_name(c.kind()) + one('(')),
{
    let n = "Rect"@.len() + 1;
    assert(c.enc().subrange(0, n as int) =~= "Rect"@ + one('('));
}

proof fn lemma_rect_2d_starts(c: GizmoCommand)
    requires
        c is Rect2d,
    ensures
        occurs_at(c.enc(), 0, tag_name(c.kind()) + one('(')),
{
    let n = "Rect2d"@.len() + 1;
    assert(c.enc().subrange(0, n as int) =~= "Rect2d"@ + one('('));
}

proof fn lemma_rounded_cuboid_starts(c: GizmoCommand)
    requires
        c is RoundedCuboid,
    ensures
        occurs_at(c.enc(), 0, tag_name(c.kind()) + one('(')),
{
    let n = "RoundedCuboid"@.len() + 1;
    assert(c.enc().subrange(0, n as int) =~= "RoundedCuboid"@ + one('('));
}

proof fn lemma_rounded_rect_starts(c: GizmoCommand)
    requires
        c is RoundedRect,
    ensures
        occurs_at(c.enc(), 0, tag_name(c.kind()) + one('(')),
{
    let n = "RoundedRect"@.len() + 1;
    assert(c.enc().subrange(0, n as int) =~= "RoundedRect"@ + one('('));
}

proof fn lemma_rounded_rect_2d_starts(c: GizmoCommand)
    requires
        c is RoundedRect2d,
    ensures
        occurs_at(c.enc(), 0, tag_name(c.kind()) + one('(')),
{
    let n = "RoundedRect2d"@.len() + 1;
    assert(c.enc().subrange(0, n as int) =~= "RoundedRect2d"@ + one('('));
}

proof fn lemma_short_arc_3d_between_starts(c: GizmoCommand)
    requires
        c is ShortArc3dBetween,
    ensures
        occurs_at(c.enc(), 0, tag_name(c.kind()) + one('(')),
{
    let n = "ShortArc3dBetween"@.len() + 1;
    assert(c.enc().subrange(0, n as int) =~= "ShortArc3dBetween"@ + one('('));
}

proof fn lemma_sphere_starts(c: GizmoCommand)
    requires
        c is Sphere,
    ensures
        occurs_at(c.enc(), 0, tag_name(c.kind()) + one('(')),
{
    let n = "Sphere"@.len() + 1;
    assert(c.enc().subrange(0, n as int) =~= "Sphere"@ + one('('));
}



/// Where the text of a well-formed command stands at the start of `s`, the
/// variant name is all of `s` before its first parenthesis.
pub(crate) proof fn lemma_name_of_text(s: Seq<char>, c: GizmoCommand, k: int)
    requires
        occurs_at(s, 0, c.enc()),
        0 <= k <= s.len(),
        k < s.len() ==> s[k] == '(',
        forall|j: int| 0 <= j < k ==> s[j] != '(',
    ensures
        c.kind() < 34,
        k == tag_name(c.kind()).len(),
        s.subrange(0, k) == tag_name(c.kind()),
{
    lemma_tag_names();
    lemma_enc_starts(c);
    let t = tag_name(c.kind());
    let p = t + one('(');
    lemma_occurs_trans(s, 0, c.enc(), p);
    assert(s.subrange(0, p.len() as int) == p);
    if k < t.len() {
        assert(s.subrange(0, p.len() as int)[k] == s[k]);
        assert(p[k] == t[k]);
    }
    if k > t.len() {
        assert(s.subrange(0, p.len() as int)[t.len() as int] == s[t.len() as int]);
        assert(p[t.len() as int] == '(');
    }
    assert forall|j: int| 0 <= j < k implies #[trigger] s.subrange(0, k)[j] == t[j] by {
        assert(s.subrange(0, p.len() as int)[j] == s[j]);
        assert(p[j] == t[j]);
    }
    assert(s.subrange(0, k) =~= t);
}

/// The position of the variant named `name`.
pub(crate) fn kind_named(name: &Vec<char>) -> (r: Option<usize>)
    ensures
        r matches Some(k) ==> k < 34 && name@ == tag_name(k as nat),
        r is None ==> forall|k: nat| k < 34 ==> name@ != tag_name(k),
{
    if same_text(name, "Arc2d") {
        return Some(0);
    }
    if same_text(name, "Arc3d") {
        return Some(1);
    }
    if same_text(name, "Arrow") {
        return Some(2);
    }
    if same_text(name, "Arrow2d") {
        return Some(3);
    }
    if same_text(name, "Axes") {
        return Some(4);
    }
    if same_text(name, "Axes2d") {
        return Some(5);
    }
    if same_text(name, "Circle") {
        return Some(6);
    }
    if same_text(name, "Circle2d") {
        return Some(7);
    }
    if same_text(name, "Cuboid") {
        return Some(8);
    }
    if same_text(name, "Ellipse") {
        return Some(9);
    }
    if same_text(name, "Ellipse2d") {
        return Some(10);
    }
    if same_text(name, "Grid") {
        return Some(11);
    }
    if same_text(name, "Grid2d") {
        return Some(12);
    }
    if same_text(name, "Grid3d") {
        return Some(13);
    }
    if same_text(name, "Line") {
        return Some(14);
    }
    if same_text(name, "Line2d") {
        return Some(15);
    }
    if same_text(name, "LineGradient") {
        return Some(16);
    }
    if same_text(name, "LineGradient2d") {
        return Some(17);
    }
    if same_text(name, "Linestrip") {
        return Some(18);
    }
    if same_text(name, "Linestrip2d") {
        return Some(19);
    }
    if same_text(name, "LinestripGradient") {
        return Some(20);
    }
    if same_text(name, "LinestripGradient2d") {
        return Some(21);
    }
    if same_text(name, "LongArc3dBetween") {
        return Some(22);
    }
    if same_text(name, "Ray") {
        return Some(23);
    }
    if same_text(name, "Ray2d") {
        return Some(24);
    }
    if same_text(name, "RayGradient") {
        return Some(25);
    }
    if same_text(name, "RayGradient2d") {
        return Some(26);
    }
    if same_text(name, "Rect") {
        return Some(27);
    }
    if same_text(name, "Rect2d") {
        return Some(28);
    }
    if same_text(name, "RoundedCuboid") {
        return Some(29);
    }
    if same_text(name, "RoundedRect") {
        return Some(30);
    }
    if same_text(name, "RoundedRect2d") {
        return Some(31);
    }
    if same_text(name, "ShortArc3dBetween") {
        return Some(32);
    }
    if same_text(name, "Sphere") {
        return Some(33);
    }
    None
}

/// Variant names are told apart by the first parenthesis.
pub(crate) proof fn lemma_tag_injective(k1: nat, k2: nat)
    requires
        k1 < 34,
        k2 < 34,
        tag_name(k1) == tag_name(k2),
    ensures
        k1 == k2,
{
    lemma_tag_names();
}


} // verus!
