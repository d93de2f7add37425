//! Vectors, rotations, isometries and matrices, written the way `ron`
//! writes glam's and bevy's math types.

use vstd::prelude::*;
use crate::scalar::{lemma_number_no_space, parse_scalar, Scalar};
use crate::text::{
    closed_at, dec, expect, expect_char, lemma_dec_no_space, lemma_no_space_concat,
    lemma_occurs_concat, lemma_occurs_one, no_space, occurs_at, one, parse_count, push_str,
    write_count,
};

verus! {

broadcast use lemma_occurs_concat, lemma_occurs_one, lemma_no_space_concat, vstd::string::group_string_axioms;

/// A point or a direction in the plane.
#[derive(Clone, Debug, PartialEq)]
pub struct Vec2 {
    pub x: Scalar,
    pub y: Scalar,
}

impl View for Vec2 {
    type V = (Seq<char>, Seq<char>);

    open spec fn view(&self) -> (Seq<char>, Seq<char>) {
        (self.x@, self.y@)
    }
}

impl Vec2 {
    pub open spec fn wf(&self) -> bool {
        self.x.wf() && self.y.wf()
    }

    /// `(x,y)`
    pub open spec fn enc(&self) -> Seq<char> {
        one('(') + self.x@ + one(',') + self.y@ + one(')')
    }

    pub(crate) fn write(&self, out: &mut Vec<char>)
        ensures
            final(out)@ == old(out)@ + self.enc(),
    {
        out.push('(');
        self.x.write(out);
        out.push(',');
        self.y.write(out);
        out.push(')');
        proof {
            assert(final(out)@ =~= old(out)@ + self.enc());
        }
    }
}

pub(crate) fn parse_vec2(s: &Vec<char>, i: usize) -> (r: Option<(Vec2, usize)>)
    requires
        i <= s@.len(),
    ensures
        r matches Some((v, e)) ==> v.wf() && i <= e <= s@.len(),
        forall|w: Vec2|
            w.wf() && #[trigger] occurs_at(s@, i as int, w.enc()) ==> (r matches Some((v, e))
                && v.enc() == w.enc() && v@ == w@ && e == i + w.enc().len()),
{
    let i = expect_char(s, i, '(')?;
    let (x, i) = parse_scalar(s, i)?;
    let i = expect_char(s, i, ',')?;
    let (y, i) = parse_scalar(s, i)?;
    let i = expect_char(s, i, ')')?;
    Some((Vec2 { x, y }, i))
}

pub proof fn lemma_vec2_no_space(v: Vec2)
    requires
        v.wf(),
    ensures
        no_space(v.enc()),
{
    lemma_number_no_space(v.x@);
    lemma_number_no_space(v.y@);
}

/// A point or a direction in space.
#[derive(Clone, Debug, PartialEq)]
pub struct Vec3 {
    pub x: Scalar,
    pub y: Scalar,
    pub z: Scalar,
}

impl View for Vec3 {
    type V = (Seq<char>, Seq<char>, Seq<char>);

    open spec fn view(&self) -> (Seq<char>, Seq<char>, Seq<char>) {
        (self.x@, self.y@, self.z@)
    }
}

impl Vec3 {
    pub open spec fn wf(&self) -> bool {
        self.x.wf() && self.y.wf() && self.z.wf()
    }

    /// `(x,y,z)`
    pub open spec fn enc(&self) -> Seq<char> {
        one('(') + self.x@ + one(',') + self.y@ + one(',') + self.z@ + one(')')
    }

    pub(crate) fn write(&self, out: &mut Vec<char>)
        ensures
            final(out)@ == old(out)@ + self.enc(),
    {
        out.push('(');
        self.x.write(out);
        out.push(',');
        self.y.write(out);
        out.push(',');
        self.z.write(out);
        out.push(')');
        proof {
            assert(final(out)@ =~= old(out)@ + self.enc());
        }
    }
}

pub(crate) fn parse_vec3(s: &Vec<char>, i: usize) -> (r: Option<(Vec3, usize)>)
    requires
        i <= s@.len(),
    ensures
        r matches Some((v, e)) ==> v.wf() && i <= e <= s@.len(),
        forall|w: Vec3|
            w.wf() && #[trigger] occurs_at(s@, i as int, w.enc()) ==> (r matches Some((v, e))
                && v.enc() == w.enc() && v@ == w@ && e == i + w.enc().len()),
{
    let i = expect_char(s, i, '(')?;
    let (x, i) = parse_scalar(s, i)?;
    let i = expect_char(s, i, ',')?;
    let (y, i) = parse_scalar(s, i)?;
    let i = expect_char(s, i, ',')?;
    let (z, i) = parse_scalar(s, i)?;
    let i = expect_char(s, i, ')')?;
    Some((Vec3 { x, y, z }, i))
}

pub proof fn lemma_vec3_no_space(v: Vec3)
    requires
        v.wf(),
    ensures
        no_space(v.enc()),
{
    lemma_number_no_space(v.x@);
    lemma_number_no_space(v.y@);
    lemma_number_no_space(v.z@);
}

/// A four-component vector; a column of a [`Mat4`].
#[derive(Clone, Debug, PartialEq)]
pub struct Vec4 {
    pub x: Scalar,
    pub y: Scalar,
    pub z: Scalar,
    pub w: Scalar,
}

impl View for Vec4 {
    type V = (Seq<char>, Seq<char>, Seq<char>, Seq<char>);

    open spec fn view(&self) -> (Seq<char>, Seq<char>, Seq<char>, Seq<char>) {
        (self.x@, self.y@, self.z@, self.w@)
    }
}

impl Vec4 {
    pub open spec fn wf(&self) -> bool {
        self.x.wf() && self.y.wf() && self.z.wf() && self.w.wf()
    }

    /// `x,y,z,w (the parentheses belong to the matrix)`
    pub open spec fn items(&self) -> Seq<char> {
        self.x@ + one(',') + self.y@ + one(',') + self.z@ + one(',') + self.w@
    }

    pub(crate) fn write(&self, out: &mut Vec<char>)
        ensures
            final(out)@ == old(out)@ + self.items(),
    {
        self.x.write(out);
        out.push(',');
        self.y.write(out);
        out.push(',');
        self.z.write(out);
        out.push(',');
        self.w.write(out);
        proof {
            assert(final(out)@ =~= old(out)@ + self.items());
        }
    }
}

pub(crate) fn parse_vec4_items(s: &Vec<char>, i: usize) -> (r: Option<(Vec4, usize)>)
    requires
        i <= s@.len(),
    ensures
        r matches Some((v, e)) ==> v.wf() && i <= e <= s@.len(),
        forall|w: Vec4|
            w.wf() && #[trigger] occurs_at(s@, i as int, w.items()) && closed_at(s@, i + w.items().len()) ==> (r matches Some((v, e))
                && v.items() == w.items() && v@ == w@ && e == i + w.items().len()),
{
    let (x, i) = parse_scalar(s, i)?;
    let i = expect_char(s, i, ',')?;
    let (y, i) = parse_scalar(s, i)?;
    let i = expect_char(s, i, ',')?;
    let (z, i) = parse_scalar(s, i)?;
    let i = expect_char(s, i, ',')?;
    let (w, i) = parse_scalar(s, i)?;
    Some((Vec4 { x, y, z, w }, i))
}

pub proof fn lemma_vec4_no_space(v: Vec4)
    requires
        v.wf(),
    ensures
        no_space(v.items()),
{
    lemma_number_no_space(v.x@);
    lemma_number_no_space(v.y@);
    lemma_number_no_space(v.z@);
    lemma_number_no_space(v.w@);
}

/// A rotation in space as a quaternion.
#[derive(Clone, Debug, PartialEq)]
pub struct Quat {
    pub x: Scalar,
    pub y: Scalar,
    pub z: Scalar,
    pub w: Scalar,
}

impl View for Quat {
    type V = (Seq<char>, Seq<char>, Seq<char>, Seq<char>);

    open spec fn view(&self) -> (Seq<char>, Seq<char>, Seq<char>, Seq<char>) {
        (self.x@, self.y@, self.z@, self.w@)
    }
}

impl Quat {
    pub open spec fn wf(&self) -> bool {
        self.x.wf() && self.y.wf() && self.z.wf() && self.w.wf()
    }

    /// `(x,y,z,w)`
    pub open spec fn enc(&self) -> Seq<char> {
        one('(') + self.x@ + one(',') + self.y@ + one(',') + self.z@ + one(',') + self.w@ + one(')')
    }

    pub(crate) fn write(&self, out: &mut Vec<char>)
        ensures
            final(out)@ == old(out)@ + self.enc(),
    {
        out.push('(');
        self.x.write(out);
        out.push(',');
        self.y.write(out);
        out.push(',');
        self.z.write(out);
        out.push(',');
        self.w.write(out);
        out.push(')');
        proof {
            assert(final(out)@ =~= old(out)@ + self.enc());
        }
    }
}

pub(crate) fn parse_quat(s: &Vec<char>, i: usize) -> (r: Option<(Quat, usize)>)
    requires
        i <= s@.len(),
    ensures
        r matches Some((v, e)) ==> v.wf() && i <= e <= s@.len(),
        forall|w: Quat|
            w.wf() && #[trigger] occurs_at(s@, i as int, w.enc()) ==> (r matches Some((v, e))
                && v.enc() == w.enc() && v@ == w@ && e == i + w.enc().len()),
{
    let i = expect_char(s, i, '(')?;
    let (x, i) = parse_scalar(s, i)?;
    let i = expect_char(s, i, ',')?;
    let (y, i) = parse_scalar(s, i)?;
    let i = expect_char(s, i, ',')?;
    let (z, i) = parse_scalar(s, i)?;
    let i = expect_char(s, i, ',')?;
    let (w, i) = parse_scalar(s, i)?;
    let i = expect_char(s, i, ')')?;
    Some((Quat { x, y, z, w }, i))
}

pub proof fn lemma_quat_no_space(v: Quat)
    requires
        v.wf(),
    ensures
        no_space(v.enc()),
{
    lemma_number_no_space(v.x@);
    lemma_number_no_space(v.y@);
    lemma_number_no_space(v.z@);
    lemma_number_no_space(v.w@);
}

/// A 4x4 matrix given by its columns.
#[derive(Clone, Debug, PartialEq)]
pub struct Mat4 {
    pub x_axis: Vec4,
    pub y_axis: Vec4,
    pub z_axis: Vec4,
    pub w_axis: Vec4,
}

impl View for Mat4 {
    type V = ((Seq<char>, Seq<char>, Seq<char>, Seq<char>), (Seq<char>, Seq<char>, Seq<char>, Seq<char>), (Seq<char>, Seq<char>, Seq<char>, Seq<char>), (Seq<char>, Seq<char>, Seq<char>, Seq<char>));

    open spec fn view(&self) -> ((Seq<char>, Seq<char>, Seq<char>, Seq<char>), (Seq<char>, Seq<char>, Seq<char>, Seq<char>), (Seq<char>, Seq<char>, Seq<char>, Seq<char>), (Seq<char>, Seq<char>, Seq<char>, Seq<char>)) {
        (self.x_axis@, self.y_axis@, self.z_axis@, self.w_axis@)
    }
}

impl Mat4 {
    pub open spec fn wf(&self) -> bool {
        self.x_axis.wf() && self.y_axis.wf() && self.z_axis.wf() && self.w_axis.wf()
    }

    /// `the sixteen entries column by column, in parentheses`
    pub open spec fn enc(&self) -> Seq<char> {
        one('(') + self.x_axis.items() + one(',') + self.y_axis.items() + one(',') + self.z_axis.items() + one(',') + self.w_axis.items() + one(')')
    }

    pub(crate) fn write(&self, out: &mut Vec<char>)
        ensures
            final(out)@ == old(out)@ + self.enc(),
    {
        out.push('(');
        self.x_axis.write(out);
        out.push(',');
        self.y_axis.write(out);
        out.push(',');
        self.z_axis.write(out);
        out.push(',');
        self.w_axis.write(out);
        out.push(')');
        proof {
            assert(final(out)@ =~= old(out)@ + self.enc());
        }
    }
}

#[verifier::rlimit(60)]
pub(crate) fn parse_mat4(s: &Vec<char>, i: usize) -> (r: Option<(Mat4, usize)>)
    requires
        i <= s@.len(),
    ensures
        r matches Some((v, e)) ==> v.wf() && i <= e <= s@.len(),
        forall|w: Mat4|
            w.wf() && #[trigger] occurs_at(s@, i as int, w.enc()) ==> (r matches Some((v, e))
                && v.enc() == w.enc() && v@ == w@ && e == i + w.enc().len()),
{
    let i = expect_char(s, i, '(')?;
    let (x_axis, i) = parse_vec4_items(s, i)?;
    let i = expect_char(s, i, ',')?;
    let (y_axis, i) = parse_vec4_items(s, i)?;
    let i = expect_char(s, i, ',')?;
    let (z_axis, i) = parse_vec4_items(s, i)?;
    let i = expect_char(s, i, ',')?;
    let (w_axis, i) = parse_vec4_items(s, i)?;
    let i = expect_char(s, i, ')')?;
    Some((Mat4 { x_axis, y_axis, z_axis, w_axis }, i))
}

pub proof fn lemma_mat4_no_space(v: Mat4)
    requires
        v.wf(),
    ensures
        no_space(v.enc()),
{
    lemma_vec4_no_space(v.x_axis);
    lemma_vec4_no_space(v.y_axis);
    lemma_vec4_no_space(v.z_axis);
    lemma_vec4_no_space(v.w_axis);
}

/// A pair of counts.
#[derive(Clone, Debug, PartialEq)]
pub struct UVec2 {
    pub x: u32,
    pub y: u32,
}

impl View for UVec2 {
    type V = (u32, u32);

    open spec fn view(&self) -> (u32, u32) {
        (self.x, self.y)
    }
}

impl UVec2 {
    pub open spec fn wf(&self) -> bool {
        true
    }

    /// `(x,y)`
    pub open spec fn enc(&self) -> Seq<char> {
        one('(') + dec(self.x as nat) + one(',') + dec(self.y as nat) + one(')')
    }

    pub(crate) fn write(&self, out: &mut Vec<char>)
        ensures
            final(out)@ == old(out)@ + self.enc(),
    {
        out.push('(');
        write_count(self.x, out);
        out.push(',');
        write_count(self.y, out);
        out.push(')');
        proof {
            assert(final(out)@ =~= old(out)@ + self.enc());
        }
    }
}

pub(crate) fn parse_uvec2(s: &Vec<char>, i: usize) -> (r: Option<(UVec2, usize)>)
    requires
        i <= s@.len(),
    ensures
        r matches Some((v, e)) ==> v.wf() && i <= e <= s@.len(),
        forall|w: UVec2|
            w.wf() && #[trigger] occurs_at(s@, i as int, w.enc()) ==> (r matches Some((v, e))
                && v.enc() == w.enc() && v@ == w@ && e == i + w.enc().len()),
{
    let i = expect_char(s, i, '(')?;
    let (x, i) = parse_count(s, i)?;
    let i = expect_char(s, i, ',')?;
    let (y, i) = parse_count(s, i)?;
    let i = expect_char(s, i, ')')?;
    Some((UVec2 { x, y }, i))
}

pub proof fn lemma_uvec2_no_space(v: UVec2)
    requires
        v.wf(),
    ensures
        no_space(v.enc()),
{
    lemma_dec_no_space(v.x as nat);
    lemma_dec_no_space(v.y as nat);
}

/// A triple of counts.
#[derive(Clone, Debug, PartialEq)]
pub struct UVec3 {
    pub x: u32,
    pub y: u32,
    pub z: u32,
}

impl View for UVec3 {
    type V = (u32, u32, u32);

    open spec fn view(&self) -> (u32, u32, u32) {
        (self.x, self.y, self.z)
    }
}

impl UVec3 {
    pub open spec fn wf(&self) -> bool {
        true
    }

    /// `(x,y,z)`
    pub open spec fn enc(&self) -> Seq<char> {
        one('(') + dec(self.x as nat) + one(',') + dec(self.y as nat) + one(',') + dec(self.z as nat) + one(')')
    }

    pub(crate) fn write(&self, out: &mut Vec<char>)
        ensures
            final(out)@ == old(out)@ + self.enc(),
    {
        out.push('(');
        write_count(self.x, out);
        out.push(',');
        write_count(self.y, out);
        out.push(',');
        write_count(self.z, out);
        out.push(')');
        proof {
            assert(final(out)@ =~= old(out)@ + self.enc());
        }
    }
}

pub(crate) fn parse_uvec3(s: &Vec<char>, i: usize) -> (r: Option<(UVec3, usize)>)
    requires
        i <= s@.len(),
    ensures
        r matches Some((v, e)) ==> v.wf() && i <= e <= s@.len(),
        forall|w: UVec3|
            w.wf() && #[trigger] occurs_at(s@, i as int, w.enc()) ==> (r matches Some((v, e))
                && v.enc() == w.enc() && v@ == w@ && e == i + w.enc().len()),
{
    let i = expect_char(s, i, '(')?;
    let (x, i) = parse_count(s, i)?;
    let i = expect_char(s, i, ',')?;
    let (y, i) = parse_count(s, i)?;
    let i = expect_char(s, i, ',')?;
    let (z, i) = parse_count(s, i)?;
    let i = expect_char(s, i, ')')?;
    Some((UVec3 { x, y, z }, i))
}

pub proof fn lemma_uvec3_no_space(v: UVec3)
    requires
        v.wf(),
    ensures
        no_space(v.enc()),
{
    lemma_dec_no_space(v.x as nat);
    lemma_dec_no_space(v.y as nat);
    lemma_dec_no_space(v.z as nat);
}

/// A rotation in the plane as the cosine and sine of its angle.
#[derive(Clone, Debug, PartialEq)]
pub struct Rot2 {
    pub cos: Scalar,
    pub sin: Scalar,
}

impl View for Rot2 {
    type V = (Seq<char>, Seq<char>);

    open spec fn view(&self) -> (Seq<char>, Seq<char>) {
        (self.cos@, self.sin@)
    }
}

impl Rot2 {
    pub open spec fn wf(&self) -> bool {
        self.cos.wf() && self.sin.wf()
    }

    /// `(cos:c,sin:s)`
    pub open spec fn enc(&self) -> Seq<char> {
        "(cos:"@ + self.cos@ + one(',') + "sin:"@ + self.sin@ + one(')')
    }

    pub(crate) fn write(&self, out: &mut Vec<char>)
        ensures
            final(out)@ == old(out)@ + self.enc(),
    {
        push_str(out, "(cos:");
        self.cos.write(out);
        out.push(',');
        push_str(out, "sin:");
        self.sin.write(out);
        out.push(')');
        proof {
            assert(final(out)@ =~= old(out)@ + self.enc());
        }
    }
}

pub(crate) fn parse_rot2(s: &Vec<char>, i: usize) -> (r: Option<(Rot2, usize)>)
    requires
        i <= s@.len(),
    ensures
        r matches Some((v, e)) ==> v.wf() && i <= e <= s@.len(),
        forall|w: Rot2|
            w.wf() && #[trigger] occurs_at(s@, i as int, w.enc()) ==> (r matches Some((v, e))
                && v.enc() == w.enc() && v@ == w@ && e == i + w.enc().len()),
{
    let i = expect(s, i, "(cos:")?;
    let (cos, i) = parse_scalar(s, i)?;
    let i = expect_char(s, i, ',')?;
    let i = expect(s, i, "sin:")?;
    let (sin, i) = parse_scalar(s, i)?;
    let i = expect_char(s, i, ')')?;
    Some((Rot2 { cos, sin }, i))
}

pub proof fn lemma_rot2_no_space(v: Rot2)
    requires
        v.wf(),
    ensures
        no_space(v.enc()),
{
    reveal_strlit("(cos:");
    reveal_strlit("sin:");
    lemma_number_no_space(v.cos@);
    lemma_number_no_space(v.sin@);
}

/// A rotation followed by a translation, in the plane.
#[derive(Clone, Debug, PartialEq)]
pub struct Isometry2d {
    pub rotation: Rot2,
    pub translation: Vec2,
}

impl View for Isometry2d {
    type V = ((Seq<char>, Seq<char>), (Seq<char>, Seq<char>));

    open spec fn view(&self) -> ((Seq<char>, Seq<char>), (Seq<char>, Seq<char>)) {
        (self.rotation@, self.translation@)
    }
}

impl Isometry2d {
    pub open spec fn wf(&self) -> bool {
        self.rotation.wf() && self.translation.wf()
    }

    /// `(rotation:r,translation:t)`
    pub open spec fn enc(&self) -> Seq<char> {
        "(rotation:"@ + self.rotation.enc() + one(',') + "translation:"@ + self.translation.enc() + one(')')
    }

    pub(crate) fn write(&self, out: &mut Vec<char>)
        ensures
            final(out)@ == old(out)@ + self.enc(),
    {
        push_str(out, "(rotation:");
        self.rotation.write(out);
        out.push(',');
        push_str(out, "translation:");
        self.translation.write(out);
        out.push(')');
        proof {
            assert(final(out)@ =~= old(out)@ + self.enc());
        }
    }
}

pub(crate) fn parse_isometry2d(s: &Vec<char>, i: usize) -> (r: Option<(Isometry2d, usize)>)
    requires
        i <= s@.len(),
    ensures
        r matches Some((v, e)) ==> v.wf() && i <= e <= s@.len(),
        forall|w: Isometry2d|
            w.wf() && #[trigger] occurs_at(s@, i as int, w.enc()) ==> (r matches Some((v, e))
                && v.enc() == w.enc() && v@ == w@ && e == i + w.enc().len()),
{
    let i = expect(s, i, "(rotation:")?;
    let (rotation, i) = parse_rot2(s, i)?;
    let i = expect_char(s, i, ',')?;
    let i = expect(s, i, "translation:")?;
    let (translation, i) = parse_vec2(s, i)?;
    let i = expect_char(s, i, ')')?;
    Some((Isometry2d { rotation, translation }, i))
}

pub proof fn lemma_isometry2d_no_space(v: Isometry2d)
    requires
        v.wf(),
    ensures
        no_space(v.enc()),
{
    reveal_strlit("(rotation:");
    reveal_strlit("translation:");
    lemma_rot2_no_space(v.rotation);
    lemma_vec2_no_space(v.translation);
}

/// A rotation followed by a translation, in space.
#[derive(Clone, Debug, PartialEq)]
pub struct Isometry3d {
    pub rotation: Quat,
    pub translation: Vec3,
}

impl View for Isometry3d {
    type V = ((Seq<char>, Seq<char>, Seq<char>, Seq<char>), (Seq<char>, Seq<char>, Seq<char>));

    open spec fn view(&self) -> ((Seq<char>, Seq<char>, Seq<char>, Seq<char>), (Seq<char>, Seq<char>, Seq<char>)) {
        (self.rotation@, self.translation@)
    }
}

impl Isometry3d {
    pub open spec fn wf(&self) -> bool {
        self.rotation.wf() && self.translation.wf()
    }

    /// `(rotation:r,translation:t)`
    pub open spec fn enc(&self) -> Seq<char> {
        "(rotation:"@ + self.rotation.enc() + one(',') + "translation:"@ + self.translation.enc() + one(')')
    }

    pub(crate) fn write(&self, out: &mut Vec<char>)
        ensures
            final(out)@ == old(out)@ + self.enc(),
    {
        push_str(out, "(rotation:");
        self.rotation.write(out);
        out.push(',');
        push_str(out, "translation:");
        self.translation.write(out);
        out.push(')');
        proof {
            assert(final(out)@ =~= old(out)@ + self.enc());
        }
    }
}

pub(crate) fn parse_isometry3d(s: &Vec<char>, i: usize) -> (r: Option<(Isometry3d, usize)>)
    requires
        i <= s@.len(),
    ensures
        r matches Some((v, e)) ==> v.wf() && i <= e <= s@.len(),
        forall|w: Isometry3d|
            w.wf() && #[trigger] occurs_at(s@, i as int, w.enc()) ==> (r matches Some((v, e))
                && v.enc() == w.enc() && v@ == w@ && e == i + w.enc().len()),
{
    let i = expect(s, i, "(rotation:")?;
    let (rotation, i) = parse_quat(s, i)?;
    let i = expect_char(s, i, ',')?;
    let i = expect(s, i, "translation:")?;
    let (translation, i) = parse_vec3(s, i)?;
    let i = expect_char(s, i, ')')?;
    Some((Isometry3d { rotation, translation }, i))
}

pub proof fn lemma_isometry3d_no_space(v: Isometry3d)
    requires
        v.wf(),
    ensures
        no_space(v.enc()),
{
    reveal_strlit("(rotation:");
    reveal_strlit("translation:");
    lemma_quat_no_space(v.rotation);
    lemma_vec3_no_space(v.translation);
}


} // verus!
