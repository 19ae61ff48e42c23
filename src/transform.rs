//! Affine placement of a sprite or a view, and the 3x3 matrix it yields.
use vstd::prelude::*;
use crate::fixed::{abs, fmul, mul_fixed, ONE};
use crate::vector::{Vector2, FACTOR_LIMIT};

verus! {

/// Largest translation magnitude for which a matrix can be formed.
pub const TRANSLATION_LIMIT: i64 = 0x2000_0000_0000_0000;

/// Scale and rotation about `origin`, then translation.
///
/// The rotation is held as the unit vector `(cos θ, sin θ)` in fixed point,
/// which is all the matrix reads of the angle.
#[derive(Clone, Copy, Debug, PartialEq, Eq, Structural)]
pub struct Transform {
    pub translation: Vector2,
    pub rotation: Vector2,
    pub scale: Vector2,
    pub origin: Vector2,
}

/// Row-major 3x3 affine matrix, in fixed point; the last row holds the
/// translation, so points are multiplied as column vectors of the transpose.
#[derive(Clone, Copy, Debug)]
pub struct Matrix3 {
    pub m: [i64; 9],
}

/// Where the matrix `m` sends the point `(px, py)`.
pub open spec fn apply(m: Seq<i64>, px: int, py: int) -> (int, int) {
    (
        fmul(m[0] as int, px) + fmul(m[3] as int, py) + m[6],
        fmul(m[1] as int, px) + fmul(m[4] as int, py) + m[7],
    )
}

/// The identity matrix in fixed point.
pub open spec fn identity_matrix() -> Seq<i64> {
    seq![ONE, 0, 0, 0, ONE, 0, 0, 0, ONE]
}

impl Transform {
    /// Fields are small enough for `matrix` to be computed exactly.
    pub open spec fn wf(self) -> bool {
        &&& self.rotation.within(ONE as int)
        &&& self.scale.within(FACTOR_LIMIT as int)
        &&& self.origin.within(FACTOR_LIMIT as int)
        &&& self.translation.within(TRANSLATION_LIMIT as int)
    }

    /// Offset that moves `origin` to the pivot, first coordinate.
    pub open spec fn offset_x(self) -> int {
        let (rc, rs) = (self.rotation.x as int, self.rotation.y as int);
        fmul(fmul(-self.origin.x, rc), self.scale.x as int) + fmul(
            fmul(self.origin.y as int, rs),
            self.scale.x as int,
        )
    }

    /// Offset that moves `origin` to the pivot, second coordinate.
    pub open spec fn offset_y(self) -> int {
        let (rc, rs) = (self.rotation.x as int, self.rotation.y as int);
        fmul(fmul(-self.origin.x, rs), self.scale.y as int) - fmul(
            fmul(self.origin.y as int, rc),
            self.scale.y as int,
        )
    }

    /// The nine entries of the matrix, row-major.
    pub open spec fn matrix_spec(self) -> Seq<i64> {
        let (rc, rs) = (self.rotation.x as int, self.rotation.y as int);
        let (sx, sy) = (self.scale.x as int, self.scale.y as int);
        seq![
            fmul(sx, rc) as i64, fmul(sx, rs) as i64, 0,
            fmul(sy, -rs) as i64, fmul(sy, rc) as i64, 0,
            (self.offset_x() + self.translation.x) as i64,
            (self.offset_y() + self.translation.y) as i64, ONE,
        ]
    }

    /// Translation, rotation and origin at zero, scale one.
    pub open spec fn is_identity(self) -> bool {
        &&& self.translation == Vector2 { x: 0, y: 0 }
        &&& self.rotation == Vector2 { x: ONE, y: 0 }
        &&& self.scale == Vector2 { x: ONE, y: ONE }
        &&& self.origin == Vector2 { x: 0, y: 0 }
    }

    pub fn identity() -> (r: Transform)
        ensures
            r.is_identity(),
            r.wf(),
    {
        Transform {
            translation: Vector2::zero(),
            rotation: Vector2 { x: ONE, y: 0 },
            scale: Vector2::one(),
            origin: Vector2::zero(),
        }
    }

    pub fn matrix(&self) -> (r: Matrix3)
        requires
            self.wf(),
        ensures
            r.m@ == self.matrix_spec(),
    {
        let (tx, ty) = self.translation.tuple();
        let (rc, rs) = (self.rotation.x, self.rotation.y);
        let (sx, sy) = self.scale.tuple();
        let (o0, o1) = self.origin.tuple();
        let a: i64 = mul_fixed(-o0, rc);
        let b: i64 = mul_fixed(o1, rs);
        let c: i64 = mul_fixed(-o0, rs);
        let d: i64 = mul_fixed(o1, rc);
        proof {
            assert(FACTOR_LIMIT * ONE / (ONE as int) == FACTOR_LIMIT);
            assert(abs(o0 as int) * abs(rc as int) <= FACTOR_LIMIT * ONE) by (nonlinear_arith)
                requires
                    0 <= abs(o0 as int) <= FACTOR_LIMIT,
                    0 <= abs(rc as int) <= ONE,
            ;
            assert(abs(o1 as int) * abs(rs as int) <= FACTOR_LIMIT * ONE) by (nonlinear_arith)
                requires
                    0 <= abs(o1 as int) <= FACTOR_LIMIT,
                    0 <= abs(rs as int) <= ONE,
            ;
            assert(abs(o0 as int) * abs(rs as int) <= FACTOR_LIMIT * ONE) by (nonlinear_arith)
                requires
                    0 <= abs(o0 as int) <= FACTOR_LIMIT,
                    0 <= abs(rs as int) <= ONE,
            ;
            assert(abs(o1 as int) * abs(rc as int) <= FACTOR_LIMIT * ONE) by (nonlinear_arith)
                requires
                    0 <= abs(o1 as int) <= FACTOR_LIMIT,
                    0 <= abs(rc as int) <= ONE,
            ;
            lemma_div_mono(abs(o0 as int) * abs(rc as int), FACTOR_LIMIT * ONE);
            lemma_div_mono(abs(o1 as int) * abs(rs as int), FACTOR_LIMIT * ONE);
            lemma_div_mono(abs(o0 as int) * abs(rs as int), FACTOR_LIMIT * ONE);
            lemma_div_mono(abs(o1 as int) * abs(rc as int), FACTOR_LIMIT * ONE);
        }
        let e: i64 = mul_fixed(a, sx);
        let f: i64 = mul_fixed(b, sx);
        let g: i64 = mul_fixed(c, sy);
        let h: i64 = mul_fixed(d, sy);
        proof {
            let lim = FACTOR_LIMIT * FACTOR_LIMIT;
            assert(FACTOR_LIMIT * FACTOR_LIMIT / (ONE as int) <= 0x1100_0000_0000_0000);
            assert(abs(a as int) * abs(sx as int) <= lim) by (nonlinear_arith)
                requires
                    0 <= abs(a as int) <= FACTOR_LIMIT,
                    0 <= abs(sx as int) <= FACTOR_LIMIT,
                    lim == FACTOR_LIMIT * FACTOR_LIMIT,
            ;
            assert(abs(b as int) * abs(sx as int) <= lim) by (nonlinear_arith)
                requires
                    0 <= abs(b as int) <= FACTOR_LIMIT,
                    0 <= abs(sx as int) <= FACTOR_LIMIT,
                    lim == FACTOR_LIMIT * FACTOR_LIMIT,
            ;
            assert(abs(c as int) * abs(sy as int) <= lim) by (nonlinear_arith)
                requires
                    0 <= abs(c as int) <= FACTOR_LIMIT,
                    0 <= abs(sy as int) <= FACTOR_LIMIT,
                    lim == FACTOR_LIMIT * FACTOR_LIMIT,
            ;
            assert(abs(d as int) * abs(sy as int) <= lim) by (nonlinear_arith)
                requires
                    0 <= abs(d as int) <= FACTOR_LIMIT,
                    0 <= abs(sy as int) <= FACTOR_LIMIT,
                    lim == FACTOR_LIMIT * FACTOR_LIMIT,
            ;
            lemma_div_mono(abs(a as int) * abs(sx as int), lim);
            lemma_div_mono(abs(b as int) * abs(sx as int), lim);
            lemma_div_mono(abs(c as int) * abs(sy as int), lim);
            lemma_div_mono(abs(d as int) * abs(sy as int), lim);
        }
        let ox: i64 = e + f;
        let oy: i64 = g - h;
        let m0: i64 = mul_fixed(sx, rc);
        let m1: i64 = mul_fixed(sx, rs);
        let m3: i64 = mul_fixed(sy, -rs);
        let m4: i64 = mul_fixed(sy, rc);
        let r = Matrix3 { m: [m0, m1, 0, m3, m4, 0, ox + tx, oy + ty, ONE] };
        assert(r.m@ =~= self.matrix_spec());
        r
    }
}

/// Multiplying by one unit leaves a fixed-point value unchanged.
pub proof fn lemma_fmul_one(v: int)
    ensures
        fmul(ONE as int, v) == v,
        fmul(v, ONE as int) == v,
{
    let o = ONE as int;
    if v >= 0 {
        assert((o * v) / o == v) by (nonlinear_arith)
            requires
                o > 0,
        ;
        assert(v * o == o * v) by (nonlinear_arith);
    } else {
        assert((-(o * v)) / o == -v) by (nonlinear_arith)
            requires
                o > 0,
        ;
        assert(v * o == o * v) by (nonlinear_arith);
    }
}

/// A transform with identity fields yields the identity matrix.
pub proof fn lemma_identity_matrix(t: Transform)
    requires
        t.is_identity(),
    ensures
        t.matrix_spec() == identity_matrix(),
{
    lemma_fmul_one(ONE as int);
    lemma_fmul_one(0);
    assert(t.matrix_spec() =~= identity_matrix());
}

/// A transform that only translates by `(x, y)` sends the point `(0, 0)`
/// to `(x, y)`, and every point `p` to `p + (x, y)`.
pub proof fn lemma_translation_only(t: Transform, px: int, py: int)
    requires
        t.wf(),
        t.rotation == (Vector2 { x: ONE, y: 0 }),
        t.scale == (Vector2 { x: ONE, y: ONE }),
        t.origin == (Vector2 { x: 0, y: 0 }),
    ensures
        apply(t.matrix_spec(), 0, 0) == (t.translation.x as int, t.translation.y as int),
        apply(t.matrix_spec(), px, py) == (px + t.translation.x, py + t.translation.y),
{
    lemma_fmul_one(ONE as int);
    lemma_fmul_one(0);
    lemma_fmul_one(px);
    lemma_fmul_one(py);
    assert(fmul(0, px) == 0);
    assert(fmul(0, py) == 0);
    assert(fmul(0, 0) == 0);
}

/// Moving the origin changes only where the pivot sits: the rotation and
/// scale part of the matrix stays the same, and only the translation row
/// moves, by the offset that the new origin brings. With the origin at zero
/// that row is the translation itself.
pub proof fn lemma_origin_moves_pivot_only(t: Transform, origin: Vector2)
    requires
        t.wf(),
        origin.within(FACTOR_LIMIT as int),
        t.origin == (Vector2 { x: 0, y: 0 }),
    ensures
        ({
            let u = Transform { origin, ..t };
            &&& forall|i: int| 0 <= i < 6 ==> u.matrix_spec()[i] == t.matrix_spec()[i]
            &&& u.matrix_spec()[8] == t.matrix_spec()[8]
            &&& t.matrix_spec()[6] == t.translation.x
            &&& t.matrix_spec()[7] == t.translation.y
            &&& u.matrix_spec()[6] == u.offset_x() + t.translation.x
            &&& u.matrix_spec()[7] == u.offset_y() + t.translation.y
        }),
{
    let u = Transform { origin, ..t };
    assert(fmul(0, t.rotation.x as int) == 0);
    assert(fmul(0, t.rotation.y as int) == 0);
    assert(fmul(0, t.scale.x as int) == 0);
    assert(fmul(0, t.scale.y as int) == 0);
    assert(t.offset_x() == 0);
    assert(t.offset_y() == 0);
    lemma_offset_bounds(u);
}

proof fn lemma_offset_bounds(t: Transform)
    requires
        t.wf(),
    ensures
        abs(t.offset_x()) <= 0x2200_0000_0000_0000,
        abs(t.offset_y()) <= 0x2200_0000_0000_0000,
{
    let (rc, rs) = (t.rotation.x as int, t.rotation.y as int);
    let (sx, sy) = (t.scale.x as int, t.scale.y as int);
    let (o0, o1) = (t.origin.x as int, t.origin.y as int);
    lemma_fmul_bound(-o0, rc, FACTOR_LIMIT as int, ONE as int);
    lemma_fmul_bound(o1, rs, FACTOR_LIMIT as int, ONE as int);
    lemma_fmul_bound(-o0, rs, FACTOR_LIMIT as int, ONE as int);
    lemma_fmul_bound(o1, rc, FACTOR_LIMIT as int, ONE as int);
    assert(FACTOR_LIMIT * ONE / (ONE as int) == FACTOR_LIMIT);
    lemma_fmul_bound(fmul(-o0, rc), sx, FACTOR_LIMIT as int, FACTOR_LIMIT as int);
    lemma_fmul_bound(fmul(o1, rs), sx, FACTOR_LIMIT as int, FACTOR_LIMIT as int);
    lemma_fmul_bound(fmul(-o0, rs), sy, FACTOR_LIMIT as int, FACTOR_LIMIT as int);
    lemma_fmul_bound(fmul(o1, rc), sy, FACTOR_LIMIT as int, FACTOR_LIMIT as int);
    assert(FACTOR_LIMIT * FACTOR_LIMIT / (ONE as int) <= 0x1100_0000_0000_0000);
}

proof fn lemma_fmul_bound(a: int, b: int, la: int, lb: int)
    requires
        abs(a) <= la,
        abs(b) <= lb,
    ensures
        abs(fmul(a, b)) <= la * lb / (ONE as int),
{
    crate::fixed::lemma_trunc_div_bound(a * b, ONE as int);
    let m = abs(a * b);
    assert(abs(a * b) == abs(a) * abs(b)) by (nonlinear_arith);
    assert(abs(a) * abs(b) <= la * lb) by (nonlinear_arith)
        requires
            0 <= abs(a) <= la,
            0 <= abs(b) <= lb,
    ;
    let o = ONE as int;
    assert(abs(crate::fixed::trunc_div(a * b, o)) == m / o);
    lemma_div_mono(m, la * lb);
}

proof fn lemma_div_mono(a: int, b: int)
    requires
        0 <= a <= b,
    ensures
        a / (ONE as int) <= b / (ONE as int),
{
    assert(a / (ONE as int) <= b / (ONE as int)) by (nonlinear_arith)
        requires
            0 <= a <= b,
    ;
}

} // verus!
