//! Algebraic laws of the vector operations, stated over the spec functions
//! that the operations' contracts use, and proved once for all values.

use vstd::prelude::*;
use crate::spec_add;
use crate::spec_sub;
use crate::spec_neg;
use crate::spec_dot;
use crate::spec_len_sqr;
use crate::spec_dist_sqr;
use crate::spec_lerp;
use crate::spec_reflect;
use crate::spec_rotate;

verus! {

/// The squared length of a vector equals its dot product with itself.
pub proof fn lemma_len_sqr_is_self_dot(a: (int, int))
    ensures
        spec_len_sqr(a) == spec_dot(a, a),
{
}

/// Squared distance is symmetric in its two points.
pub proof fn lemma_dist_sqr_symmetric(a: (int, int), b: (int, int))
    ensures
        spec_dist_sqr(a, b) == spec_dist_sqr(b, a),
{
    assert((a.0 - b.0) * (a.0 - b.0) == (b.0 - a.0) * (b.0 - a.0)) by (nonlinear_arith);
    assert((a.1 - b.1) * (a.1 - b.1) == (b.1 - a.1) * (b.1 - a.1)) by (nonlinear_arith);
}

/// The squared distance between two points is the dot product of their
/// difference with itself.
pub proof fn lemma_dist_sqr_is_diff_dot(a: (int, int), b: (int, int))
    ensures
        spec_dist_sqr(a, b) == spec_dot(spec_sub(a, b), spec_sub(a, b)),
{
}

/// Interpolating by a factor of zero gives the starting vector back.
pub proof fn lemma_lerp_zero(a: (int, int), b: (int, int))
    ensures
        spec_lerp(a, b, 0) == a,
{
}

/// Interpolating by a factor of one gives the target vector.
pub proof fn lemma_lerp_one(a: (int, int), b: (int, int))
    ensures
        spec_lerp(a, b, 1) == b,
{
}

/// Reflecting twice across the same unit normal gives the vector back.
/// The normal must be unit length, here: of squared length one.
pub proof fn lemma_reflect_involutive(a: (int, int), n: (int, int))
    requires
        spec_len_sqr(n) == 1,
    ensures
        spec_reflect(spec_reflect(a, n), n) == a,
{
    let d = spec_dot(a, n);
    let r1 = spec_reflect(a, n);
    assert(spec_dot(r1, n) == d - 2 * d * (n.0 * n.0 + n.1 * n.1)) by (nonlinear_arith)
        requires
            d == a.0 * n.0 + a.1 * n.1,
            r1.0 == a.0 - (2 * n.0) * d,
            r1.1 == a.1 - (2 * n.1) * d,
            spec_dot(r1, n) == r1.0 * n.0 + r1.1 * n.1;
    assert(spec_dot(r1, n) == -d);
    assert(spec_reflect(r1, n).0 == r1.0 - (2 * n.0) * (-d));
    assert(r1.0 - (2 * n.0) * (-d) == a.0 - (2 * n.0) * d + (2 * n.0) * d) by (nonlinear_arith)
        requires
            r1.0 == a.0 - (2 * n.0) * d;
    assert(spec_reflect(r1, n).1 == r1.1 - (2 * n.1) * (-d));
    assert(r1.1 - (2 * n.1) * (-d) == a.1 - (2 * n.1) * d + (2 * n.1) * d) by (nonlinear_arith)
        requires
            r1.1 == a.1 - (2 * n.1) * d;
}

/// Rotation by a cosine and sine pair on the unit circle is rigid: it
/// keeps the squared length of every vector.
pub proof fn lemma_rotate_rigid(a: (int, int), c: int, s: int)
    requires
        c * c + s * s == 1,
    ensures
        spec_len_sqr(spec_rotate(a, c, s)) == spec_len_sqr(a),
{
    let r = spec_rotate(a, c, s);
    assert(r.0 * r.0 + r.1 * r.1 == a.0 * a.0 + a.1 * a.1) by (nonlinear_arith)
        requires
            c * c + s * s == 1,
            r.0 == a.0 * c - a.1 * s,
            r.1 == a.0 * s + a.1 * c;
}

/// Rotating by a cosine and sine pair on the unit circle and then by the
/// opposite angle, the pair with the sine negated, gives the vector back.
pub proof fn lemma_rotate_round_trip(a: (int, int), c: int, s: int)
    requires
        c * c + s * s == 1,
    ensures
        spec_rotate(spec_rotate(a, c, s), c, -s) == a,
{
    let r = spec_rotate(a, c, s);
    let rr = spec_rotate(r, c, -s);
    assert(rr.0 == a.0 && rr.1 == a.1) by (nonlinear_arith)
        requires
            c * c + s * s == 1,
            r.0 == a.0 * c - a.1 * s,
            r.1 == a.0 * s + a.1 * c,
            rr.0 == r.0 * c - r.1 * (-s),
            rr.1 == r.0 * (-s) + r.1 * c;
}

/// Addition is component-wise: each coordinate of the sum is the sum of
/// the corresponding coordinates.
pub proof fn lemma_add_componentwise(a: (int, int), b: (int, int))
    ensures
        spec_add(a, b).0 == a.0 + b.0,
        spec_add(a, b).1 == a.1 + b.1,
{
}

/// Negation is component-wise: each coordinate of the negation is the
/// negation of the corresponding coordinate.
pub proof fn lemma_neg_componentwise(a: (int, int))
    ensures
        spec_neg(a).0 == -a.0,
        spec_neg(a).1 == -a.1,
{
}

} // verus!
