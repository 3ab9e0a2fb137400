//! Exact two-dimensional vector arithmetic.
//!
//! `Vec2` is a pair of `i64` coordinates. Every operation here is exact:
//! its result is pinned down, component by component, by spec functions
//! over mathematical integer pairs, through the view of a vector as the
//! pair of its coordinates. The algebraic laws that relate the operations
//! are stated and proved in [`laws`].
//!
//! Each operation's `requires` holds exactly the bounds that keep its
//! arithmetic inside the `i64` range; nothing else is asked of the inputs.

use vstd::prelude::*;

pub mod laws;

verus! {

/// A point or direction in the plane, with exact integer coordinates.
#[derive(Clone, Copy, Debug, PartialEq, Eq, Structural)]
pub struct Vec2 {
    pub x: i64,
    pub y: i64,
}

impl View for Vec2 {
    type V = (int, int);

    open spec fn view(&self) -> (int, int) {
        (self.x as int, self.y as int)
    }
}

/// Component-wise sum of two integer pairs.
pub open spec fn spec_add(a: (int, int), b: (int, int)) -> (int, int) {
    (a.0 + b.0, a.1 + b.1)
}

/// Component-wise difference of two integer pairs.
pub open spec fn spec_sub(a: (int, int), b: (int, int)) -> (int, int) {
    (a.0 - b.0, a.1 - b.1)
}

/// Component-wise product of two integer pairs.
pub open spec fn spec_mul(a: (int, int), b: (int, int)) -> (int, int) {
    (a.0 * b.0, a.1 * b.1)
}

/// Component-wise negation of an integer pair.
pub open spec fn spec_neg(a: (int, int)) -> (int, int) {
    (-a.0, -a.1)
}

/// The scalar broadcast to both components and added.
pub open spec fn spec_add_scalar(a: (int, int), s: int) -> (int, int) {
    (a.0 + s, a.1 + s)
}

/// The scalar broadcast to both components and subtracted.
pub open spec fn spec_sub_scalar(a: (int, int), s: int) -> (int, int) {
    (a.0 - s, a.1 - s)
}

/// Uniform scaling by the scalar.
pub open spec fn spec_mul_scalar(a: (int, int), s: int) -> (int, int) {
    (a.0 * s, a.1 * s)
}

/// The dot product of two integer pairs.
pub open spec fn spec_dot(a: (int, int), b: (int, int)) -> int {
    a.0 * b.0 + a.1 * b.1
}

/// The squared Euclidean length of an integer pair.
pub open spec fn spec_len_sqr(a: (int, int)) -> int {
    a.0 * a.0 + a.1 * a.1
}

/// The squared Euclidean distance between two integer pairs, read as points.
pub open spec fn spec_dist_sqr(a: (int, int), b: (int, int)) -> int {
    (a.0 - b.0) * (a.0 - b.0) + (a.1 - b.1) * (a.1 - b.1)
}

/// Linear interpolation from `a` towards `b` by the factor `t`:
/// `a + t * (b - a)`, component by component. `t` is unconstrained,
/// so values outside `[0, 1]` extrapolate.
pub open spec fn spec_lerp(a: (int, int), b: (int, int), t: int) -> (int, int) {
    (a.0 + t * (b.0 - a.0), a.1 + t * (b.1 - a.1))
}

/// Reflection of `a` across the plane with normal `n`:
/// `a - 2 * (a . n) * n`, component by component. The normal is taken
/// as given; only a unit normal makes this a true mirror image.
pub open spec fn spec_reflect(a: (int, int), n: (int, int)) -> (int, int) {
    (a.0 - (2 * n.0) * spec_dot(a, n), a.1 - (2 * n.1) * spec_dot(a, n))
}

/// Rotation of `a` by the angle whose cosine is `c` and sine is `s`:
/// the plane rotation matrix applied to the pair. Only a pair on the unit
/// circle, `c*c + s*s == 1`, turns the plane rigidly.
pub open spec fn spec_rotate(a: (int, int), c: int, s: int) -> (int, int) {
    (a.0 * c - a.1 * s, a.0 * s + a.1 * c)
}

/// The absolute value of an integer.
pub open spec fn spec_abs_int(v: int) -> int {
    if v < 0 {
        -v
    } else {
        v
    }
}

/// Component-wise absolute value of an integer pair.
pub open spec fn spec_abs(a: (int, int)) -> (int, int) {
    (spec_abs_int(a.0), spec_abs_int(a.1))
}

/// Component-wise absolute difference of two integer pairs.
pub open spec fn spec_abs_diff(a: (int, int), b: (int, int)) -> (int, int) {
    (spec_abs_int(a.0 - b.0), spec_abs_int(a.1 - b.1))
}

/// The greater of two integers.
pub open spec fn spec_max_int(a: int, b: int) -> int {
    if a >= b {
        a
    } else {
        b
    }
}

/// The lesser of two integers.
pub open spec fn spec_min_int(a: int, b: int) -> int {
    if a <= b {
        a
    } else {
        b
    }
}

/// One component clamped into `[lo, hi]`: the value is first raised to at
/// least `lo`, then lowered to at most `hi`, so `hi` wins when `lo > hi`.
pub open spec fn spec_clamp_int(v: int, lo: int, hi: int) -> int {
    spec_min_int(hi, spec_max_int(lo, v))
}

/// Component-wise clamp of `a` into the per-axis ranges given by `lo` and `hi`.
pub open spec fn spec_clamp(a: (int, int), lo: (int, int), hi: (int, int)) -> (int, int) {
    (spec_clamp_int(a.0, lo.0, hi.0), spec_clamp_int(a.1, lo.1, hi.1))
}

/// A square of an integer is never negative.
proof fn lemma_square_nonneg(v: int)
    by (nonlinear_arith)
    ensures
        v * v >= 0,
{
}

/// An integer whose square stays at most `i64::MAX` itself lies strictly
/// inside the `i64` range on both sides.
proof fn lemma_square_bounds_root(v: int)
    by (nonlinear_arith)
    requires
        v * v <= i64::MAX,
    ensures
        -i64::MAX <= v <= i64::MAX,
{
}

impl Vec2 {
    /// Builds the vector with the given coordinates, exactly as given.
    pub fn new(x: i64, y: i64) -> (r: Vec2)
        ensures
            r@ == (x as int, y as int),
    {
        Vec2 { x, y }
    }

    /// The zero vector.
    pub fn null() -> (r: Vec2)
        ensures
            r@ == (0int, 0int),
    {
        Vec2 { x: 0, y: 0 }
    }

    /// The squared Euclidean length, `x*x + y*y`; exact where a length
    /// itself would call for a square root.
    pub fn len_sqr(self) -> (r: i64)
        requires
            spec_len_sqr(self@) <= i64::MAX,
        ensures
            r == spec_len_sqr(self@),
    {
        proof {
            lemma_square_nonneg(self.x as int);
            lemma_square_nonneg(self.y as int);
        }
        self.x * self.x + self.y * self.y
    }

    /// The dot product with `other`.
    pub fn dot(self, other: Vec2) -> (r: i64)
        requires
            i64::MIN <= self.x * other.x <= i64::MAX,
            i64::MIN <= self.y * other.y <= i64::MAX,
            i64::MIN <= spec_dot(self@, other@) <= i64::MAX,
        ensures
            r == spec_dot(self@, other@),
    {
        self.x * other.x + self.y * other.y
    }

    /// The squared Euclidean distance to `other`, both read as points.
    pub fn dist_sqr(self, other: Vec2) -> (r: i64)
        requires
            spec_dist_sqr(self@, other@) <= i64::MAX,
        ensures
            r == spec_dist_sqr(self@, other@),
    {
        proof {
            lemma_square_nonneg(self.x - other.x);
            lemma_square_nonneg(self.y - other.y);
            lemma_square_bounds_root(self.x - other.x);
            lemma_square_bounds_root(self.y - other.y);
        }
        let dx: i64 = self.x - other.x;
        let dy: i64 = self.y - other.y;
        dx * dx + dy * dy
    }

    /// Reflects `self` across the plane with normal `normal`, as
    /// `self - 2 * (self . normal) * normal`. The normal is used as given:
    /// only a unit normal makes this a true mirror image.
    pub fn reflect(self, normal: Vec2) -> (r: Vec2)
        requires
            i64::MIN <= self.x * normal.x <= i64::MAX,
            i64::MIN <= self.y * normal.y <= i64::MAX,
            i64::MIN <= spec_dot(self@, normal@) <= i64::MAX,
            i64::MIN <= 2 * normal.x <= i64::MAX,
            i64::MIN <= 2 * normal.y <= i64::MAX,
            i64::MIN <= (2 * normal.x) * spec_dot(self@, normal@) <= i64::MAX,
            i64::MIN <= (2 * normal.y) * spec_dot(self@, normal@) <= i64::MAX,
            i64::MIN <= self.x - (2 * normal.x) * spec_dot(self@, normal@) <= i64::MAX,
            i64::MIN <= self.y - (2 * normal.y) * spec_dot(self@, normal@) <= i64::MAX,
        ensures
            r@ == spec_reflect(self@, normal@),
    {
        let d: i64 = self.dot(normal);
        Vec2 {
            x: self.x - (2 * normal.x) * d,
            y: self.y - (2 * normal.y) * d,
        }
    }

    /// Component-wise addition.
    pub fn add(self, other: Vec2) -> (r: Vec2)
        requires
            i64::MIN <= self.x + other.x <= i64::MAX,
            i64::MIN <= self.y + other.y <= i64::MAX,
        ensures
            r@ == spec_add(self@, other@),
    {
        Vec2 { x: self.x + other.x, y: self.y + other.y }
    }

    /// Component-wise subtraction.
    pub fn sub(self, other: Vec2) -> (r: Vec2)
        requires
            i64::MIN <= self.x - other.x <= i64::MAX,
            i64::MIN <= self.y - other.y <= i64::MAX,
        ensures
            r@ == spec_sub(self@, other@),
    {
        Vec2 { x: self.x - other.x, y: self.y - other.y }
    }

    /// Component-wise multiplication.
    pub fn mul(self, other: Vec2) -> (r: Vec2)
        requires
            i64::MIN <= self.x * other.x <= i64::MAX,
            i64::MIN <= self.y * other.y <= i64::MAX,
        ensures
            r@ == spec_mul(self@, other@),
    {
        Vec2 { x: self.x * other.x, y: self.y * other.y }
    }

    /// Component-wise negation.
    pub fn neg(self) -> (r: Vec2)
        requires
            self.x > i64::MIN,
            self.y > i64::MIN,
        ensures
            r@ == spec_neg(self@),
    {
        Vec2 { x: -self.x, y: -self.y }
    }

    /// Adds the scalar to both components.
    pub fn add_scalar(self, s: i64) -> (r: Vec2)
        requires
            i64::MIN <= self.x + s <= i64::MAX,
            i64::MIN <= self.y + s <= i64::MAX,
        ensures
            r@ == spec_add_scalar(self@, s as int),
    {
        Vec2 { x: self.x + s, y: self.y + s }
    }

    /// Subtracts the scalar from both components.
    pub fn sub_scalar(self, s: i64) -> (r: Vec2)
        requires
            i64::MIN <= self.x - s <= i64::MAX,
            i64::MIN <= self.y - s <= i64::MAX,
        ensures
            r@ == spec_sub_scalar(self@, s as int),
    {
        Vec2 { x: self.x - s, y: self.y - s }
    }

    /// Scales both components by the scalar.
    pub fn mul_scalar(self, s: i64) -> (r: Vec2)
        requires
            i64::MIN <= self.x * s <= i64::MAX,
            i64::MIN <= self.y * s <= i64::MAX,
        ensures
            r@ == spec_mul_scalar(self@, s as int),
    {
        Vec2 { x: self.x * s, y: self.y * s }
    }

    /// In-place component-wise addition.
    pub fn add_assign(&mut self, other: Vec2)
        requires
            i64::MIN <= old(self).x + other.x <= i64::MAX,
            i64::MIN <= old(self).y + other.y <= i64::MAX,
        ensures
            final(self)@ == spec_add(old(self)@, other@),
    {
        self.x = self.x + other.x;
        self.y = self.y + other.y;
    }

    /// In-place component-wise subtraction.
    pub fn sub_assign(&mut self, other: Vec2)
        requires
            i64::MIN <= old(self).x - other.x <= i64::MAX,
            i64::MIN <= old(self).y - other.y <= i64::MAX,
        ensures
            final(self)@ == spec_sub(old(self)@, other@),
    {
        self.x = self.x - other.x;
        self.y = self.y - other.y;
    }

    /// In-place component-wise multiplication.
    pub fn mul_assign(&mut self, other: Vec2)
        requires
            i64::MIN <= old(self).x * other.x <= i64::MAX,
            i64::MIN <= old(self).y * other.y <= i64::MAX,
        ensures
            final(self)@ == spec_mul(old(self)@, other@),
    {
        self.x = self.x * other.x;
        self.y = self.y * other.y;
    }

    /// In-place addition of the scalar to both components.
    pub fn add_scalar_assign(&mut self, s: i64)
        requires
            i64::MIN <= old(self).x + s <= i64::MAX,
            i64::MIN <= old(self).y + s <= i64::MAX,
        ensures
            final(self)@ == spec_add_scalar(old(self)@, s as int),
    {
        self.x = self.x + s;
        self.y = self.y + s;
    }

    /// In-place subtraction of the scalar from both components.
    pub fn sub_scalar_assign(&mut self, s: i64)
        requires
            i64::MIN <= old(self).x - s <= i64::MAX,
            i64::MIN <= old(self).y - s <= i64::MAX,
        ensures
            final(self)@ == spec_sub_scalar(old(self)@, s as int),
    {
        self.x = self.x - s;
        self.y = self.y - s;
    }

    /// In-place scaling of both components by the scalar.
    pub fn mul_scalar_assign(&mut self, s: i64)
        requires
            i64::MIN <= old(self).x * s <= i64::MAX,
            i64::MIN <= old(self).y * s <= i64::MAX,
        ensures
            final(self)@ == spec_mul_scalar(old(self)@, s as int),
    {
        self.x = self.x * s;
        self.y = self.y * s;
    }

    /// Linear interpolation from `self` towards `other` by `factor`;
    /// factors outside `[0, 1]` extrapolate.
    pub fn lerp(self, other: Vec2, factor: i64) -> (r: Vec2)
        requires
            i64::MIN <= other.x - self.x <= i64::MAX,
            i64::MIN <= other.y - self.y <= i64::MAX,
            i64::MIN <= factor * (other.x - self.x) <= i64::MAX,
            i64::MIN <= factor * (other.y - self.y) <= i64::MAX,
            i64::MIN <= self.x + factor * (other.x - self.x) <= i64::MAX,
            i64::MIN <= self.y + factor * (other.y - self.y) <= i64::MAX,
        ensures
            r@ == spec_lerp(self@, other@, factor as int),
    {
        Vec2 {
            x: self.x + factor * (other.x - self.x),
            y: self.y + factor * (other.y - self.y),
        }
    }

    /// Rotates `self` by the angle given exactly through its cosine and
    /// sine. A quarter turn, for one, is the pair `(0, 1)`. The pair is
    /// used as given; only one on the unit circle rotates rigidly.
    pub fn rotate(self, cos: i64, sin: i64) -> (r: Vec2)
        requires
            i64::MIN <= self.x * cos <= i64::MAX,
            i64::MIN <= self.y * sin <= i64::MAX,
            i64::MIN <= self.x * cos - self.y * sin <= i64::MAX,
            i64::MIN <= self.x * sin <= i64::MAX,
            i64::MIN <= self.y * cos <= i64::MAX,
            i64::MIN <= self.x * sin + self.y * cos <= i64::MAX,
        ensures
            r@ == spec_rotate(self@, cos as int, sin as int),
    {
        Vec2 {
            x: self.x * cos - self.y * sin,
            y: self.x * sin + self.y * cos,
        }
    }

    /// Component-wise absolute value.
    pub fn abs(self) -> (r: Vec2)
        requires
            self.x > i64::MIN,
            self.y > i64::MIN,
        ensures
            r@ == spec_abs(self@),
    {
        let ax: i64 = if self.x < 0 {
            -self.x
        } else {
            self.x
        };
        let ay: i64 = if self.y < 0 {
            -self.y
        } else {
            self.y
        };
        Vec2 { x: ax, y: ay }
    }

    /// Component-wise absolute difference.
    pub fn abs_diff(self, other: Vec2) -> (r: Vec2)
        requires
            -i64::MAX <= self.x - other.x <= i64::MAX,
            -i64::MAX <= self.y - other.y <= i64::MAX,
        ensures
            r@ == spec_abs_diff(self@, other@),
    {
        let dx: i64 = self.x - other.x;
        let dy: i64 = self.y - other.y;
        let ax: i64 = if dx < 0 {
            -dx
        } else {
            dx
        };
        let ay: i64 = if dy < 0 {
            -dy
        } else {
            dy
        };
        Vec2 { x: ax, y: ay }
    }

    /// Component-wise clamp of `self` into the per-axis range `[min, max]`.
    /// Each component is first raised to at least the `min` component, then
    /// lowered to at most the `max` component.
    pub fn clamp(self, min: Vec2, max: Vec2) -> (r: Vec2)
        ensures
            r@ == spec_clamp(self@, min@, max@),
    {
        let rx: i64 = if min.x >= self.x {
            min.x
        } else {
            self.x
        };
        let ry: i64 = if min.y >= self.y {
            min.y
        } else {
            self.y
        };
        let cx: i64 = if max.x <= rx {
            max.x
        } else {
            rx
        };
        let cy: i64 = if max.y <= ry {
            max.y
        } else {
            ry
        };
        Vec2 { x: cx, y: cy }
    }
}

impl Default for Vec2 {
    /// The zero vector.
    fn default() -> (r: Vec2)
        ensures
            r@ == (0int, 0int),
    {
        Vec2::null()
    }
}

} // verus!
