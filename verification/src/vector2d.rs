use vstd::prelude::*;

verus! {

/// A 2-dimensional vector over `T`: an immutable ordered pair of
/// components. Equality and hashing are structural, derived from the
/// two components.
#[derive(Clone, Copy, Debug, PartialEq, Eq, Hash, Structural)]
pub struct Vector2D<T> {
    /// The x component.
    pub x: T,
    /// The y component.
    pub y: T,
}

impl<T: Copy> Vector2D<T> {
    /// Creates a new 2-dimensional vector from its two components.
    pub fn new(x: T, y: T) -> (result: Self)
        ensures
            result.x == x,
            result.y == y,
    {
        Vector2D { x, y }
    }

    /// Returns the x component of the vector, by value.
    pub fn x(&self) -> (r: T)
        ensures
            r == self.x,
    {
        self.x
    }

    /// Returns the y component of the vector, by value.
    pub fn y(&self) -> (r: T)
        ensures
            r == self.y,
    {
        self.y
    }
}

/// True when `v` is the zero vector: both components equal the scalar's
/// zero, the canonical origin. The zero vector has no polar angle.
pub open spec fn is_zero(v: Vector2D<i64>) -> bool {
    v.x == 0 && v.y == 0
}

/// True when `v` lies in the lower angular half: polar angle in [pi, 2*pi).
/// By convention this is lexicographic `(y, x) < (0, 0)`, so the negative
/// x-axis (angle exactly pi) counts as lower, while the positive x-axis
/// (angle exactly 0) does not.
pub open spec fn in_lower_half(v: Vector2D<i64>) -> bool {
    v.y < 0 || (v.y == 0 && v.x < 0)
}

/// The 2D cross product of `a` and `b` in scalar form. Its sign gives the
/// rotational direction from `a` to `b`: positive means `b` is
/// counter-clockwise from `a` (within an angular half-plane).
pub open spec fn cross(a: Vector2D<i64>, b: Vector2D<i64>) -> int {
    a.x * b.y - b.x * a.y
}

/// The dot product of `a` and `b`. For collinear non-zero vectors its sign
/// tells the same direction (positive) from the opposite one (negative).
pub open spec fn dot(a: Vector2D<i64>, b: Vector2D<i64>) -> int {
    a.x * b.x + a.y * b.y
}

/// The polar angle of `a` is strictly smaller than the polar angle of `b`,
/// both angles measured counter-clockwise from the positive x-axis over
/// [0, 2*pi): either `a` is in the upper half and `b` in the lower, or both
/// are in the same half and `b` is counter-clockwise from `a`.
pub open spec fn arg_lt(a: Vector2D<i64>, b: Vector2D<i64>) -> bool {
    ||| !in_lower_half(a) && in_lower_half(b)
    ||| in_lower_half(a) == in_lower_half(b) && cross(a, b) > 0
}

/// `a` and `b` have the same polar angle: same angular half and collinear.
pub open spec fn arg_eq(a: Vector2D<i64>, b: Vector2D<i64>) -> bool {
    in_lower_half(a) == in_lower_half(b) && cross(a, b) == 0
}

impl Vector2D<i64> {
    /// Returns the zero vector `(0, 0)`.
    pub fn zero() -> (result: Self)
        ensures
            result.x == 0,
            result.y == 0,
            is_zero(result),
    {
        Vector2D { x: 0, y: 0 }
    }

    /// Convenience constructor from narrower integer literals: converts
    /// each component and delegates to `new`. Carries no semantics beyond
    /// `new` with the converted components.
    pub fn from_i32(x: i32, y: i32) -> (result: Self)
        ensures
            result.x == x as i64,
            result.y == y as i64,
    {
        Vector2D::new(x as i64, y as i64)
    }

    /// Compares `self` and `other` by their argument (polar angle).
    ///
    /// The argument is measured counter-clockwise from the positive x-axis,
    /// ranging over [0, 2*pi). The positive x-axis has argument 0. No angle
    /// is ever computed: the order is decided exactly, by the half-plane
    /// each vector lies in and by the sign of their cross product.
    ///
    /// The zero vector has no argument, so neither operand may be zero.
    pub fn arg_cmp(&self, other: &Self) -> (r: core::cmp::Ordering)
        requires
            !is_zero(*self),
            !is_zero(*other),
        ensures
            r == core::cmp::Ordering::Less <==> arg_lt(*self, *other),
            r == core::cmp::Ordering::Equal <==> arg_eq(*self, *other),
            r == core::cmp::Ordering::Greater <==> arg_lt(*other, *self),
    {
        let self_lower: bool = self.y < 0 || (self.y == 0 && self.x < 0);
        let other_lower: bool = other.y < 0 || (other.y == 0 && other.x < 0);
        if self_lower != other_lower {
            if other_lower {
                core::cmp::Ordering::Less
            } else {
                core::cmp::Ordering::Greater
            }
        } else {
            proof {
                lemma_i64_product_fits_i128(other.x as int, self.y as int);
                lemma_i64_product_fits_i128(self.x as int, other.y as int);
            }
            let lhs: i128 = (other.x as i128) * (self.y as i128);
            let rhs: i128 = (self.x as i128) * (other.y as i128);
            if lhs < rhs {
                core::cmp::Ordering::Less
            } else if lhs == rhs {
                core::cmp::Ordering::Equal
            } else {
                core::cmp::Ordering::Greater
            }
        }
    }
}

/// The product of two values in `i64` range fits in `i128`.
proof fn lemma_i64_product_fits_i128(a: int, b: int)
    requires
        i64::MIN <= a <= i64::MAX,
        i64::MIN <= b <= i64::MAX,
    ensures
        i128::MIN <= a * b <= i128::MAX,
{
    assert(i128::MIN <= a * b <= i128::MAX) by (nonlinear_arith)
        requires
            -0x8000000000000000 <= a <= 0x7fffffffffffffff,
            -0x8000000000000000 <= b <= 0x7fffffffffffffff,
    ;
}

/// Equality of vectors is equality of their components.
pub proof fn lemma_eq_components<T>(a: Vector2D<T>, b: Vector2D<T>)
    ensures
        a == b <==> (a.x == b.x && a.y == b.y),
{
}

/// Two vectors compare equal by angle when they are the same vector.
pub proof fn lemma_arg_eq_reflexive(a: Vector2D<i64>)
    ensures
        arg_eq(a, a),
{
}

/// Angular order is asymmetric: two vectors never each precede the other.
pub proof fn lemma_arg_lt_asymmetric(a: Vector2D<i64>, b: Vector2D<i64>)
    ensures
        !(arg_lt(a, b) && arg_lt(b, a)),
{
}

/// Angular order is trichotomous: of `a` before `b`, `b` before `a`, and
/// `a` at the same angle as `b`, exactly one holds.
pub proof fn lemma_arg_trichotomy(a: Vector2D<i64>, b: Vector2D<i64>)
    ensures
        arg_lt(a, b) || arg_lt(b, a) || arg_eq(a, b),
        arg_lt(a, b) ==> !arg_lt(b, a) && !arg_eq(a, b),
        arg_lt(b, a) ==> !arg_lt(a, b) && !arg_eq(a, b),
        arg_eq(a, b) ==> !arg_lt(a, b) && !arg_lt(b, a),
{
}

/// Within one angular half-plane, a positive cross product is transitive.
proof fn lemma_cross_transitive_same_half(
    a: Vector2D<i64>,
    b: Vector2D<i64>,
    c: Vector2D<i64>,
)
    requires
        !is_zero(a),
        !is_zero(b),
        !is_zero(c),
        in_lower_half(a) == in_lower_half(b),
        in_lower_half(b) == in_lower_half(c),
        cross(a, b) > 0,
        cross(b, c) > 0,
    ensures
        cross(a, c) > 0,
{
    let ax: int = a.x as int;
    let ay: int = a.y as int;
    let bx: int = b.x as int;
    let by: int = b.y as int;
    let cx: int = c.x as int;
    let cy: int = c.y as int;
    if !in_lower_half(a) {
        assert(ax * cy - cx * ay > 0) by (nonlinear_arith)
            requires
                ay > 0 || (ay == 0 && ax > 0),
                by > 0 || (by == 0 && bx > 0),
                cy > 0 || (cy == 0 && cx > 0),
                ax * by - bx * ay > 0,
                bx * cy - cx * by > 0,
        ;
    } else {
        assert(ax * cy - cx * ay > 0) by (nonlinear_arith)
            requires
                ay < 0 || (ay == 0 && ax < 0),
                by < 0 || (by == 0 && bx < 0),
                cy < 0 || (cy == 0 && cx < 0),
                ax * by - bx * ay > 0,
                bx * cy - cx * by > 0,
        ;
    }
}

/// Angular order is transitive over non-zero vectors.
pub proof fn lemma_arg_lt_transitive(
    a: Vector2D<i64>,
    b: Vector2D<i64>,
    c: Vector2D<i64>,
)
    requires
        !is_zero(a),
        !is_zero(b),
        !is_zero(c),
        arg_lt(a, b),
        arg_lt(b, c),
    ensures
        arg_lt(a, c),
{
    if in_lower_half(a) == in_lower_half(b) && in_lower_half(b) == in_lower_half(c) {
        lemma_cross_transitive_same_half(a, b, c);
    }
}

/// Two non-zero vectors compare equal by angle exactly when they point the
/// same way: they are collinear and their dot product is positive.
pub proof fn lemma_arg_eq_same_direction(a: Vector2D<i64>, b: Vector2D<i64>)
    requires
        !is_zero(a),
        !is_zero(b),
    ensures
        arg_eq(a, b) <==> (cross(a, b) == 0 && dot(a, b) > 0),
{
    let ax: int = a.x as int;
    let ay: int = a.y as int;
    let bx: int = b.x as int;
    let by: int = b.y as int;
    if cross(a, b) == 0 {
        if in_lower_half(a) == in_lower_half(b) {
            if !in_lower_half(a) {
                assert(ax * bx + ay * by > 0) by (nonlinear_arith)
                    requires
                        ay > 0 || (ay == 0 && ax > 0),
                        by > 0 || (by == 0 && bx > 0),
                        ax * by - bx * ay == 0,
                ;
            } else {
                assert(ax * bx + ay * by > 0) by (nonlinear_arith)
                    requires
                        ay < 0 || (ay == 0 && ax < 0),
                        by < 0 || (by == 0 && bx < 0),
                        ax * by - bx * ay == 0,
                ;
            }
        } else if !in_lower_half(a) {
            assert(!(ax * bx + ay * by > 0)) by (nonlinear_arith)
                requires
                    ay > 0 || (ay == 0 && ax > 0),
                    by < 0 || (by == 0 && bx < 0),
                    ax * by - bx * ay == 0,
            ;
        } else {
            assert(!(ax * bx + ay * by > 0)) by (nonlinear_arith)
                requires
                    ay < 0 || (ay == 0 && ax < 0),
                    by > 0 || (by == 0 && bx > 0),
                    ax * by - bx * ay == 0,
            ;
        }
    }
}

/// Angular equality is symmetric.
pub proof fn lemma_arg_eq_symmetric(a: Vector2D<i64>, b: Vector2D<i64>)
    ensures
        arg_eq(a, b) <==> arg_eq(b, a),
{
}

/// Angular equality is transitive over non-zero vectors.
pub proof fn lemma_arg_eq_transitive(
    a: Vector2D<i64>,
    b: Vector2D<i64>,
    c: Vector2D<i64>,
)
    requires
        !is_zero(a),
        !is_zero(b),
        !is_zero(c),
        arg_eq(a, b),
        arg_eq(b, c),
    ensures
        arg_eq(a, c),
{
    let ax: int = a.x as int;
    let ay: int = a.y as int;
    let bx: int = b.x as int;
    let by: int = b.y as int;
    let cx: int = c.x as int;
    let cy: int = c.y as int;
    assert(ax * cy - cx * ay == 0) by (nonlinear_arith)
        requires
            bx != 0 || by != 0,
            ax * by - bx * ay == 0,
            bx * cy - cx * by == 0,
    ;
}

} // verus!
