use vstd::prelude::*;

verus! {

/// Coordinates of a point in a galactic map, in parsecs.
#[derive(Copy, Clone, PartialEq, Eq, Structural, PartialOrd, Ord, Hash, Debug, Default)]
pub struct SpaceCoordinates {
    /// The x coordinate of the point in parsecs relative to the galactic center.
    pub x: i64,
    /// The y coordinate of the point in parsecs relative to the galactic center.
    pub y: i64,
    /// The z coordinate of the point in parsecs relative to the galactic center.
    pub z: i64,
}

/// Whether `v` fits in an `i64`.
pub open spec fn fits_i64(v: int) -> bool {
    i64::MIN <= v <= i64::MAX
}

/// Whether the component-wise sum of `a` and `b` fits in `i64` on every axis.
pub open spec fn can_add(a: SpaceCoordinates, b: SpaceCoordinates) -> bool {
    &&& fits_i64(a.x + b.x)
    &&& fits_i64(a.y + b.y)
    &&& fits_i64(a.z + b.z)
}

/// Whether the component-wise difference of `a` and `b` fits in `i64` on every axis.
pub open spec fn can_sub(a: SpaceCoordinates, b: SpaceCoordinates) -> bool {
    &&& fits_i64(a.x - b.x)
    &&& fits_i64(a.y - b.y)
    &&& fits_i64(a.z - b.z)
}

/// Whether the component-wise product of `a` and `b` fits in `i64` on every axis.
pub open spec fn can_mul(a: SpaceCoordinates, b: SpaceCoordinates) -> bool {
    &&& fits_i64(a.x * b.x)
    &&& fits_i64(a.y * b.y)
    &&& fits_i64(a.z * b.z)
}

/// Whether the component-wise division of `a` by `b` is defined and fits in `i64`.
pub open spec fn can_div(a: SpaceCoordinates, b: SpaceCoordinates) -> bool {
    &&& b.x != 0 && b.y != 0 && b.z != 0
    &&& !(a.x == i64::MIN && b.x == -1)
    &&& !(a.y == i64::MIN && b.y == -1)
    &&& !(a.z == i64::MIN && b.z == -1)
}

/// Rust's integer division, rounding towards zero.
pub open spec fn trunc_div(a: int, b: int) -> int {
    if a >= 0 && b > 0 {
        a / b
    } else if a >= 0 && b < 0 {
        -(a / (-b))
    } else if a < 0 && b > 0 {
        -((-a) / b)
    } else {
        (-a) / (-b)
    }
}

/// A non-negative quotient by a positive divisor lies between zero and the dividend, and by a
/// divisor of at least two it is at most half of the dividend.
proof fn lemma_quotient_bounds(n: int, m: int)
    requires
        n >= 0,
        m >= 1,
    ensures
        0 <= n / m <= n,
        m >= 2 ==> n / m <= n / 2,
{
    assert(0 <= n / m <= n) by (nonlinear_arith)
        requires
            n >= 0,
            m >= 1,
    ;
    if m >= 2 {
        assert(n / m <= n / 2) by (nonlinear_arith)
            requires
                n >= 0,
                m >= 2,
        ;
    }
}

/// Truncating division of two `i64` values fits in `i64` unless it is `i64::MIN / -1`.
proof fn lemma_trunc_div_fits(a: i64, b: i64)
    requires
        b != 0,
        !(a == i64::MIN && b == -1),
    ensures
        fits_i64(trunc_div(a as int, b as int)),
{
    if a >= 0 && b > 0 {
        lemma_quotient_bounds(a as int, b as int);
    } else if a >= 0 && b < 0 {
        lemma_quotient_bounds(a as int, -b);
    } else if a < 0 && b > 0 {
        lemma_quotient_bounds(-a, b as int);
    } else {
        lemma_quotient_bounds(-a, -b);
    }
}

/// The component-wise sum of two points.
pub open spec fn spec_add(a: SpaceCoordinates, b: SpaceCoordinates) -> SpaceCoordinates {
    SpaceCoordinates { x: (a.x + b.x) as i64, y: (a.y + b.y) as i64, z: (a.z + b.z) as i64 }
}

/// The component-wise difference of two points.
pub open spec fn spec_sub(a: SpaceCoordinates, b: SpaceCoordinates) -> SpaceCoordinates {
    SpaceCoordinates { x: (a.x - b.x) as i64, y: (a.y - b.y) as i64, z: (a.z - b.z) as i64 }
}

/// The component-wise product of two points.
pub open spec fn spec_mul(a: SpaceCoordinates, b: SpaceCoordinates) -> SpaceCoordinates {
    SpaceCoordinates { x: (a.x * b.x) as i64, y: (a.y * b.y) as i64, z: (a.z * b.z) as i64 }
}

/// The component-wise quotient of two points, rounding towards zero.
pub open spec fn spec_div(a: SpaceCoordinates, b: SpaceCoordinates) -> SpaceCoordinates {
    SpaceCoordinates {
        x: trunc_div(a.x as int, b.x as int) as i64,
        y: trunc_div(a.y as int, b.y as int) as i64,
        z: trunc_div(a.z as int, b.z as int) as i64,
    }
}

impl SpaceCoordinates {
    /// Creates a new [SpaceCoordinates] instance.
    pub fn new(x: i64, y: i64, z: i64) -> (r: Self)
        ensures
            r.x == x,
            r.y == y,
            r.z == z,
    {
        SpaceCoordinates { x, y, z }
    }

    /// The component-wise sum of two points.
    pub fn add(self, o: Self) -> (r: Self)
        requires
            can_add(self, o),
        ensures
            r == spec_add(self, o),
    {
        SpaceCoordinates { x: self.x + o.x, y: self.y + o.y, z: self.z + o.z }
    }

    /// The component-wise difference of two points.
    pub fn sub(self, o: Self) -> (r: Self)
        requires
            can_sub(self, o),
        ensures
            r == spec_sub(self, o),
    {
        SpaceCoordinates { x: self.x - o.x, y: self.y - o.y, z: self.z - o.z }
    }

    /// The component-wise product of two points.
    pub fn mul(self, o: Self) -> (r: Self)
        requires
            can_mul(self, o),
        ensures
            r == spec_mul(self, o),
    {
        SpaceCoordinates { x: self.x * o.x, y: self.y * o.y, z: self.z * o.z }
    }

    /// The component-wise quotient of two points, rounding towards zero as Rust's `/` does.
    pub fn div(self, o: Self) -> (r: Self)
        requires
            can_div(self, o),
        ensures
            r == spec_div(self, o),
    {
        proof {
            lemma_trunc_div_fits(self.x, o.x);
            lemma_trunc_div_fits(self.y, o.y);
            lemma_trunc_div_fits(self.z, o.z);
        }
        let x = match self.x.checked_div(o.x) {
            Some(v) => v,
            None => 0,
        };
        let y = match self.y.checked_div(o.y) {
            Some(v) => v,
            None => 0,
        };
        let z = match self.z.checked_div(o.z) {
            Some(v) => v,
            None => 0,
        };
        SpaceCoordinates { x, y, z }
    }

    /// Returns the absolute value of the coordinates in the galaxy. Uses a starting point which
    /// corresponds to the coordinates of the first parsec in the galactic map.
    pub fn abs(self, starting_point: SpaceCoordinates) -> (r: Self)
        requires
            can_sub(self, starting_point),
        ensures
            r == spec_sub(self, starting_point),
    {
        self.sub(starting_point)
    }

    /// Returns the value of the coordinates relative to the center of the galaxy. Uses a starting
    /// point, which corresponds to the coordinates of the first parsec in the galactic map.
    pub fn rel(self, starting_point: SpaceCoordinates) -> (r: Self)
        requires
            can_add(self, starting_point),
        ensures
            r == spec_add(self, starting_point),
    {
        self.add(starting_point)
    }
}

/// Taking a point relative to the galactic center, making it absolute with a starting point and
/// then relative again with the same starting point gives the same point back.
pub proof fn lemma_rel_undoes_abs(c: SpaceCoordinates, start: SpaceCoordinates)
    requires
        can_sub(c, start),
    ensures
        can_add(spec_sub(c, start), start),
        spec_add(spec_sub(c, start), start) == c,
{
}

/// Making an absolute point relative to the galactic center and then absolute again with the same
/// starting point gives the same point back.
pub proof fn lemma_abs_undoes_rel(c: SpaceCoordinates, start: SpaceCoordinates)
    requires
        can_add(c, start),
    ensures
        can_sub(spec_add(c, start), start),
        spec_sub(spec_add(c, start), start) == c,
{
}

} // verus!
