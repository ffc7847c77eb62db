use vstd::prelude::*;

verus! {

/// A 2D affine transform given row by row as `(a, b, c, d, e, f)`: a point
/// `(x, y)` goes to `(a*x + b*y + c, d*x + e*y + f)`.
#[derive(Clone, Copy, Debug)]
pub struct RowMajorTransform<T> {
    pub a: T,
    pub b: T,
    pub c: T,
    pub d: T,
    pub e: T,
    pub f: T,
}

/// Where a transform with integer components sends the point `(x, y)`.
pub open spec fn maps_point(m: RowMajorTransform<int>, x: int, y: int) -> (int, int) {
    (m.a * x + m.b * y + m.c, m.d * x + m.e * y + m.f)
}

/// Where tiny-skia's `Transform::from_row(sx, ky, kx, sy, tx, ty)` sends the
/// point `(x, y)`: to `(sx*x + kx*y + tx, ky*x + sy*y + ty)`.
pub open spec fn skia_maps_point(row: (int, int, int, int, int, int), x: int, y: int) -> (
    int,
    int,
) {
    (row.0 * x + row.2 * y + row.4, row.1 * x + row.3 * y + row.5)
}

/// The identity transform, written with the given one and zero.
pub open spec fn identity<T>(one: T, zero: T) -> RowMajorTransform<T> {
    RowMajorTransform { a: one, b: zero, c: zero, d: zero, e: one, f: zero }
}

impl<T: Copy> RowMajorTransform<T> {
    /// The components in the order of tiny-skia's `Transform::from_row`.
    pub open spec fn skia_row_spec(self) -> (T, T, T, T, T, T) {
        (self.a, self.d, self.b, self.e, self.c, self.f)
    }

    /// The transform with rows `(a, b, c)` and `(d, e, f)`.
    pub fn new(a: T, b: T, c: T, d: T, e: T, f: T) -> (r: Self)
        ensures
            r == (RowMajorTransform { a, b, c, d, e, f }),
    {
        RowMajorTransform { a, b, c, d, e, f }
    }

    /// The arguments `(sx, ky, kx, sy, tx, ty)` of tiny-skia's
    /// `Transform::from_row` that describe this transform: `(a, d, b, e, c, f)`.
    pub fn skia_row(&self) -> (r: (T, T, T, T, T, T))
        ensures
            r == self.skia_row_spec(),
    {
        (self.a, self.d, self.b, self.e, self.c, self.f)
    }
}

/// Reordering the components for tiny-skia keeps the transform: every point
/// goes where the row-major reading says it goes.
pub proof fn lemma_skia_row_maps_points(m: RowMajorTransform<int>, x: int, y: int)
    ensures
        skia_maps_point(m.skia_row_spec(), x, y) == maps_point(m, x, y),
{
}

/// The row-major identity `(1, 0, 0, 0, 1, 0)` becomes tiny-skia's identity
/// `(1, 0, 0, 1, 0, 0)` and leaves every point, the origin included, where it is.
pub proof fn lemma_identity(x: int, y: int)
    ensures
        identity(1int, 0int).skia_row_spec() == (1int, 0int, 0int, 1int, 0int, 0int),
        maps_point(identity(1int, 0int), x, y) == (x, y),
        skia_maps_point(identity(1int, 0int).skia_row_spec(), x, y) == (x, y),
{
}

/// Only the row-major identity becomes tiny-skia's identity row.
pub proof fn lemma_identity_only<T: Copy>(m: RowMajorTransform<T>, one: T, zero: T)
    requires
        m.skia_row_spec() == (one, zero, zero, one, zero, zero),
    ensures
        m == identity(one, zero),
{
}

} // verus!
