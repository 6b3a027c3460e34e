//! The pixel element and the two-dimensional pixel grid.
//!
//! The grid's backing store is `ndarray::Array2`, held in a private field of
//! [`PixelGrid`]; its contents and shape are named by uninterpreted spec
//! functions that every trusted wrapper's contract speaks of.

use vstd::prelude::*;

verus! {

/// The foreign pixel element: four 8-bit channels, stored in the foreign
/// order `b`, `g`, `r`, `a`.
#[derive(Clone, Copy, Debug, PartialEq, Eq, Structural)]
pub struct Color {
    pub b: u8,
    pub g: u8,
    pub r: u8,
    pub a: u8,
}

/// An owned two-dimensional pixel grid backed by `ndarray::Array2`.
///
/// Every value is built by [`PixelGrid::from_vec`], so the backing array is
/// always in the default row-major (standard) layout.
#[verifier::external_body]
pub struct PixelGrid {
    inner: ndarray::Array2<Color>,
}

/// The pixels a grid holds, flattened in row-major order.
pub uninterp spec fn grid_pixels(g: PixelGrid) -> Seq<Color>;

/// The shape of a grid: rows, then columns.
pub uninterp spec fn grid_shape(g: PixelGrid) -> (nat, nat);

/// A grid is rectangular: as many pixels as the shape's product.
pub open spec fn grid_wf(g: PixelGrid) -> bool {
    grid_pixels(g).len() == grid_shape(g).0 * grid_shape(g).1
}

impl PixelGrid {
    /// Relies on ndarray's `Array2::from_shape_vec`: with a plain (row-major)
    /// shape whose product equals the vector's length, it returns an array of
    /// that shape holding exactly those elements, in row-major order.
    #[verifier::external_body]
    pub fn from_vec(h: usize, w: usize, data: Vec<Color>) -> (r: PixelGrid)
        requires
            h * w == data@.len(),
        ensures
            grid_shape(r) == (h as nat, w as nat),
            grid_pixels(r) == data@,
    {
        PixelGrid { inner: ndarray::Array2::from_shape_vec((h, w), data).unwrap() }
    }

    /// Relies on ndarray's `ArrayBase::dim`: it returns the array's shape,
    /// whose product is the element count (`ArrayBase::len`, a `usize`).
    #[verifier::external_body]
    pub fn dim(&self) -> (r: (usize, usize))
        ensures
            r.0 as nat == grid_shape(*self).0,
            r.1 as nat == grid_shape(*self).1,
            r.0 as nat * r.1 as nat == grid_pixels(*self).len(),
            r.0 as nat * r.1 as nat <= usize::MAX as nat,
    {
        self.inner.dim()
    }

    /// Relies on ndarray's `Index` impl for `Array2`: in a row-major
    /// (standard layout) array, `a[[i, j]]` is element `i * w + j` of the
    /// backing storage.
    #[verifier::external_body]
    pub fn get(&self, i: usize, j: usize) -> (r: Color)
        requires
            i < grid_shape(*self).0,
            j < grid_shape(*self).1,
            grid_wf(*self),
        ensures
            r == grid_pixels(*self)[i as int * grid_shape(*self).1 as int + j as int],
    {
        self.inner[[i, j]]
    }
}

} // verus!
