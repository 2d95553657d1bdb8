//! Geometric and linear-algebra value types.

use vstd::prelude::*;

pub mod binary32;

use crate::math::binary32::Binary32;

verus! {

/// Convolution kernels a backend can apply before it reduces resolution.
#[derive(Debug, Clone, Copy, PartialEq, Eq, Structural)]
pub enum KernelKind {
    Gaussian,
}

pub type Rectf = Rect<Binary32>;

pub type Vec2f = Vec2<Binary32>;

pub type Vec3f = Vec3<Binary32>;

pub type Mat2f = Mat<Binary32, 2, 2>;

pub type Mat3f = Mat<Binary32, 3, 3>;

pub type Mat3x4f = Mat<Binary32, 3, 4>;

pub type Mat4x3f = Mat<Binary32, 4, 3>;

/// An axis-aligned rectangle given by its four edges.
#[derive(Debug, Clone, Copy)]
pub struct Rect<F> {
    pub left: F,
    pub right: F,
    pub top: F,
    pub bottom: F,
}

impl<F> Rect<F> {
    /// Builds a rectangle from its edges, in the order left, right, top, bottom.
    pub fn new(left: F, right: F, top: F, bottom: F) -> (rect: Self)
        ensures
            rect == (Rect { left, right, top, bottom }),
    {
        Self { left, right, top, bottom }
    }
}

/// A vector of two components.
#[derive(Debug, Clone, Copy)]
pub struct Vec2<F> {
    pub x: F,
    pub y: F,
}

/// A vector of three components.
#[derive(Debug, Clone, Copy)]
pub struct Vec3<F> {
    pub x: F,
    pub y: F,
    pub z: F,
}

/// A matrix of `H` rows, each of `W` entries.
#[derive(Debug, Clone, Copy)]
pub struct Mat<F, const W: usize, const H: usize> {
    data: [[F; W]; H],
}

impl<F, const W: usize, const H: usize> Mat<F, W, H> {
    /// The rows of the matrix, from the first to the last.
    pub closed spec fn spec_rows(&self) -> [[F; W]; H] {
        self.data
    }

    /// Builds a matrix from its rows.
    pub fn new(rows: [[F; W]; H]) -> (mat: Self)
        ensures
            mat.spec_rows() == rows,
    {
        Self { data: rows }
    }

    /// The rows of the matrix, from the first to the last.
    pub fn rows(&self) -> (rows: &[[F; W]; H])
        ensures
            *rows == self.spec_rows(),
    {
        &self.data
    }
}

} // verus!
