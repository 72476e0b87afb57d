//! Mesh arithmetic of the Japanese gridded correction parameters
//! (`par` files): mesh coordinates, mesh nodes and their 8-digit
//! meshcodes, unit mesh cells, and the lookup of the four corner
//! parameters of a cell.
pub mod mesh;
mod trans;

pub use trans::{MeshCellCorner, Params, TransformError, TransformErrorKind};

pub use mesh::MeshUnit;


use vstd::prelude::*;

verus! {

/// A coordinate of a position on the Earth: `y` is the latitude,
/// `x` the longitude and `nth(2)` the altitude where there is one.
pub trait CoordTrait {
    type T;

    fn x(&self) -> Self::T;

    fn y(&self) -> Self::T;

    fn nth(&self, n: usize) -> Option<Self::T>;
}

} // verus!
