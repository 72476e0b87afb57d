//! Mesh units, mesh coordinates, mesh nodes and mesh cells.
pub mod cell;
pub mod coord;
pub mod node;
pub mod unit;


pub use coord::{MeshCoord, MeshTryFromError};

pub use unit::MeshUnit;
pub use node::MeshNode;
pub use cell::MeshCell;
