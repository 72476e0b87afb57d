use vstd::prelude::*;

verus! {

/// The mesh unit, the edge length of a unit mesh cell: 1 \[km\] or 5 \[km\].
#[derive(Debug, PartialEq, Eq, Structural, Clone, Copy, Hash)]
pub enum MeshUnit {
    /// 1 \[km\]: every third digit of a mesh coordinate is a node
    One,
    /// 5 \[km\]: only the third digits 0 and 5 are nodes
    Five,
}

impl MeshUnit {
    /// The step of the third digit between two neighbouring nodes.
    pub open spec fn step(self) -> int {
        match self {
            MeshUnit::One => 1,
            MeshUnit::Five => 5,
        }
    }
}

} // verus!
