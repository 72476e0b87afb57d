use std::collections::HashMap;

use vstd::prelude::*;

use crate::mesh::cell::MeshCell;

verus! {

broadcast use vstd::std_specs::hash::group_hash_axioms;

/// An error corner of mesh used by [`TransformErrorKind`].
#[derive(Debug, PartialEq, Eq, Structural, Clone, Copy)]
pub enum MeshCellCorner {
    NorthWest,
    NorthEast,
    SouthWest,
    SouthEast,
}

/// An error kind used by [`TransformError`].
#[derive(Debug, PartialEq, Eq, Structural, Clone, Copy)]
pub enum TransformErrorKind {
    ParameterNotFound {
        /// Meshcode where the parameter not found
        meshcode: u32,
        /// Corner of the [`MeshCell`] where the parameter not found
        corner: MeshCellCorner,
    },
    CorrectionNotFound,
    OutOfBounds,
}

/// An error which can be returned on coordinate transforming.
#[derive(Debug, PartialEq, Eq, Structural, Clone, Copy)]
pub struct TransformError {
    pub(crate) kind: TransformErrorKind,
}

/// The error of the kind given.
pub open(crate) spec fn error_of(kind: TransformErrorKind) -> TransformError {
    TransformError { kind }
}

impl TransformError {
    /// The detailed cause.
    pub open(crate) spec fn spec_kind(self) -> TransformErrorKind {
        self.kind
    }

    /// Makes the error of a parameter not found at the corner `corner`,
    /// of meshcode `meshcode`, of a cell.
    pub fn new_pnf(meshcode: u32, corner: MeshCellCorner) -> (r: Self)
        ensures
            r.spec_kind() == (TransformErrorKind::ParameterNotFound { meshcode, corner }),
    {
        Self { kind: TransformErrorKind::ParameterNotFound { meshcode, corner } }
    }

    /// Makes the error of a correction not found.
    pub fn new_cnf() -> (r: Self)
        ensures
            r.spec_kind() == TransformErrorKind::CorrectionNotFound,
    {
        Self { kind: TransformErrorKind::CorrectionNotFound }
    }

    /// Makes the error of a position out of the bounds of the transformation.
    pub fn new_oob() -> (r: Self)
        ensures
            r.spec_kind() == TransformErrorKind::OutOfBounds,
    {
        Self { kind: TransformErrorKind::OutOfBounds }
    }

    /// Returns the detailed cause.
    pub fn kind(&self) -> (r: &TransformErrorKind)
        ensures
            *r == self.spec_kind(),
    {
        &self.kind
    }
}

/// The first corner of `cell`, in the order south-west, south-east,
/// north-west, north-east, whose meshcode has no parameter in `table`, as the
/// error that names it; `None` when all four have one.
pub open(crate) spec fn spec_missing_corner<P>(table: Map<u32, P>, cell: MeshCell) -> Option<
    TransformError,
> {
    let sw = cell.south_west.meshcode() as u32;
    let se = cell.south_east.meshcode() as u32;
    let nw = cell.north_west.meshcode() as u32;
    let ne = cell.north_east.meshcode() as u32;
    if !table.contains_key(sw) {
        Some(
            error_of(
                TransformErrorKind::ParameterNotFound { meshcode: sw, corner: MeshCellCorner::SouthWest },
            ),
        )
    } else if !table.contains_key(se) {
        Some(
            error_of(
                TransformErrorKind::ParameterNotFound { meshcode: se, corner: MeshCellCorner::SouthEast },
            ),
        )
    } else if !table.contains_key(nw) {
        Some(
            error_of(
                TransformErrorKind::ParameterNotFound { meshcode: nw, corner: MeshCellCorner::NorthWest },
            ),
        )
    } else if !table.contains_key(ne) {
        Some(
            error_of(
                TransformErrorKind::ParameterNotFound { meshcode: ne, corner: MeshCellCorner::NorthEast },
            ),
        )
    } else {
        None
    }
}

/// The parameters at the four corners of a mesh cell.
pub struct Params<'a, P> {
    /// The parameter at the south-west corner
    pub sw: &'a P,
    /// The parameter at the south-east corner
    pub se: &'a P,
    /// The parameter at the north-west corner
    pub nw: &'a P,
    /// The parameter at the north-east corner
    pub ne: &'a P,
}

impl<'a, P> Params<'a, P> {
    /// Looks up, in `table` keyed by meshcode, the parameters at the four
    /// corners of `cell`.
    ///
    /// # Errors
    ///
    /// Returns [`Err`] naming the meshcode and the corner of the first corner,
    /// in the order south-west, south-east, north-west, north-east, that has
    /// no parameter in `table`.
    pub fn new(table: &'a HashMap<u32, P>, cell: &MeshCell) -> (r: Result<Self, TransformError>)
        ensures
            match r {
                Ok(params) => {
                    &&& spec_missing_corner(table@, *cell) is None
                    &&& *params.sw == table@[cell.spec_south_west().meshcode() as u32]
                    &&& *params.se == table@[cell.spec_south_east().meshcode() as u32]
                    &&& *params.nw == table@[cell.spec_north_west().meshcode() as u32]
                    &&& *params.ne == table@[cell.spec_north_east().meshcode() as u32]
                },
                Err(e) => spec_missing_corner(table@, *cell) == Some(e),
            },
    {
        let meshcode = cell.south_west.to_meshcode();
        let sw = match table.get(&meshcode) {
            Some(p) => p,
            None => return Err(TransformError::new_pnf(meshcode, MeshCellCorner::SouthWest)),
        };
        let meshcode = cell.south_east.to_meshcode();
        let se = match table.get(&meshcode) {
            Some(p) => p,
            None => return Err(TransformError::new_pnf(meshcode, MeshCellCorner::SouthEast)),
        };
        let meshcode = cell.north_west.to_meshcode();
        let nw = match table.get(&meshcode) {
            Some(p) => p,
            None => return Err(TransformError::new_pnf(meshcode, MeshCellCorner::NorthWest)),
        };
        let meshcode = cell.north_east.to_meshcode();
        let ne = match table.get(&meshcode) {
            Some(p) => p,
            None => return Err(TransformError::new_pnf(meshcode, MeshCellCorner::NorthEast)),
        };
        Ok(Params { sw, se, nw, ne })
    }
}

} // verus!
