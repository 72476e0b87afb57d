use vstd::prelude::*;

use crate::mesh::coord::{lemma_index_determines_coord, lemma_next_up_down, lemma_next_up_down_exist};
use crate::mesh::node::{
    lemma_from_meshcode_roundtrip, lemma_meshcode_roundtrip, lemma_node_is_unit, max_longitude_index,
    node, spec_from_meshcode, MeshNode,
};
use crate::mesh::unit::MeshUnit;

verus! {

/// The cell of the four nodes and the unit given.
pub open(crate) spec fn cell(
    south_west: MeshNode,
    south_east: MeshNode,
    north_west: MeshNode,
    north_east: MeshNode,
    mesh_unit: MeshUnit,
) -> MeshCell {
    MeshCell { south_west, south_east, north_west, north_east, mesh_unit }
}

/// The four nodes are the corners of a unit cell of the mesh of
/// `mesh_unit`: all four are nodes of that mesh, the south-east node is the
/// next to the east of the south-west one, the north-west node the next to
/// its north, and the north-east node the next to the north of the
/// south-east one.
pub open(crate) spec fn is_unit_cell(
    south_west: MeshNode,
    south_east: MeshNode,
    north_west: MeshNode,
    north_east: MeshNode,
    mesh_unit: MeshUnit,
) -> bool {
    &&& south_west.is_unit(mesh_unit)
    &&& south_east.is_unit(mesh_unit)
    &&& north_west.is_unit(mesh_unit)
    &&& north_east.is_unit(mesh_unit)
    &&& south_west.latitude.spec_next_up(mesh_unit) matches Some(lat_next)
    &&& south_west.longitude.spec_next_up(mesh_unit) matches Some(lng_next)
    &&& north_west.latitude == lat_next
    &&& north_west.longitude == south_west.longitude
    &&& south_east.latitude == south_west.latitude
    &&& south_east.longitude == lng_next
    &&& north_east.latitude == lat_next
    &&& north_east.longitude == lng_next
}

/// The unit cell of the mesh of `mesh_unit` whose south-west node is
/// `node`, if there is one.
pub open(crate) spec fn spec_from_node(node_sw: MeshNode, mesh_unit: MeshUnit) -> Option<MeshCell> {
    match (node_sw.latitude.spec_next_up(mesh_unit), node_sw.longitude.spec_next_up(mesh_unit)) {
        (Some(lat_next), Some(lng_next)) => if lng_next.index() <= max_longitude_index() {
            Some(
                cell(
                    node_sw,
                    node(node_sw.latitude, lng_next),
                    node(lat_next, node_sw.longitude),
                    node(lat_next, lng_next),
                    mesh_unit,
                ),
            )
        } else {
            None
        },
        _ => None,
    }
}

/// The unit cell of the mesh of `mesh_unit` whose south-west node `meshcode`
/// stands for, if there is one.
pub open(crate) spec fn spec_cell_from_meshcode(meshcode: int, mesh_unit: MeshUnit) -> Option<
    MeshCell,
> {
    match spec_from_meshcode(meshcode) {
        Some(n) => spec_from_node(n, mesh_unit),
        None => None,
    }
}

/// Represents a unit mesh cell, a quadruplet of [`MeshNode`]s and a [`MeshUnit`].
///
/// There is no other node of the mesh of the unit inside the cell.
#[derive(Debug, PartialEq, Eq, Structural, Hash, Clone, Copy)]
pub struct MeshCell {
    /// The south-west node of the cell
    pub(crate) south_west: MeshNode,
    /// The south-east node of the cell
    pub(crate) south_east: MeshNode,
    /// The north-west node of the cell
    pub(crate) north_west: MeshNode,
    /// The north-east node of the cell
    pub(crate) north_east: MeshNode,
    /// The mesh unit which is consistent with nodes
    pub(crate) mesh_unit: MeshUnit,
}

impl MeshCell {
    /// The nodes are valid and are the corners of a unit cell.
    #[verifier::type_invariant]
    pub open(crate) spec fn wf(self) -> bool {
        &&& self.south_west.wf()
        &&& self.south_east.wf()
        &&& self.north_west.wf()
        &&& self.north_east.wf()
        &&& is_unit_cell(
            self.south_west,
            self.south_east,
            self.north_west,
            self.north_east,
            self.mesh_unit,
        )
    }

    /// The south-west node.
    pub open(crate) spec fn spec_south_west(self) -> MeshNode {
        self.south_west
    }

    /// The south-east node.
    pub open(crate) spec fn spec_south_east(self) -> MeshNode {
        self.south_east
    }

    /// The north-west node.
    pub open(crate) spec fn spec_north_west(self) -> MeshNode {
        self.north_west
    }

    /// The north-east node.
    pub open(crate) spec fn spec_north_east(self) -> MeshNode {
        self.north_east
    }

    /// The mesh unit.
    pub open(crate) spec fn spec_mesh_unit(self) -> MeshUnit {
        self.mesh_unit
    }

    /// The cell of the four nodes and the unit, if they make a unit cell.
    pub open(crate) spec fn spec_new(
        south_west: MeshNode,
        south_east: MeshNode,
        north_west: MeshNode,
        north_east: MeshNode,
        mesh_unit: MeshUnit,
    ) -> Option<MeshCell> {
        if is_unit_cell(south_west, south_east, north_west, north_east, mesh_unit) {
            Some(cell(south_west, south_east, north_west, north_east, mesh_unit))
        } else {
            None
        }
    }

    /// Makes a [`MeshCell`].
    ///
    /// # Errors
    ///
    /// Returns [`None`] when the nodes and `mesh_unit` does not
    /// construct a unit cell.
    pub fn new(
        south_west: MeshNode,
        south_east: MeshNode,
        north_west: MeshNode,
        north_east: MeshNode,
        mesh_unit: MeshUnit,
    ) -> (r: Option<Self>)
        ensures
            r == MeshCell::spec_new(south_west, south_east, north_west, north_east, mesh_unit),
    {
        proof {
            use_type_invariant(&south_west);
            use_type_invariant(&south_east);
            use_type_invariant(&north_west);
            use_type_invariant(&north_east);
        }
        // consistently on unit v.s. the third
        if !south_west.is_mesh_unit(&mesh_unit) || !south_east.is_mesh_unit(&mesh_unit)
            || !north_west.is_mesh_unit(&mesh_unit) || !north_east.is_mesh_unit(&mesh_unit) {
            return None;
        }
        let lat_next = match south_west.latitude.next_up(&mesh_unit) {
            Some(r) => r,
            None => return None,
        };
        let lng_next = match south_west.longitude.next_up(&mesh_unit) {
            Some(r) => r,
            None => return None,
        };
        if lat_next != north_west.latitude || south_west.longitude != north_west.longitude
            || south_west.latitude != south_east.latitude || lng_next != south_east.longitude
            || lat_next != north_east.latitude || lng_next != north_east.longitude {
            return None;
        }
        Some(MeshCell { south_west, south_east, north_west, north_east, mesh_unit })
    }

    /// Returns the south-west node of `self`.
    pub fn south_west(&self) -> (r: &MeshNode)
        ensures
            *r == self.spec_south_west(),
    {
        &self.south_west
    }

    /// Returns the south-east node of `self`.
    pub fn south_east(&self) -> (r: &MeshNode)
        ensures
            *r == self.spec_south_east(),
    {
        &self.south_east
    }

    /// Returns the north-west node of `self`.
    pub fn north_west(&self) -> (r: &MeshNode)
        ensures
            *r == self.spec_north_west(),
    {
        &self.north_west
    }

    /// Returns the north-east node of `self`.
    pub fn north_east(&self) -> (r: &MeshNode)
        ensures
            *r == self.spec_north_east(),
    {
        &self.north_east
    }

    /// Returns the mesh unit of `self`.
    pub fn mesh_unit(&self) -> (r: &MeshUnit)
        ensures
            *r == self.spec_mesh_unit(),
    {
        &self.mesh_unit
    }

    /// Makes a [`MeshCell`] with the south-west [`MeshNode`] which represented by meshcode `code`.
    ///
    /// # Errors
    ///
    /// Returns [`None`] when an invalid `meshcode` given,
    /// or it cannot construct a unit cell.
    pub fn try_from_meshcode(meshcode: &u32, mesh_unit: MeshUnit) -> (r: Option<Self>)
        ensures
            r == spec_cell_from_meshcode(*meshcode as int, mesh_unit),
            r == (match spec_from_meshcode(*meshcode as int) {
                Some(n) => spec_from_node(n, mesh_unit),
                None => None,
            }),
            r matches Some(c) ==> c.spec_south_west().meshcode() == *meshcode,
    {
        proof {
            lemma_cell_from_meshcode(*meshcode as int, mesh_unit);
        }
        match MeshNode::try_from_meshcode(meshcode) {
            Some(r) => Self::try_from_node(r, mesh_unit),
            None => None,
        }
    }

    /// Makes a [`MeshCell`] that has `node` as a south-west node.
    ///
    /// # Errors
    ///
    /// Returns [`None`] when it cannot construct a unit cell.
    pub fn try_from_node(node: MeshNode, mesh_unit: MeshUnit) -> (r: Option<Self>)
        ensures
            r == spec_from_node(node, mesh_unit),
    {
        proof {
            use_type_invariant(&node);
            lemma_next_up_down(node.latitude, mesh_unit);
            lemma_next_up_down(node.longitude, mesh_unit);
        }
        let next_lat_coord = match node.latitude.next_up(&mesh_unit) {
            Some(r) => r,
            None => return None,
        };
        let next_lng_coord = match node.longitude.next_up(&mesh_unit) {
            Some(r) => r,
            None => return None,
        };
        let south_east = match MeshNode::new(node.latitude, next_lng_coord) {
            Some(r) => r,
            None => return None,
        };
        let north_west = match MeshNode::new(next_lat_coord, node.longitude) {
            Some(r) => r,
            None => return None,
        };
        let north_east = match MeshNode::new(next_lat_coord, next_lng_coord) {
            Some(r) => r,
            None => return None,
        };
        Some(MeshCell { south_west: node, south_east, north_west, north_east, mesh_unit })
    }
}

/// Law: the cell made from a node is a unit cell, accepted by
/// [`MeshCell::new`], whose south-west node is that node.
pub proof fn lemma_from_node_is_unit_cell(node_sw: MeshNode, mesh_unit: MeshUnit)
    requires
        node_sw.wf(),
    ensures
        spec_from_node(node_sw, mesh_unit) matches Some(c) ==> {
            &&& c.wf()
            &&& c.spec_south_west() == node_sw
            &&& c.spec_mesh_unit() == mesh_unit
            &&& MeshCell::spec_new(c.spec_south_west(), c.spec_south_east(), c.spec_north_west(), c.spec_north_east(), mesh_unit)
                == Some(c)
        },
{
    lemma_next_up_down(node_sw.latitude, mesh_unit);
    lemma_next_up_down(node_sw.longitude, mesh_unit);
}

/// Law: a unit cell is determined by its south-west node and its unit:
/// whatever [`MeshCell::new`] accepts, [`MeshCell::try_from_node`] makes
/// from the south-west node alone; and where that fails, no nodes make a
/// unit cell with that south-west node.
pub proof fn lemma_unit_cell_from_south_west(
    south_west: MeshNode,
    south_east: MeshNode,
    north_west: MeshNode,
    north_east: MeshNode,
    mesh_unit: MeshUnit,
)
    requires
        south_west.wf(),
        south_east.wf(),
        north_west.wf(),
        north_east.wf(),
    ensures
        MeshCell::spec_new(south_west, south_east, north_west, north_east, mesh_unit) is Some
            ==> spec_from_node(south_west, mesh_unit) == MeshCell::spec_new(
            south_west,
            south_east,
            north_west,
            north_east,
            mesh_unit,
        ),
        spec_from_node(south_west, mesh_unit) is None ==> MeshCell::spec_new(
            south_west,
            south_east,
            north_west,
            north_east,
            mesh_unit,
        ) is None,
{
    lemma_next_up_down(south_west.latitude, mesh_unit);
    lemma_next_up_down(south_west.longitude, mesh_unit);
}

/// Law: the corners of a unit cell are neighbours in its mesh: the
/// south-east node is the next to the east of the south-west one, the
/// north-west node the next to its north, and the north-east node the next
/// to the north of the south-east one and to the east of the north-west one.
pub proof fn lemma_corners_are_neighbours(c: MeshCell)
    requires
        c.wf(),
    ensures
        c.spec_south_west().spec_next_east(c.spec_mesh_unit()) == Some(c.spec_south_east()),
        c.spec_south_west().spec_next_north(c.spec_mesh_unit()) == Some(c.spec_north_west()),
        c.spec_south_east().spec_next_north(c.spec_mesh_unit()) == Some(c.spec_north_east()),
        c.spec_north_west().spec_next_east(c.spec_mesh_unit()) == Some(c.spec_north_east()),
{
}

/// Law: there is a unit cell with south-west node `n` in the mesh of
/// `mesh_unit` exactly when both coordinates of `n` are nodes of that mesh
/// (their indices are multiples of the step), the latitude one step north is
/// in range, carrying into the second and first digits as needed, and the
/// longitude one step east is at most `(80, 0, 0)`. The cell then has `n` at
/// its south-west, the node one step east at its south-east, one step north
/// at its north-west and one step east and north at its north-east.
pub proof fn lemma_from_node_exists(n: MeshNode, mesh_unit: MeshUnit)
    requires
        n.wf(),
    ensures
        spec_from_node(n, mesh_unit) is Some <==> {
            &&& n.spec_latitude().index() % mesh_unit.step() == 0
            &&& n.spec_longitude().index() % mesh_unit.step() == 0
            &&& n.spec_latitude().index() + mesh_unit.step() <= 7999
            &&& n.spec_longitude().index() + mesh_unit.step() <= 6400
        },
        spec_from_node(n, mesh_unit) matches Some(c) ==> {
            &&& c.wf()
            &&& c.spec_mesh_unit() == mesh_unit
            &&& c.spec_south_west() == n
            &&& c.spec_south_east().spec_latitude() == n.spec_latitude()
            &&& c.spec_south_east().spec_longitude().index() == n.spec_longitude().index()
                + mesh_unit.step()
            &&& c.spec_north_west().spec_latitude().index() == n.spec_latitude().index()
                + mesh_unit.step()
            &&& c.spec_north_west().spec_longitude() == n.spec_longitude()
            &&& c.spec_north_east().spec_latitude() == c.spec_north_west().spec_latitude()
            &&& c.spec_north_east().spec_longitude() == c.spec_south_east().spec_longitude()
        },
{
    lemma_next_up_down_exist(n.latitude, mesh_unit);
    lemma_next_up_down_exist(n.longitude, mesh_unit);
    lemma_from_node_is_unit_cell(n, mesh_unit);
}

/// Law: [`MeshCell::new`] accepts four valid nodes exactly when they are the
/// corners of a unit cell: every coordinate is a node of the mesh of the unit
/// (its index is a multiple of the step), the north-west node is one step
/// north of the south-west one, the south-east node one step east of it,
/// and the north-east node north of the south-east one and east of the
/// north-west one. The cell then has those corners and that unit.
pub proof fn lemma_new_accepts_unit_cells(
    south_west: MeshNode,
    south_east: MeshNode,
    north_west: MeshNode,
    north_east: MeshNode,
    mesh_unit: MeshUnit,
)
    requires
        south_west.wf(),
        south_east.wf(),
        north_west.wf(),
        north_east.wf(),
    ensures
        MeshCell::spec_new(south_west, south_east, north_west, north_east, mesh_unit) is Some
            <==> {
            &&& south_west.spec_latitude().index() % mesh_unit.step() == 0
            &&& south_west.spec_longitude().index() % mesh_unit.step() == 0
            &&& south_east.spec_longitude().index() % mesh_unit.step() == 0
            &&& north_west.spec_latitude().index() % mesh_unit.step() == 0
            &&& north_west.spec_latitude().index() == south_west.spec_latitude().index()
                + mesh_unit.step()
            &&& north_west.spec_longitude() == south_west.spec_longitude()
            &&& south_east.spec_latitude() == south_west.spec_latitude()
            &&& south_east.spec_longitude().index() == south_west.spec_longitude().index()
                + mesh_unit.step()
            &&& north_east.spec_latitude() == north_west.spec_latitude()
            &&& north_east.spec_longitude() == south_east.spec_longitude()
        },
        MeshCell::spec_new(south_west, south_east, north_west, north_east, mesh_unit) matches Some(
            c,
        ) ==> {
            &&& c.wf()
            &&& c.spec_south_west() == south_west
            &&& c.spec_south_east() == south_east
            &&& c.spec_north_west() == north_west
            &&& c.spec_north_east() == north_east
            &&& c.spec_mesh_unit() == mesh_unit
        },
{
    lemma_next_up_down_exist(south_west.latitude, mesh_unit);
    lemma_next_up_down_exist(south_west.longitude, mesh_unit);
    lemma_node_is_unit(south_west, mesh_unit);
    lemma_node_is_unit(south_east, mesh_unit);
    lemma_node_is_unit(north_west, mesh_unit);
    lemma_node_is_unit(north_east, mesh_unit);
    if let Some(lat_next) = south_west.latitude.spec_next_up(mesh_unit) {
        if north_west.latitude.index() == lat_next.index() {
            lemma_index_determines_coord(north_west.latitude, lat_next);
        }
    }
    if let Some(lng_next) = south_west.longitude.spec_next_up(mesh_unit) {
        if south_east.longitude.index() == lng_next.index() {
            lemma_index_determines_coord(south_east.longitude, lng_next);
        }
    }
}

/// Law: the cell of a meshcode is the cell whose south-west node that
/// meshcode stands for: the cell of the meshcode of a node is the cell with
/// that node at its south-west, and the south-west node of the cell of a
/// meshcode has that meshcode.
pub proof fn lemma_cell_from_meshcode(m: int, mesh_unit: MeshUnit)
    ensures
        spec_cell_from_meshcode(m, mesh_unit) == (match spec_from_meshcode(m) {
            Some(n) => spec_from_node(n, mesh_unit),
            None => None,
        }),
        spec_cell_from_meshcode(m, mesh_unit) matches Some(c) ==> {
            &&& c.wf()
            &&& c.spec_south_west().meshcode() == m
            &&& spec_from_node(c.spec_south_west(), mesh_unit) == Some(c)
        },
{
    if let Some(n) = spec_from_meshcode(m) {
        lemma_from_meshcode_roundtrip(m);
        lemma_from_node_is_unit_cell(n, mesh_unit);
    }
}

/// Law: for every node, the cell of its meshcode is the cell with that node
/// at its south-west corner.
pub proof fn lemma_cell_of_node_meshcode(n: MeshNode, mesh_unit: MeshUnit)
    requires
        n.wf(),
    ensures
        spec_cell_from_meshcode(n.meshcode(), mesh_unit) == spec_from_node(n, mesh_unit),
{
    lemma_meshcode_roundtrip(n);
}

} // verus!
