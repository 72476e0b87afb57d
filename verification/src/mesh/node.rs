use vstd::prelude::*;

use crate::mesh::coord::{
    coord, lemma_is_unit_index, lemma_next_up_down, spec_coord_from_digits, MeshCoord,
    MeshTryFromError,
};
use crate::mesh::unit::MeshUnit;

verus! {

/// The index of the largest longitude coordinate of a node, `(80, 0, 0)`.
pub open(crate) spec fn max_longitude_index() -> int {
    6400
}

/// The node of the coordinates `latitude` and `longitude`.
pub open(crate) spec fn node(latitude: MeshCoord, longitude: MeshCoord) -> MeshNode {
    MeshNode { latitude, longitude }
}

/// The node that `meshcode` stands for, if any: the digits of
/// `meshcode`, from the highest of its 8 digits, are the first digit of the
/// latitude (two digits), the first of the longitude (two), then the second
/// of the latitude, of the longitude, the third of the latitude and of the
/// longitude.
pub open(crate) spec fn spec_from_meshcode(meshcode: int) -> Option<MeshNode> {
    if 0 <= meshcode < 100_000_000 {
        let lat_first = meshcode / 1_000_000;
        let lng_first = (meshcode / 10_000) % 100;
        let lat_second = (meshcode / 1_000) % 10;
        let lng_second = (meshcode / 100) % 10;
        let lat_third = (meshcode / 10) % 10;
        let lng_third = meshcode % 10;
        let latitude = coord(lat_first as u8, lat_second as u8, lat_third as u8);
        let longitude = coord(lng_first as u8, lng_second as u8, lng_third as u8);
        if lat_second <= 7 && lng_second <= 7 && longitude.index() <= max_longitude_index() {
            Some(node(latitude, longitude))
        } else {
            None
        }
    } else {
        None
    }
}

/// Represents a mesh node, a pair of [`MeshCoord`]s.
///
/// The longitude coordinate of a node is at most `(80, 0, 0)`.
#[derive(Debug, PartialEq, Eq, Structural, Hash, Clone, Copy)]
pub struct MeshNode {
    /// The mesh coord of latitude
    pub(crate) latitude: MeshCoord,
    /// The mesh coord of longitude
    pub(crate) longitude: MeshCoord,
}

impl MeshNode {
    /// Both coordinates are in range and the longitude is at most `(80, 0, 0)`.
    #[verifier::type_invariant]
    pub open(crate) spec fn wf(self) -> bool {
        &&& self.latitude.wf()
        &&& self.longitude.wf()
        &&& self.longitude.index() <= max_longitude_index()
    }

    /// The latitude coordinate.
    pub open(crate) spec fn spec_latitude(self) -> MeshCoord {
        self.latitude
    }

    /// The longitude coordinate.
    pub open(crate) spec fn spec_longitude(self) -> MeshCoord {
        self.longitude
    }

    /// Both coordinates are nodes of the mesh of unit `mesh_unit`.
    pub open(crate) spec fn is_unit(self, mesh_unit: MeshUnit) -> bool {
        self.latitude.is_unit(mesh_unit) && self.longitude.is_unit(mesh_unit)
    }

    /// The meshcode of `self`.
    pub open(crate) spec fn meshcode(self) -> int {
        (self.latitude.first * 100 + self.longitude.first) * 10_000 + (self.latitude.second * 10
            + self.longitude.second) * 100 + (self.latitude.third * 10 + self.longitude.third)
    }

    /// The node of `latitude` and `longitude`, if `longitude` is in bounds.
    pub open(crate) spec fn spec_new(latitude: MeshCoord, longitude: MeshCoord) -> Option<
        MeshNode,
    > {
        if longitude.index() <= max_longitude_index() {
            Some(node(latitude, longitude))
        } else {
            None
        }
    }

    /// The next node to the north, if any.
    pub open(crate) spec fn spec_next_north(self, mesh_unit: MeshUnit) -> Option<MeshNode> {
        match self.latitude.spec_next_up(mesh_unit) {
            Some(latitude) => Some(node(latitude, self.longitude)),
            None => None,
        }
    }

    /// The next node to the south, if any.
    pub open(crate) spec fn spec_next_south(self, mesh_unit: MeshUnit) -> Option<MeshNode> {
        match self.latitude.spec_next_down(mesh_unit) {
            Some(latitude) => Some(node(latitude, self.longitude)),
            None => None,
        }
    }

    /// The next node to the east, if any.
    pub open(crate) spec fn spec_next_east(self, mesh_unit: MeshUnit) -> Option<MeshNode> {
        match self.longitude.spec_next_up(mesh_unit) {
            Some(longitude) => MeshNode::spec_new(self.latitude, longitude),
            None => None,
        }
    }

    /// The next node to the west, if any.
    pub open(crate) spec fn spec_next_west(self, mesh_unit: MeshUnit) -> Option<MeshNode> {
        match self.longitude.spec_next_down(mesh_unit) {
            Some(longitude) => Some(node(self.latitude, longitude)),
            None => None,
        }
    }

    /// Makes a [`MeshNode`].
    ///
    /// `longitude` is at most `(80, 0, 0)`.
    ///
    /// # Errors
    ///
    /// Returns [`None`] when `longitude` is out-of-bounds.
    pub fn new(latitude: MeshCoord, longitude: MeshCoord) -> (r: Option<Self>)
        ensures
            r == MeshNode::spec_new(latitude, longitude),
    {
        proof {
            use_type_invariant(&latitude);
            use_type_invariant(&longitude);
        }
        if longitude.first > 80 || (longitude.first == 80 && !(longitude.second == 0
            && longitude.third == 0)) {
            return None;
        }
        Some(MeshNode { latitude, longitude })
    }

    /// Returns the latitude coordinate of `self`.
    pub fn latitude(&self) -> (r: &MeshCoord)
        ensures
            *r == self.spec_latitude(),
    {
        &self.latitude
    }

    /// Returns the longitude coordinate of `self`.
    pub fn longitude(&self) -> (r: &MeshCoord)
        ensures
            *r == self.spec_longitude(),
    {
        &self.longitude
    }

    /// Returns `true` if `self` is a node of the mesh of unit `mesh_unit`.
    ///
    /// This always returns `true` when [`MeshUnit::One`] given.
    pub fn is_mesh_unit(&self, mesh_unit: &MeshUnit) -> (r: bool)
        ensures
            r == self.is_unit(*mesh_unit),
            r == (self.spec_latitude().index() % mesh_unit.step() == 0
                && self.spec_longitude().index() % mesh_unit.step() == 0),
            *mesh_unit == MeshUnit::One ==> r,
    {
        proof {
            use_type_invariant(self);
            lemma_node_is_unit(*self, *mesh_unit);
        }
        self.latitude.is_mesh_unit(mesh_unit) && self.longitude.is_mesh_unit(mesh_unit)
    }

    /// Makes a [`MeshNode`] represented by `meshcode`.
    ///
    /// This is inverse of [`MeshNode::to_meshcode()`].
    ///
    /// # Errors
    ///
    /// Returns [`None`] when an invalid `meshcode` given.
    pub fn try_from_meshcode(meshcode: &u32) -> (r: Option<Self>)
        ensures
            r == spec_from_meshcode(*meshcode as int),
    {
        if *meshcode >= 100_000_000 {
            return None;
        }
        proof {
            lemma_meshcode_digits(*meshcode as int);
        }
        let (lat_first, rest) = (*meshcode / 1_000_000, *meshcode % 1_000_000);
        let (lng_first, rest) = (rest / 10_000, rest % 10_000);
        let (lat_second, rest) = (rest / 1_000, rest % 1_000);
        let (lng_second, rest) = (rest / 100, rest % 100);
        let (lat_third, lng_third) = (rest / 10, rest % 10);

        let latitude = match MeshCoord::new(lat_first as u8, lat_second as u8, lat_third as u8) {
            Some(r) => r,
            None => return None,
        };
        let longitude = match MeshCoord::new(lng_first as u8, lng_second as u8, lng_third as u8) {
            Some(r) => r,
            None => return None,
        };
        Self::new(latitude, longitude)
    }

    /// Returns a meshcode represents `self`.
    ///
    /// The result is up to 8 digits.
    ///
    /// This method is an inverse of [`MeshNode::try_from_meshcode()`].
    pub fn to_meshcode(&self) -> (r: u32)
        ensures
            r == self.meshcode(),
            r < 100_000_000,
            r / 1_000_000 == self.spec_latitude().spec_first(),
            (r / 10_000) % 100 == self.spec_longitude().spec_first(),
            (r / 1_000) % 10 == self.spec_latitude().spec_second(),
            (r / 100) % 10 == self.spec_longitude().spec_second(),
            (r / 10) % 10 == self.spec_latitude().spec_third(),
            r % 10 == self.spec_longitude().spec_third(),
    {
        proof {
            use_type_invariant(self);
            lemma_meshcode_layout(*self);
        }
        (self.latitude.first as u32 * 100 + self.longitude.first as u32) * 10_000 + (
        self.latitude.second as u32 * 10 + self.longitude.second as u32) * 100 + (
        self.latitude.third as u32 * 10 + self.longitude.third as u32)
    }

    /// Returns the next north [`MeshNode`].
    ///
    /// # Errors
    ///
    /// Returns [`None`] when the next node is out-of-bounds.
    pub fn next_north(&self, mesh_unit: &MeshUnit) -> (r: Option<Self>)
        ensures
            r == self.spec_next_north(*mesh_unit),
    {
        proof {
            use_type_invariant(self);
        }
        let latitude = match self.latitude.next_up(mesh_unit) {
            Some(c) => c,
            None => return None,
        };
        proof {
            use_type_invariant(&latitude);
        }
        Some(MeshNode { latitude, longitude: self.longitude })
    }

    /// Returns the next south [`MeshNode`].
    ///
    /// # Errors
    ///
    /// Returns [`None`] when the next node is out-of-bounds.
    pub fn next_south(&self, mesh_unit: &MeshUnit) -> (r: Option<Self>)
        ensures
            r == self.spec_next_south(*mesh_unit),
    {
        proof {
            use_type_invariant(self);
        }
        let latitude = match self.latitude.next_down(mesh_unit) {
            Some(c) => c,
            None => return None,
        };
        proof {
            use_type_invariant(&latitude);
        }
        Some(MeshNode { latitude, longitude: self.longitude })
    }

    /// Returns the next east [`MeshNode`].
    ///
    /// # Errors
    ///
    /// Returns [`None`] when the next node is out-of-bounds, that is, its
    /// longitude would exceed `(80, 0, 0)`.
    pub fn next_east(&self, mesh_unit: &MeshUnit) -> (r: Option<Self>)
        ensures
            r == self.spec_next_east(*mesh_unit),
    {
        let longitude = match self.longitude.next_up(mesh_unit) {
            Some(c) => c,
            None => return None,
        };
        Self::new(self.latitude, longitude)
    }

    /// Returns the next west [`MeshNode`].
    ///
    /// # Errors
    ///
    /// Returns [`None`] when the next node is out-of-bounds.
    pub fn next_west(&self, mesh_unit: &MeshUnit) -> (r: Option<Self>)
        ensures
            r == self.spec_next_west(*mesh_unit),
    {
        proof {
            use_type_invariant(self);
        }
        let longitude = match self.longitude.next_down(mesh_unit) {
            Some(c) => c,
            None => return None,
        };
        proof {
            use_type_invariant(&longitude);
        }
        Some(MeshNode { latitude: self.latitude, longitude })
    }
}

/// The node of the coordinates of the digits `value.0` and `value.1`, if
/// both are in range and the longitude is in bounds.
pub open(crate) spec fn spec_node_from_digits(value: ((u8, u8, u8), (u8, u8, u8))) -> Result<
    MeshNode,
    MeshTryFromError,
> {
    match (spec_coord_from_digits(value.0), spec_coord_from_digits(value.1)) {
        (Ok(latitude), Ok(longitude)) => match MeshNode::spec_new(latitude, longitude) {
            Some(n) => Ok(n),
            None => Err(MeshTryFromError),
        },
        _ => Err(MeshTryFromError),
    }
}

/// The node of `value`, if the longitude is in bounds.
pub open(crate) spec fn spec_node_from_coords(value: (MeshCoord, MeshCoord)) -> Result<
    MeshNode,
    MeshTryFromError,
> {
    match MeshNode::spec_new(value.0, value.1) {
        Some(n) => Ok(n),
        None => Err(MeshTryFromError),
    }
}

/// The node that `meshcode` stands for, or the error.
pub open(crate) spec fn spec_node_from_meshcode(meshcode: u32) -> Result<MeshNode, MeshTryFromError> {
    match spec_from_meshcode(meshcode as int) {
        Some(n) => Ok(n),
        None => Err(MeshTryFromError),
    }
}

impl TryFrom<((u8, u8, u8), (u8, u8, u8))> for MeshNode {
    type Error = MeshTryFromError;

    /// Makes a [`MeshNode`] of the digits of its latitude and its longitude,
    /// see [`MeshNode::new`].
    fn try_from(value: ((u8, u8, u8), (u8, u8, u8))) -> (r: Result<Self, Self::Error>)
        ensures
            r == spec_node_from_digits(value),
    {
        let latitude: MeshCoord = match MeshCoord::try_from(value.0) {
            Ok(c) => c,
            Err(_) => return Err(MeshTryFromError::new()),
        };
        let longitude: MeshCoord = match MeshCoord::try_from(value.1) {
            Ok(c) => c,
            Err(_) => return Err(MeshTryFromError::new()),
        };
        match Self::new(latitude, longitude) {
            Some(n) => Ok(n),
            None => Err(MeshTryFromError::new()),
        }
    }
}

impl vstd::std_specs::convert::TryFromSpecImpl<((u8, u8, u8), (u8, u8, u8))> for MeshNode {
    open spec fn obeys_try_from_spec() -> bool {
        true
    }

    open spec fn try_from_spec(value: ((u8, u8, u8), (u8, u8, u8))) -> Result<Self, MeshTryFromError> {
        spec_node_from_digits(value)
    }
}

impl TryFrom<(MeshCoord, MeshCoord)> for MeshNode {
    type Error = MeshTryFromError;

    /// Makes a [`MeshNode`] of its latitude and its longitude, see
    /// [`MeshNode::new`].
    fn try_from(value: (MeshCoord, MeshCoord)) -> (r: Result<Self, Self::Error>)
        ensures
            r == spec_node_from_coords(value),
    {
        match Self::new(value.0, value.1) {
            Some(n) => Ok(n),
            None => Err(MeshTryFromError::new()),
        }
    }
}

impl vstd::std_specs::convert::TryFromSpecImpl<(MeshCoord, MeshCoord)> for MeshNode {
    open spec fn obeys_try_from_spec() -> bool {
        true
    }

    open spec fn try_from_spec(value: (MeshCoord, MeshCoord)) -> Result<Self, MeshTryFromError> {
        spec_node_from_coords(value)
    }
}

impl TryFrom<&u32> for MeshNode {
    type Error = MeshTryFromError;

    /// Makes a [`MeshNode`] from meshcode, see [`MeshNode::try_from_meshcode`].
    fn try_from(value: &u32) -> (r: Result<Self, Self::Error>)
        ensures
            r == spec_node_from_meshcode(*value),
            r == (match spec_from_meshcode(*value as int) {
                Some(n) => Ok(n),
                None => Err(MeshTryFromError),
            }),
            r matches Ok(n) ==> n.meshcode() == *value,
    {
        proof {
            lemma_node_from_meshcode_agrees(*value);
        }
        match Self::try_from_meshcode(value) {
            Some(n) => Ok(n),
            None => Err(MeshTryFromError::new()),
        }
    }
}

impl vstd::std_specs::convert::TryFromSpecImpl<&u32> for MeshNode {
    open spec fn obeys_try_from_spec() -> bool {
        true
    }

    open spec fn try_from_spec(value: &u32) -> Result<Self, MeshTryFromError> {
        spec_node_from_meshcode(*value)
    }
}

impl From<MeshNode> for u32 {
    /// Makes a meshcode from [`MeshNode`], see [`MeshNode::to_meshcode`].
    fn from(value: MeshNode) -> (r: u32)
        ensures
            r == value.meshcode(),
    {
        value.to_meshcode()
    }
}

impl vstd::std_specs::convert::FromSpecImpl<MeshNode> for u32 {
    open spec fn obeys_from_spec() -> bool {
        true
    }

    open spec fn from_spec(value: MeshNode) -> u32 {
        value.meshcode() as u32
    }
}

/// The remainder by `a * b`, divided by `a`, is the quotient by `a` taken
/// modulo `b`; taken modulo `a`, it is the remainder by `a`.
proof fn lemma_mod_div(m: int, a: int, b: int)
    requires
        m >= 0,
        a > 0,
        b > 0,
    ensures
        (m % (a * b)) / a == (m / a) % b,
        (m % (a * b)) % a == m % a,
{
    vstd::arithmetic::div_mod::lemma_mod_breakdown(m, a, b);
    vstd::arithmetic::div_mod::lemma_mod_pos_bound(m, a);
    vstd::arithmetic::mul::lemma_mul_is_commutative(a, (m / a) % b);
    vstd::arithmetic::div_mod::lemma_fundamental_div_mod_converse(
        m % (a * b),
        a,
        (m / a) % b,
        m % a,
    );
}

/// Taking the digits of a meshcode from the highest down, each time by a
/// quotient and a remainder, gives its digits.
proof fn lemma_meshcode_digits(m: int)
    requires
        0 <= m < 100_000_000,
    ensures
        (m % 1_000_000) / 10_000 == (m / 10_000) % 100,
        (m % 1_000_000 % 10_000) / 1_000 == (m / 1_000) % 10,
        (m % 1_000_000 % 10_000 % 1_000) / 100 == (m / 100) % 10,
        (m % 1_000_000 % 10_000 % 1_000 % 100) / 10 == (m / 10) % 10,
        m % 1_000_000 % 10_000 % 1_000 % 100 % 10 == m % 10,
        m / 1_000_000 < 100,
{
    lemma_mod_div(m, 10_000, 100);
    lemma_mod_div(m, 1_000, 10);
    lemma_mod_div(m, 100, 10);
    lemma_mod_div(m, 10, 10);
}

/// A meshcode below `10^8` is the sum of its digits times their places.
proof fn lemma_meshcode_sum_of_digits(m: int)
    requires
        0 <= m < 100_000_000,
    ensures
        m == (m / 1_000_000) * 1_000_000 + ((m / 10_000) % 100) * 10_000 + ((m / 1_000) % 10)
            * 1_000 + ((m / 100) % 10) * 100 + ((m / 10) % 10) * 10 + m % 10,
{
    lemma_meshcode_digits(m);
    let r6 = m % 1_000_000;
    let r4 = r6 % 10_000;
    let r3 = r4 % 1_000;
    let r2 = r3 % 100;
    vstd::arithmetic::div_mod::lemma_fundamental_div_mod(m, 1_000_000);
    vstd::arithmetic::div_mod::lemma_fundamental_div_mod(r6, 10_000);
    vstd::arithmetic::div_mod::lemma_fundamental_div_mod(r4, 1_000);
    vstd::arithmetic::div_mod::lemma_fundamental_div_mod(r3, 100);
    vstd::arithmetic::div_mod::lemma_fundamental_div_mod(r2, 10);
}

/// Law: a node is read back from its meshcode, so
/// [`MeshNode::try_from_meshcode`] inverts [`MeshNode::to_meshcode`].
pub proof fn lemma_meshcode_roundtrip(n: MeshNode)
    requires
        n.wf(),
    ensures
        0 <= n.meshcode() < 100_000_000,
        spec_from_meshcode(n.meshcode()) == Some(n),
{
    let lat = n.latitude;
    let lng = n.longitude;
    let m = n.meshcode();
    let low6 = lng.first * 10_000 + lat.second * 1_000 + lng.second * 100 + lat.third * 10
        + lng.third;
    let low4 = lat.second * 1_000 + lng.second * 100 + lat.third * 10 + lng.third;
    let low3 = lng.second * 100 + lat.third * 10 + lng.third;
    let low2 = lat.third * 10 + lng.third;
    vstd::arithmetic::div_mod::lemma_fundamental_div_mod_converse(m, 1_000_000, lat.first as int, low6);
    vstd::arithmetic::div_mod::lemma_fundamental_div_mod_converse(
        m,
        10_000,
        lat.first * 100 + lng.first,
        low4,
    );
    vstd::arithmetic::div_mod::lemma_fundamental_div_mod_converse(
        lat.first * 100 + lng.first,
        100,
        lat.first as int,
        lng.first as int,
    );
    vstd::arithmetic::div_mod::lemma_fundamental_div_mod_converse(
        m,
        1_000,
        lat.first * 1_000 + lng.first * 10 + lat.second,
        low3,
    );
    vstd::arithmetic::div_mod::lemma_fundamental_div_mod_converse(
        lat.first * 1_000 + lng.first * 10 + lat.second,
        10,
        lat.first * 100 + lng.first,
        lat.second as int,
    );
    vstd::arithmetic::div_mod::lemma_fundamental_div_mod_converse(
        m,
        100,
        lat.first * 10_000 + lng.first * 100 + lat.second * 10 + lng.second,
        low2,
    );
    vstd::arithmetic::div_mod::lemma_fundamental_div_mod_converse(
        lat.first * 10_000 + lng.first * 100 + lat.second * 10 + lng.second,
        10,
        lat.first * 1_000 + lng.first * 10 + lat.second,
        lng.second as int,
    );
    vstd::arithmetic::div_mod::lemma_fundamental_div_mod_converse(
        m,
        10,
        lat.first * 100_000 + lng.first * 1_000 + lat.second * 100 + lng.second * 10 + lat.third,
        lng.third as int,
    );
    vstd::arithmetic::div_mod::lemma_fundamental_div_mod_converse(
        lat.first * 100_000 + lng.first * 1_000 + lat.second * 100 + lng.second * 10 + lat.third,
        10,
        lat.first * 10_000 + lng.first * 100 + lat.second * 10 + lng.second,
        lat.third as int,
    );
}

/// Law: a node read from a meshcode gives that meshcode back, so
/// [`MeshNode::to_meshcode`] inverts [`MeshNode::try_from_meshcode`].
pub proof fn lemma_from_meshcode_roundtrip(meshcode: int)
    requires
        spec_from_meshcode(meshcode) is Some,
    ensures
        spec_from_meshcode(meshcode).unwrap().wf(),
        spec_from_meshcode(meshcode).unwrap().meshcode() == meshcode,
{
    lemma_meshcode_sum_of_digits(meshcode);
}

/// Law: the next node to the north of the next node to the south is the
/// node itself, and so is the next to the south of the next to the north.
pub proof fn lemma_north_south_inverse(n: MeshNode, mesh_unit: MeshUnit)
    requires
        n.wf(),
    ensures
        n.spec_next_north(mesh_unit) matches Some(m) ==> m.wf() && m.spec_next_south(mesh_unit)
            == Some(n),
        n.spec_next_south(mesh_unit) matches Some(m) ==> m.wf() && m.spec_next_north(mesh_unit)
            == Some(n),
{
    lemma_next_up_down(n.latitude, mesh_unit);
}

/// Law: the next node to the east of the next node to the west is the
/// node itself, and so is the next to the west of the next to the east.
pub proof fn lemma_east_west_inverse(n: MeshNode, mesh_unit: MeshUnit)
    requires
        n.wf(),
    ensures
        n.spec_next_east(mesh_unit) matches Some(m) ==> m.wf() && m.spec_next_west(mesh_unit)
            == Some(n),
        n.spec_next_west(mesh_unit) matches Some(m) ==> m.wf() && m.spec_next_east(mesh_unit)
            == Some(n),
{
    lemma_next_up_down(n.longitude, mesh_unit);
}

/// Law: a node is a node of the mesh of `mesh_unit` exactly when both its
/// coordinates are, that is, when the indices of its latitude and of its
/// longitude are both multiples of the step of the unit.
pub proof fn lemma_node_is_unit(n: MeshNode, mesh_unit: MeshUnit)
    requires
        n.wf(),
    ensures
        n.is_unit(mesh_unit) <==> (n.spec_latitude().index() % mesh_unit.step() == 0
            && n.spec_longitude().index() % mesh_unit.step() == 0),
{
    lemma_is_unit_index(n.latitude, mesh_unit);
    lemma_is_unit_index(n.longitude, mesh_unit);
}

/// Law: the digits of the meshcode of a node are, from the highest, the
/// first digit of the latitude (two digits), the first digit of the
/// longitude (two), the second digit of the latitude, of the longitude, the
/// third digit of the latitude and of the longitude.
pub proof fn lemma_meshcode_layout(n: MeshNode)
    requires
        n.wf(),
    ensures
        0 <= n.meshcode() < 100_000_000,
        n.meshcode() / 1_000_000 == n.spec_latitude().spec_first(),
        (n.meshcode() / 10_000) % 100 == n.spec_longitude().spec_first(),
        (n.meshcode() / 1_000) % 10 == n.spec_latitude().spec_second(),
        (n.meshcode() / 100) % 10 == n.spec_longitude().spec_second(),
        (n.meshcode() / 10) % 10 == n.spec_latitude().spec_third(),
        n.meshcode() % 10 == n.spec_longitude().spec_third(),
{
    lemma_meshcode_roundtrip(n);
}

/// Law: a meshcode stands for a node exactly when it is below `10^8`, its
/// two second digits (the fourth and third from the lowest) are at most 7,
/// and the longitude that its digits give is at most `(80, 0, 0)`; the node
/// is then the one whose digits are those of the meshcode, laid out as
/// [`lemma_meshcode_layout`] says.
pub proof fn lemma_from_meshcode_layout(m: int)
    ensures
        spec_from_meshcode(m) is Some <==> (0 <= m < 100_000_000 && (m / 1_000) % 10 <= 7 && (m
            / 100) % 10 <= 7 && ((m / 10_000) % 100) * 80 + ((m / 100) % 10) * 10 + m % 10
            <= 6400),
        spec_from_meshcode(m) matches Some(n) ==> {
            &&& n.wf()
            &&& n.spec_latitude().spec_first() == m / 1_000_000
            &&& n.spec_longitude().spec_first() == (m / 10_000) % 100
            &&& n.spec_latitude().spec_second() == (m / 1_000) % 10
            &&& n.spec_longitude().spec_second() == (m / 100) % 10
            &&& n.spec_latitude().spec_third() == (m / 10) % 10
            &&& n.spec_longitude().spec_third() == m % 10
        },
{
    if 0 <= m < 100_000_000 {
        assert(m / 1_000_000 < 100);
    }
}

/// Law: converting a meshcode by `TryFrom` agrees with
/// [`MeshNode::try_from_meshcode`]: it gives the node that the meshcode
/// stands for, and an error exactly where there is none; the node's meshcode
/// is the one converted.
pub proof fn lemma_node_from_meshcode_agrees(m: u32)
    ensures
        spec_node_from_meshcode(m) == (match spec_from_meshcode(m as int) {
            Some(n) => Ok(n),
            None => Err(MeshTryFromError),
        }),
        spec_node_from_meshcode(m) matches Ok(n) ==> n.meshcode() == m,
{
    if spec_from_meshcode(m as int) is Some {
        lemma_from_meshcode_roundtrip(m as int);
    }
}

} // verus!
