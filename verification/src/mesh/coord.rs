use vstd::prelude::*;

use crate::mesh::unit::MeshUnit;

verus! {

/// The largest index of a mesh coordinate, that of `(99, 7, 9)`.
pub open(crate) spec fn max_index() -> int {
    7999
}

/// The mesh coordinate of the digits `first`, `second` and `third`.
pub open(crate) spec fn coord(first: u8, second: u8, third: u8) -> MeshCoord {
    MeshCoord { first, second, third }
}

/// The mesh coordinate whose index is `i`, for `0 <= i <= max_index()`.
pub open(crate) spec fn coord_at(i: int) -> MeshCoord {
    MeshCoord { first: (i / 80) as u8, second: ((i % 80) / 10) as u8, third: (i % 10) as u8 }
}

/// Represents a mesh coordinate, a triplet of digits: `first` (0 to 99),
/// `second` (0 to 7) and `third` (0 to 9).
///
/// A coordinate stands for the latitude or the longitude of a node of the
/// mesh; along its axis the coordinates are ordered as their digits are,
/// lexicographically.
#[derive(Debug, PartialEq, Eq, Structural, PartialOrd, Ord, Hash, Clone, Copy)]
pub struct MeshCoord {
    /// The first digit, 0 to 99
    pub(crate) first: u8,
    /// The second digit, 0 to 7
    pub(crate) second: u8,
    /// The third digit, 0 to 9
    pub(crate) third: u8,
}

/// The error of a conversion into a mesh value from a value out of range.
#[derive(Debug, PartialEq, Eq, Structural, Clone, Copy)]
pub struct MeshTryFromError;

impl MeshTryFromError {
    /// Makes a [`MeshTryFromError`].
    pub fn new() -> (r: Self)
        ensures
            r == MeshTryFromError,
    {
        MeshTryFromError
    }
}

impl MeshCoord {
    /// The digits are in range.
    #[verifier::type_invariant]
    pub open(crate) spec fn wf(self) -> bool {
        &&& self.first <= 99
        &&& self.second <= 7
        &&& self.third <= 9
    }

    /// The first digit.
    pub open(crate) spec fn spec_first(self) -> u8 {
        self.first
    }

    /// The second digit.
    pub open(crate) spec fn spec_second(self) -> u8 {
        self.second
    }

    /// The third digit.
    pub open(crate) spec fn spec_third(self) -> u8 {
        self.third
    }

    /// The position of `self` along its axis, counted in steps of the third
    /// digit from `(0, 0, 0)`; it grows as the coordinate does.
    pub open(crate) spec fn index(self) -> int {
        self.first * 80 + self.second * 10 + self.third
    }

    /// `self` is a node of the mesh of unit `mesh_unit`.
    pub open(crate) spec fn is_unit(self, mesh_unit: MeshUnit) -> bool {
        match mesh_unit {
            MeshUnit::One => true,
            MeshUnit::Five => self.third % 5 == 0,
        }
    }

    /// The next coordinate up, one step of `mesh_unit` further, if there is one.
    pub open(crate) spec fn spec_next_up(self, mesh_unit: MeshUnit) -> Option<MeshCoord> {
        if self.is_unit(mesh_unit) && self.index() + mesh_unit.step() <= max_index() {
            Some(coord_at(self.index() + mesh_unit.step()))
        } else {
            None
        }
    }

    /// The next coordinate down, one step of `mesh_unit` back, if there is one.
    pub open(crate) spec fn spec_next_down(self, mesh_unit: MeshUnit) -> Option<MeshCoord> {
        if self.is_unit(mesh_unit) && self.index() - mesh_unit.step() >= 0 {
            Some(coord_at(self.index() - mesh_unit.step()))
        } else {
            None
        }
    }

    /// Makes a [`MeshCoord`].
    ///
    /// # Errors
    ///
    /// Returns [`None`] when `first` is greater than 99, `second` greater
    /// than 7 or `third` greater than 9.
    pub fn new(first: u8, second: u8, third: u8) -> (r: Option<Self>)
        ensures
            r == (if first <= 99 && second <= 7 && third <= 9 {
                Some(coord(first, second, third))
            } else {
                None
            }),
    {
        if first > 99 || second > 7 || third > 9 {
            return None;
        }
        Some(MeshCoord { first, second, third })
    }

    /// Returns the first digit of `self`.
    pub fn first(&self) -> (r: &u8)
        ensures
            *r == self.spec_first(),
    {
        &self.first
    }

    /// Returns the second digit of `self`.
    pub fn second(&self) -> (r: &u8)
        ensures
            *r == self.spec_second(),
    {
        &self.second
    }

    /// Returns the third digit of `self`.
    pub fn third(&self) -> (r: &u8)
        ensures
            *r == self.spec_third(),
    {
        &self.third
    }

    /// Returns `true` if `self` is a node of the mesh of unit `mesh_unit`.
    ///
    /// This always returns `true` when [`MeshUnit::One`] given.
    pub fn is_mesh_unit(&self, mesh_unit: &MeshUnit) -> (r: bool)
        ensures
            r == self.is_unit(*mesh_unit),
            *mesh_unit == MeshUnit::One ==> r,
    {
        match mesh_unit {
            MeshUnit::One => true,
            MeshUnit::Five => self.third % 5 == 0,
        }
    }

    /// Returns the next coordinate up in the mesh of unit `mesh_unit`.
    ///
    /// # Errors
    ///
    /// Returns [`None`] when `self` is not a node of that mesh,
    /// or the next one is out-of-bounds.
    pub fn next_up(&self, mesh_unit: &MeshUnit) -> (r: Option<Self>)
        ensures
            r == self.spec_next_up(*mesh_unit),
    {
        proof {
            use_type_invariant(self);
        }
        let bound: u8 = match mesh_unit {
            MeshUnit::One => 9,
            MeshUnit::Five => 5,
        };
        if !self.is_mesh_unit(mesh_unit) {
            return None;
        }
        let next = if self.third == bound {
            if self.second == 7 {
                if self.first == 99 {
                    return None;
                }
                MeshCoord { first: self.first + 1, second: 0, third: 0 }
            } else {
                MeshCoord { first: self.first, second: self.second + 1, third: 0 }
            }
        } else {
            let step: u8 = match mesh_unit {
                MeshUnit::One => 1,
                MeshUnit::Five => 5,
            };
            MeshCoord { first: self.first, second: self.second, third: self.third + step }
        };
        proof {
            lemma_coord_at_index(next);
        }
        Some(next)
    }

    /// Returns the next coordinate down in the mesh of unit `mesh_unit`.
    ///
    /// # Errors
    ///
    /// Returns [`None`] when `self` is not a node of that mesh,
    /// or the next one is out-of-bounds.
    pub fn next_down(&self, mesh_unit: &MeshUnit) -> (r: Option<Self>)
        ensures
            r == self.spec_next_down(*mesh_unit),
    {
        proof {
            use_type_invariant(self);
        }
        let bound: u8 = match mesh_unit {
            MeshUnit::One => 9,
            MeshUnit::Five => 5,
        };
        if !self.is_mesh_unit(mesh_unit) {
            return None;
        }
        let next = if self.third == 0 {
            if self.second == 0 {
                if self.first == 0 {
                    return None;
                }
                MeshCoord { first: self.first - 1, second: 7, third: bound }
            } else {
                MeshCoord { first: self.first, second: self.second - 1, third: bound }
            }
        } else {
            let step: u8 = match mesh_unit {
                MeshUnit::One => 1,
                MeshUnit::Five => 5,
            };
            MeshCoord { first: self.first, second: self.second, third: self.third - step }
        };
        proof {
            lemma_coord_at_index(next);
        }
        Some(next)
    }
}

/// The coordinate of the digits `value`, if they are in range.
pub open(crate) spec fn spec_coord_from_digits(value: (u8, u8, u8)) -> Result<
    MeshCoord,
    MeshTryFromError,
> {
    if value.0 <= 99 && value.1 <= 7 && value.2 <= 9 {
        Ok(coord(value.0, value.1, value.2))
    } else {
        Err(MeshTryFromError)
    }
}

impl TryFrom<(u8, u8, u8)> for MeshCoord {
    type Error = MeshTryFromError;

    /// Makes a [`MeshCoord`] of the digits `(first, second, third)`, see
    /// [`MeshCoord::new`].
    fn try_from(value: (u8, u8, u8)) -> (r: Result<Self, Self::Error>)
        ensures
            r == spec_coord_from_digits(value),
    {
        match MeshCoord::new(value.0, value.1, value.2) {
            Some(c) => Ok(c),
            None => Err(MeshTryFromError::new()),
        }
    }
}

impl vstd::std_specs::convert::TryFromSpecImpl<(u8, u8, u8)> for MeshCoord {
    open spec fn obeys_try_from_spec() -> bool {
        true
    }

    open spec fn try_from_spec(value: (u8, u8, u8)) -> Result<Self, MeshTryFromError> {
        spec_coord_from_digits(value)
    }
}

/// A coordinate in range is the one at its own index.
pub proof fn lemma_coord_at_index(c: MeshCoord)
    requires
        c.wf(),
    ensures
        coord_at(c.index()) == c,
        0 <= c.index() <= max_index(),
{
}

/// The coordinate at an index in range is in range and has that index.
pub proof fn lemma_index_of_coord_at(i: int)
    requires
        0 <= i <= max_index(),
    ensures
        coord_at(i).wf(),
        coord_at(i).index() == i,
{
}

/// A coordinate is a node of the mesh of unit `mesh_unit` exactly when its
/// index is a multiple of the step of that unit.
pub proof fn lemma_is_unit_index(c: MeshCoord, mesh_unit: MeshUnit)
    requires
        c.wf(),
    ensures
        c.is_unit(mesh_unit) <==> c.index() % mesh_unit.step() == 0,
{
}

/// Law: stepping up then down, or down then up, in the mesh of one unit
/// comes back to the coordinate it started from.
pub proof fn lemma_next_up_down(c: MeshCoord, mesh_unit: MeshUnit)
    requires
        c.wf(),
    ensures
        c.spec_next_up(mesh_unit) matches Some(d) ==> {
            &&& d.wf()
            &&& d.is_unit(mesh_unit)
            &&& d.index() == c.index() + mesh_unit.step()
            &&& d.spec_next_down(mesh_unit) == Some(c)
        },
        c.spec_next_down(mesh_unit) matches Some(d) ==> {
            &&& d.wf()
            &&& d.is_unit(mesh_unit)
            &&& d.index() == c.index() - mesh_unit.step()
            &&& d.spec_next_up(mesh_unit) == Some(c)
        },
{
    lemma_coord_at_index(c);
    lemma_is_unit_index(c, mesh_unit);
    if let Some(d) = c.spec_next_up(mesh_unit) {
        lemma_index_of_coord_at(c.index() + mesh_unit.step());
        lemma_is_unit_index(d, mesh_unit);
    }
    if let Some(d) = c.spec_next_down(mesh_unit) {
        lemma_index_of_coord_at(c.index() - mesh_unit.step());
        lemma_is_unit_index(d, mesh_unit);
    }
}

/// Law: a coordinate in range is determined by its index, the number
/// `first * 80 + second * 10 + third`.
pub proof fn lemma_index_determines_coord(a: MeshCoord, b: MeshCoord)
    requires
        a.wf(),
        b.wf(),
        a.index() == b.index(),
    ensures
        a == b,
        a.index() == a.spec_first() * 80 + a.spec_second() * 10 + a.spec_third(),
{
    lemma_coord_at_index(a);
    lemma_coord_at_index(b);
}

/// Law: a coordinate has a next one up in the mesh of `mesh_unit` exactly
/// when it is a node of that mesh (its index is a multiple of the step) and
/// one step further on is still in range, carrying into the second and
/// first digits as needed; the next one is that coordinate, one step
/// further on. Likewise down, borrowing as needed.
pub proof fn lemma_next_up_down_exist(c: MeshCoord, mesh_unit: MeshUnit)
    requires
        c.wf(),
    ensures
        c.spec_next_up(mesh_unit) is Some <==> (c.index() % mesh_unit.step() == 0 && c.index()
            + mesh_unit.step() <= 7999),
        c.spec_next_up(mesh_unit) matches Some(d) ==> d.wf() && d.index() == c.index()
            + mesh_unit.step(),
        c.spec_next_down(mesh_unit) is Some <==> (c.index() % mesh_unit.step() == 0 && c.index()
            >= mesh_unit.step()),
        c.spec_next_down(mesh_unit) matches Some(d) ==> d.wf() && d.index() == c.index()
            - mesh_unit.step(),
{
    lemma_is_unit_index(c, mesh_unit);
    lemma_next_up_down(c, mesh_unit);
}

} // verus!
