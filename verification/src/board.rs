//! The board model: cells, orientations and herds.

use crate::error::ValidationError;
use vstd::prelude::*;

verus! {

/// Number of cells along each side of a pasture.
pub const PASTURE_SIZE: u8 = 10;

/// A cell of a pasture.
#[derive(Clone, Copy, Debug, PartialEq, Eq, Structural)]
pub struct Coords {
    /// Column, counted from the west.
    pub x: u8,
    /// Row, counted from the north.
    pub y: u8,
}

/// The direction in which a herd stretches from its first sheep.
#[derive(Clone, Copy, Debug, PartialEq, Eq, Structural)]
pub enum Orientation {
    /// West to east.
    Horizontal,
    /// North to south.
    Vertical,
}

/// A line of sheep following each other.
#[derive(Clone, Copy, Debug, PartialEq, Eq, Structural)]
pub struct Herd {
    /// Cell of the north-west-most sheep.
    pub coords: Coords,
    /// Number of sheep.
    pub length: u8,
    /// Direction in which the herd stretches.
    pub orientation: Orientation,
}

/// Largest coordinate that a cell can have, as a mathematical integer.
pub open spec fn max_coordinate() -> int {
    u8::MAX as int
}

/// `v`, held back at the largest coordinate.
pub open spec fn saturate(v: int) -> u8 {
    if v > max_coordinate() {
        u8::MAX
    } else {
        v as u8
    }
}

/// Whether `v` lies in the closed interval `[start, end]`.
pub open spec fn within(v: u8, start: u8, end: u8) -> bool {
    start <= v && v <= end
}

/// Whether the closed intervals `[s1, e1]` and `[s2, e2]` intersect: one of
/// them starts inside the other.
pub open spec fn spec_ranges_intersect(s1: u8, e1: u8, s2: u8, e2: u8) -> bool {
    within(s1, s2, e2) || within(s2, s1, e1)
}

/// Tells whether two segments of the integer line intersect. Starts and ends
/// are inclusive.
#[verifier::when_used_as_spec(spec_ranges_intersect)]
pub fn ranges_intersect(s1: u8, e1: u8, s2: u8, e2: u8) -> (hit: bool)
    ensures
        hit == spec_ranges_intersect(s1, e1, s2, e2),
{
    (s2 <= s1 && s1 <= e2) || (s1 <= s2 && s2 <= e1)
}

impl Herd {
    /// How far the last sheep stands from the first one, before the edge of
    /// the coordinate space is taken into account.
    pub open spec fn reach(&self) -> int {
        if self.length == 0 {
            0
        } else {
            self.length - 1
        }
    }

    /// The cell of the sheep that follows the first one at a distance of `k`
    /// cells.
    pub open spec fn sheep_at(&self, k: int) -> Coords {
        match self.orientation {
            Orientation::Horizontal => Coords {
                x: saturate(self.coords.x + k),
                y: self.coords.y,
            },
            Orientation::Vertical => Coords {
                x: self.coords.x,
                y: saturate(self.coords.y + k),
            },
        }
    }

    /// The cell of the last sheep.
    pub open spec fn spec_end(&self) -> Coords {
        self.sheep_at(self.reach())
    }

    /// Whether a sheep of this herd stands on `cell`: the cell lies between
    /// the herd's first and last cell.
    pub open spec fn occupies(&self, cell: Coords) -> bool {
        self.length > 0 && match self.orientation {
            Orientation::Horizontal => cell.y == self.coords.y && self.coords.x <= cell.x
                && cell.x <= self.spec_end().x,
            Orientation::Vertical => cell.x == self.coords.x && self.coords.y <= cell.y
                && cell.y <= self.spec_end().y,
        }
    }

    /// Whether the herd has sheep and all of them stand inside the pasture.
    pub open spec fn valid(&self) -> bool {
        self.length > 0 && self.spec_end().x < PASTURE_SIZE && self.spec_end().y < PASTURE_SIZE
    }

    /// Whether the spans of the two herds meet on both axes.
    pub open spec fn spec_intersects(&self, other: &Herd) -> bool {
        spec_ranges_intersect(self.coords.x, self.spec_end().x, other.coords.x, other.spec_end().x)
            && spec_ranges_intersect(
            self.coords.y,
            self.spec_end().y,
            other.coords.y,
            other.spec_end().y,
        )
    }

    /// Whether some cell carries a sheep of each of the two herds.
    pub open spec fn shares_cell(&self, other: &Herd) -> bool {
        exists|cell: Coords| self.occupies(cell) && other.occupies(cell)
    }

    /// The herd of `length` sheep whose first sheep stands at column `x` and
    /// row `y`.
    pub fn new(x: u8, y: u8, length: u8, orientation: Orientation) -> (herd: Herd)
        ensures
            herd == (Herd { coords: Coords { x, y }, length, orientation }),
    {
        Herd { coords: Coords { x, y }, length, orientation }
    }

    /// Location of the last sheep. The herd never wraps around: where it
    /// would leave the coordinate space, it ends at the largest coordinate.
    /// A herd without sheep ends where it starts.
    #[verifier::when_used_as_spec(spec_end)]
    pub fn end(&self) -> (last: Coords)
        ensures
            last == self.spec_end(),
    {
        let reach: u8 = self.length.saturating_sub(1);
        match self.orientation {
            Orientation::Horizontal => Coords {
                x: self.coords.x.saturating_add(reach),
                y: self.coords.y,
            },
            Orientation::Vertical => Coords {
                x: self.coords.x,
                y: self.coords.y.saturating_add(reach),
            },
        }
    }

    /// Tells whether a sheep of this herd stands on `coord`.
    #[verifier::when_used_as_spec(occupies)]
    pub fn is_at(&self, coord: Coords) -> (hit: bool)
        ensures
            hit == self.occupies(coord),
    {
        let end = self.end();
        self.length > 0 && match self.orientation {
            Orientation::Horizontal => self.coords.y == coord.y && coord.x >= self.coords.x
                && coord.x <= end.x,
            Orientation::Vertical => self.coords.x == coord.x && coord.y >= self.coords.y
                && coord.y <= end.y,
        }
    }

    /// Checks that the herd has sheep and that all of them stand inside the
    /// pasture.
    pub fn verify(&self) -> (checked: Result<(), ValidationError>)
        ensures
            self.valid() ==> checked == Ok::<(), ValidationError>(()),
            !self.valid() ==> checked == Err::<(), ValidationError>(
                ValidationError::InvalidHerd { herd: *self },
            ),
    {
        if self.length == 0 {
            return Err(ValidationError::InvalidHerd { herd: *self });
        }
        let end = self.end();
        if end.x >= PASTURE_SIZE || end.y >= PASTURE_SIZE {
            return Err(ValidationError::InvalidHerd { herd: *self });
        }
        Ok(())
    }

    /// Tells whether the spans of the two herds meet on both axes.
    #[verifier::when_used_as_spec(spec_intersects)]
    pub fn intersects(&self, other: &Herd) -> (hit: bool)
        ensures
            hit == self.spec_intersects(other),
    {
        let self_end = self.end();
        let other_end = other.end();
        ranges_intersect(self.coords.x, self_end.x, other.coords.x, other_end.x)
            && ranges_intersect(self.coords.y, self_end.y, other.coords.y, other_end.y)
    }
}

/// Two intervals intersect whichever of them is named first.
pub proof fn lemma_ranges_intersect_symmetric(s1: u8, e1: u8, s2: u8, e2: u8)
    ensures
        spec_ranges_intersect(s1, e1, s2, e2) == spec_ranges_intersect(s2, e2, s1, e1),
{
}

/// Two intervals that are not empty intersect exactly when some number lies
/// in both of them.
pub proof fn lemma_ranges_intersect_common_point(s1: u8, e1: u8, s2: u8, e2: u8)
    requires
        s1 <= e1,
        s2 <= e2,
    ensures
        spec_ranges_intersect(s1, e1, s2, e2) <==> exists|v: u8|
            #![auto]
            within(v, s1, e1) && within(v, s2, e2),
{
    if spec_ranges_intersect(s1, e1, s2, e2) {
        let later: u8 = if s1 >= s2 {
            s1
        } else {
            s2
        };
        assert(within(later, s1, e1) && within(later, s2, e2));
    }
}

/// Every sheep of a valid herd stands inside the pasture.
pub proof fn lemma_valid_herd_stays_inside(herd: Herd, cell: Coords)
    requires
        herd.valid(),
        herd.occupies(cell),
    ensures
        cell.x < PASTURE_SIZE,
        cell.y < PASTURE_SIZE,
{
}

/// A herd occupies the cells of its sheep and no others: the first sheep
/// stands on the herd's first cell, and each of the others one cell further
/// along the herd's direction than the one before, as far as there are
/// cells.
pub proof fn lemma_herd_occupies_its_run(herd: Herd, cell: Coords)
    ensures
        herd.occupies(cell) <==> exists|k: int| 0 <= k < herd.length && herd.sheep_at(k) == cell,
{
    if herd.occupies(cell) {
        let k: int = match herd.orientation {
            Orientation::Horizontal => cell.x - herd.coords.x,
            Orientation::Vertical => cell.y - herd.coords.y,
        };
        assert(0 <= k < herd.length && herd.sheep_at(k) == cell);
    }
}

/// Two herds intersect whichever of them is named first.
pub proof fn lemma_intersects_symmetric(a: Herd, b: Herd)
    ensures
        a.spec_intersects(&b) == b.spec_intersects(&a),
{
}

/// For herds that have sheep, meeting on both axes is the same as standing
/// on a common cell: a herd is one cell wide, so where the spans meet on
/// both axes a sheep of each herd stands.
pub proof fn lemma_intersects_iff_shares_cell(a: Herd, b: Herd)
    requires
        a.length > 0,
        b.length > 0,
    ensures
        a.spec_intersects(&b) <==> a.shares_cell(&b),
{
    if a.spec_intersects(&b) {
        let cell = Coords {
            x: if a.coords.x >= b.coords.x {
                a.coords.x
            } else {
                b.coords.x
            },
            y: if a.coords.y >= b.coords.y {
                a.coords.y
            } else {
                b.coords.y
            },
        };
        assert(a.occupies(cell) && b.occupies(cell));
    }
}

} // verus!
