//! Hexagonal grid coordinates over the Eisenstein integer lattice, with
//! neighbor lookup for the six directions of the tiling.

use vstd::prelude::*;

use crate::eisenstein::EisensteinInteger;
use crate::eisenstein::EisensteinView;

verus! {

/// A cell of a hexagonal tiling, addressed by a single Eisenstein integer.
///
/// The wrapper is transparent: every integer pair is a valid coordinate, and
/// each coordinate corresponds to exactly one [`EisensteinInteger`].
#[derive(Clone, Copy, Debug, PartialEq, Eq, Structural)]
pub struct Hex(pub EisensteinInteger);

impl View for Hex {
    type V = EisensteinView;

    open spec fn view(&self) -> EisensteinView {
        self.0@
    }
}

/// The six neighbor directions of a hexagonal cell.
#[derive(Clone, Copy, Debug, PartialEq, Eq, Structural)]
pub enum HexDirection {
    Above,
    Below,
    LeftAbove,
    LeftBelow,
    RightAbove,
    RightBelow,
}

/// The lattice offset of one step in direction `d`.
///
/// The six offsets form three antipodal pairs: `Above`/`Below`,
/// `LeftAbove`/`RightBelow` and `LeftBelow`/`RightAbove` sum to zero, so a
/// step in a direction followed by one in its opposite returns to the start.
pub open spec fn direction_offset(d: HexDirection) -> EisensteinView {
    match d {
        HexDirection::Above => EisensteinView { a: 1, b: 2 },
        HexDirection::Below => EisensteinView { a: -1, b: -2 },
        HexDirection::LeftAbove => EisensteinView { a: -1, b: 1 },
        HexDirection::LeftBelow => EisensteinView { a: -2, b: -1 },
        HexDirection::RightAbove => EisensteinView { a: 2, b: 1 },
        HexDirection::RightBelow => EisensteinView { a: 1, b: -1 },
    }
}

/// The direction pointing the opposite way from `d`.
pub open spec fn opposite_direction(d: HexDirection) -> HexDirection {
    match d {
        HexDirection::Above => HexDirection::Below,
        HexDirection::Below => HexDirection::Above,
        HexDirection::LeftAbove => HexDirection::RightBelow,
        HexDirection::LeftBelow => HexDirection::RightAbove,
        HexDirection::RightAbove => HexDirection::LeftBelow,
        HexDirection::RightBelow => HexDirection::LeftAbove,
    }
}

impl Hex {
    /// Whether the sum `self + other` fits in the `i32` coefficients.
    pub open spec fn add_fits(self, other: Hex) -> bool {
        self.0.add_fits(other.0)
    }

    /// The value of `self + other`, assuming it fits.
    pub open spec fn spec_add(self, other: Hex) -> Hex {
        Hex(self.0.spec_add(other.0))
    }
}

impl vstd::std_specs::ops::AddSpecImpl<Hex> for Hex {
    open spec fn obeys_add_spec() -> bool {
        true
    }

    open spec fn add_req(self, rhs: Hex) -> bool {
        self.add_fits(rhs)
    }

    open spec fn add_spec(self, rhs: Hex) -> Hex {
        self.spec_add(rhs)
    }
}

impl core::ops::Add<Hex> for Hex {
    type Output = Hex;

    /// Coordinate addition: the underlying Eisenstein integers are added.
    fn add(self, other: Hex) -> Hex {
        Hex(self.0 + other.0)
    }
}

impl vstd::std_specs::ops::AddSpecImpl<&Hex> for Hex {
    open spec fn obeys_add_spec() -> bool {
        true
    }

    open spec fn add_req(self, rhs: &Hex) -> bool {
        self.add_fits(*rhs)
    }

    open spec fn add_spec(self, rhs: &Hex) -> Hex {
        self.spec_add(*rhs)
    }
}

impl core::ops::Add<&Hex> for Hex {
    type Output = Hex;

    /// Coordinate addition with a borrowed right operand; same result as the
    /// owned form.
    fn add(self, other: &Hex) -> Hex {
        Hex(self.0 + other.0)
    }
}

impl vstd::std_specs::ops::AddSpecImpl<Hex> for &Hex {
    open spec fn obeys_add_spec() -> bool {
        true
    }

    open spec fn add_req(self, rhs: Hex) -> bool {
        (*self).add_fits(rhs)
    }

    open spec fn add_spec(self, rhs: Hex) -> Hex {
        (*self).spec_add(rhs)
    }
}

impl core::ops::Add<Hex> for &Hex {
    type Output = Hex;

    /// Coordinate addition with a borrowed left operand; same result as the
    /// owned form.
    fn add(self, other: Hex) -> Hex {
        Hex(self.0 + other.0)
    }
}

impl Hex {
    /// Wraps the Eisenstein integer `a + b*omega` as a coordinate.
    pub fn from_eisenstein_integer(a: i32, b: i32) -> (r: Hex)
        ensures
            r.0.a == a,
            r.0.b == b,
    {
        Hex(EisensteinInteger::new(a, b))
    }

    /// The cell at the origin of the lattice.
    pub fn origin() -> (r: Hex)
        ensures
            r@ == EisensteinView::zero(),
    {
        Hex::from_eisenstein_integer(0, 0)
    }

    /// The adjacent cell one step away in the given direction.
    pub fn get_neighbor(&self, direction: HexDirection) -> (r: Hex)
        requires
            i32::MIN <= self@.a + direction_offset(direction).a <= i32::MAX,
            i32::MIN <= self@.b + direction_offset(direction).b <= i32::MAX,
        ensures
            r@ == self@.add(direction_offset(direction)),
    {
        match direction {
            HexDirection::Above => self + Hex::from_eisenstein_integer(1, 2),
            HexDirection::Below => self + Hex::from_eisenstein_integer(-1, -2),
            HexDirection::LeftAbove => self + Hex::from_eisenstein_integer(-1, 1),
            HexDirection::LeftBelow => self + Hex::from_eisenstein_integer(-2, -1),
            HexDirection::RightAbove => self + Hex::from_eisenstein_integer(2, 1),
            HexDirection::RightBelow => self + Hex::from_eisenstein_integer(1, -1),
        }
    }
}

impl Default for Hex {
    /// The default coordinate is the origin.
    fn default() -> (r: Hex)
        ensures
            r@ == EisensteinView::zero(),
    {
        Hex(EisensteinInteger::new(0, 0))
    }
}

/// Stepping from the origin yields exactly the offset of the direction
/// taken: `origin().get_neighbor(d)` is the cell at `direction_offset(d)`.
pub proof fn lemma_origin_neighbor_is_offset(d: HexDirection)
    ensures
        EisensteinView::zero().add(direction_offset(d)) == direction_offset(d),
{
    assert(EisensteinView::zero().add(direction_offset(d)) =~= direction_offset(d));
}

/// The offsets of a direction and its opposite cancel: the six directions
/// form three antipodal pairs.
pub proof fn lemma_opposite_offsets_cancel(d: HexDirection)
    ensures
        direction_offset(d).add(direction_offset(opposite_direction(d)))
            == EisensteinView::zero(),
{
}

/// A step in any direction followed by a step in the opposite direction
/// returns to the starting cell.
pub proof fn lemma_neighbor_antipodal(h: Hex, d: HexDirection)
    ensures
        h@.add(direction_offset(d)).add(direction_offset(opposite_direction(d))) == h@,
{
}

/// All calling shapes of coordinate addition agree: adding by value, with a
/// borrowed right operand, or with a borrowed left operand yields the same
/// cell.
pub proof fn lemma_add_forms_agree(h1: Hex, h2: Hex)
    ensures
        (<Hex as vstd::std_specs::ops::AddSpec<Hex>>::add_spec(h1, h2) == h1.spec_add(h2)),
        (<Hex as vstd::std_specs::ops::AddSpec<&Hex>>::add_spec(h1, &h2) == h1.spec_add(h2)),
        (<&Hex as vstd::std_specs::ops::AddSpec<Hex>>::add_spec(&h1, h2) == h1.spec_add(h2)),
{
}

} // verus!
