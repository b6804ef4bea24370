//! The ring of Eisenstein integers: numbers `a + b*omega` with integer
//! coefficients, where `omega` is a primitive cube root of unity, so that
//! `omega * omega == -1 - omega`.

use vstd::prelude::*;

verus! {

/// An Eisenstein integer `a + b*omega` with `i32` coefficients.
///
/// `a` is the rational part and `b` the `omega`-coefficient.  The pair
/// `(a, b)` is the unique canonical representation of the ring element; no
/// normalization is ever needed.  Values are immutable: every operation
/// produces a new instance.
#[derive(Clone, Copy, Debug, PartialEq, Eq, Structural)]
pub struct EisensteinInteger {
    pub a: i32,
    pub b: i32,
}

/// The mathematical value of an [`EisensteinInteger`]: the same ring element
/// with unbounded integer coefficients.  Contracts and ring laws are stated
/// over this type, where arithmetic cannot overflow.
pub struct EisensteinView {
    pub a: int,
    pub b: int,
}

impl EisensteinView {
    /// The ring element `0`.
    pub open spec fn zero() -> EisensteinView {
        EisensteinView { a: 0, b: 0 }
    }

    /// The ring element `1`.
    pub open spec fn one() -> EisensteinView {
        EisensteinView { a: 1, b: 0 }
    }

    /// The ring element `omega`.
    pub open spec fn omega() -> EisensteinView {
        EisensteinView { a: 0, b: 1 }
    }

    /// Ring addition: componentwise.
    pub open spec fn add(self, other: EisensteinView) -> EisensteinView {
        EisensteinView { a: self.a + other.a, b: self.b + other.b }
    }

    /// Ring multiplication: the unique bilinear extension of
    /// `omega * omega == -1 - omega`.  Expanding
    /// `(a1 + b1*omega) * (a2 + b2*omega)` and substituting gives the shared
    /// `- b1*b2` term in both components.
    pub open spec fn mul(self, other: EisensteinView) -> EisensteinView {
        EisensteinView {
            a: self.a * other.a - self.b * other.b,
            b: self.a * other.b + self.b * other.a - self.b * other.b,
        }
    }

    /// Addition of a plain integer: it acts as `other + 0*omega`, so only the
    /// rational part changes.
    pub open spec fn add_int(self, other: int) -> EisensteinView {
        EisensteinView { a: self.a + other, b: self.b }
    }

    /// Multiplication by a plain integer: both parts are scaled.
    pub open spec fn mul_int(self, other: int) -> EisensteinView {
        EisensteinView { a: self.a * other, b: self.b * other }
    }
}

impl View for EisensteinInteger {
    type V = EisensteinView;

    open spec fn view(&self) -> EisensteinView {
        EisensteinView { a: self.a as int, b: self.b as int }
    }
}

impl EisensteinInteger {
    /// Whether the sum `self + other` fits in the `i32` coefficients.
    pub open spec fn add_fits(self, other: EisensteinInteger) -> bool {
        &&& i32::MIN <= self@.add(other@).a <= i32::MAX
        &&& i32::MIN <= self@.add(other@).b <= i32::MAX
    }

    /// The value of `self + other`, assuming it fits.
    pub open spec fn spec_add(self, other: EisensteinInteger) -> EisensteinInteger {
        EisensteinInteger { a: self@.add(other@).a as i32, b: self@.add(other@).b as i32 }
    }

    /// Whether the product `self * other` fits in the `i32` coefficients.
    ///
    /// The partial products are included because multiplication computes
    /// them in `i32` before combining them.
    pub open spec fn mul_fits(self, other: EisensteinInteger) -> bool {
        &&& i32::MIN <= self@.a * other@.a <= i32::MAX
        &&& i32::MIN <= self@.b * other@.b <= i32::MAX
        &&& i32::MIN <= self@.a * other@.b <= i32::MAX
        &&& i32::MIN <= self@.b * other@.a <= i32::MAX
        &&& i32::MIN <= self@.mul(other@).a <= i32::MAX
        &&& i32::MIN <= self@.mul(other@).b <= i32::MAX
        &&& i32::MIN <= self@.a * other@.b + self@.b * other@.a <= i32::MAX
    }

    /// The value of `self * other`, assuming it fits.
    pub open spec fn spec_mul(self, other: EisensteinInteger) -> EisensteinInteger {
        EisensteinInteger { a: self@.mul(other@).a as i32, b: self@.mul(other@).b as i32 }
    }
}

impl vstd::std_specs::ops::AddSpecImpl<EisensteinInteger> for EisensteinInteger {
    open spec fn obeys_add_spec() -> bool {
        true
    }

    open spec fn add_req(self, rhs: EisensteinInteger) -> bool {
        self.add_fits(rhs)
    }

    open spec fn add_spec(self, rhs: EisensteinInteger) -> EisensteinInteger {
        self.spec_add(rhs)
    }
}

impl core::ops::Add<EisensteinInteger> for EisensteinInteger {
    type Output = EisensteinInteger;

    /// Ring addition: componentwise on both coefficients.
    fn add(self, other: EisensteinInteger) -> EisensteinInteger {
        EisensteinInteger { a: self.a + other.a, b: self.b + other.b }
    }
}

impl vstd::std_specs::ops::AddSpecImpl<i32> for EisensteinInteger {
    open spec fn obeys_add_spec() -> bool {
        true
    }

    open spec fn add_req(self, rhs: i32) -> bool {
        i32::MIN <= self@.add_int(rhs as int).a <= i32::MAX
    }

    open spec fn add_spec(self, rhs: i32) -> EisensteinInteger {
        EisensteinInteger { a: self@.add_int(rhs as int).a as i32, b: self.b }
    }
}

impl core::ops::Add<i32> for EisensteinInteger {
    type Output = EisensteinInteger;

    /// Addition of a plain integer, which only affects the rational part.
    fn add(self, other: i32) -> EisensteinInteger {
        EisensteinInteger { a: self.a + other, b: self.b }
    }
}

impl vstd::std_specs::ops::AddSpecImpl<EisensteinInteger> for i32 {
    open spec fn obeys_add_spec() -> bool {
        true
    }

    open spec fn add_req(self, rhs: EisensteinInteger) -> bool {
        i32::MIN <= rhs@.add_int(self as int).a <= i32::MAX
    }

    open spec fn add_spec(self, rhs: EisensteinInteger) -> EisensteinInteger {
        EisensteinInteger { a: rhs@.add_int(self as int).a as i32, b: rhs.b }
    }
}

impl core::ops::Add<EisensteinInteger> for i32 {
    type Output = EisensteinInteger;

    /// Addition of a plain integer on the left; same result as on the right.
    fn add(self, other: EisensteinInteger) -> EisensteinInteger {
        EisensteinInteger { a: self + other.a, b: other.b }
    }
}

impl vstd::std_specs::ops::MulSpecImpl<EisensteinInteger> for EisensteinInteger {
    open spec fn obeys_mul_spec() -> bool {
        true
    }

    open spec fn mul_req(self, rhs: EisensteinInteger) -> bool {
        self.mul_fits(rhs)
    }

    open spec fn mul_spec(self, rhs: EisensteinInteger) -> EisensteinInteger {
        self.spec_mul(rhs)
    }
}

impl core::ops::Mul<EisensteinInteger> for EisensteinInteger {
    type Output = EisensteinInteger;

    /// Ring multiplication, from `omega * omega == -1 - omega`.
    fn mul(self, other: EisensteinInteger) -> EisensteinInteger {
        let a = self.a * other.a - self.b * other.b;
        let b = self.a * other.b + self.b * other.a - self.b * other.b;
        EisensteinInteger { a, b }
    }
}

impl vstd::std_specs::ops::MulSpecImpl<i32> for EisensteinInteger {
    open spec fn obeys_mul_spec() -> bool {
        true
    }

    open spec fn mul_req(self, rhs: i32) -> bool {
        &&& i32::MIN <= self@.mul_int(rhs as int).a <= i32::MAX
        &&& i32::MIN <= self@.mul_int(rhs as int).b <= i32::MAX
    }

    open spec fn mul_spec(self, rhs: i32) -> EisensteinInteger {
        EisensteinInteger {
            a: self@.mul_int(rhs as int).a as i32,
            b: self@.mul_int(rhs as int).b as i32,
        }
    }
}

impl core::ops::Mul<i32> for EisensteinInteger {
    type Output = EisensteinInteger;

    /// Multiplication by a plain integer, which scales both parts.
    fn mul(self, other: i32) -> EisensteinInteger {
        EisensteinInteger { a: self.a * other, b: self.b * other }
    }
}

impl vstd::std_specs::ops::MulSpecImpl<EisensteinInteger> for i32 {
    open spec fn obeys_mul_spec() -> bool {
        true
    }

    open spec fn mul_req(self, rhs: EisensteinInteger) -> bool {
        &&& i32::MIN <= rhs@.mul_int(self as int).a <= i32::MAX
        &&& i32::MIN <= rhs@.mul_int(self as int).b <= i32::MAX
    }

    open spec fn mul_spec(self, rhs: EisensteinInteger) -> EisensteinInteger {
        EisensteinInteger {
            a: rhs@.mul_int(self as int).a as i32,
            b: rhs@.mul_int(self as int).b as i32,
        }
    }
}

impl core::ops::Mul<EisensteinInteger> for i32 {
    type Output = EisensteinInteger;

    /// Multiplication by a plain integer on the left; same result as on the
    /// right.
    fn mul(self, other: EisensteinInteger) -> EisensteinInteger {
        proof {
            assert(self as int * other.a as int == other.a as int * self as int)
                by (nonlinear_arith);
            assert(self as int * other.b as int == other.b as int * self as int)
                by (nonlinear_arith);
        }
        EisensteinInteger { a: self * other.a, b: self * other.b }
    }
}

impl EisensteinInteger {
    /// Constructs the value `a + b*omega`.  Any pair of coefficients is
    /// accepted.
    pub fn new(a: i32, b: i32) -> (r: EisensteinInteger)
        ensures
            r.a == a,
            r.b == b,
    {
        EisensteinInteger { a, b }
    }

    /// The additive identity `0`.
    pub fn zero() -> (r: EisensteinInteger)
        ensures
            r.a == 0,
            r.b == 0,
            r@ == EisensteinView::zero(),
    {
        EisensteinInteger { a: 0, b: 0 }
    }

    /// The multiplicative identity `1`.
    pub fn one() -> (r: EisensteinInteger)
        ensures
            r.a == 1,
            r.b == 0,
            r@ == EisensteinView::one(),
    {
        EisensteinInteger { a: 1, b: 0 }
    }

    /// The cube root of unity `omega`.
    pub fn omega() -> (r: EisensteinInteger)
        ensures
            r.a == 0,
            r.b == 1,
            r@ == EisensteinView::omega(),
    {
        EisensteinInteger { a: 0, b: 1 }
    }
}

impl Default for EisensteinInteger {
    /// The default value is the ring's zero.
    fn default() -> (r: EisensteinInteger)
        ensures
            r@ == EisensteinView::zero(),
    {
        EisensteinInteger { a: 0, b: 0 }
    }
}

/// Ring addition is commutative: `x + y == y + x`, both as mathematical
/// values and as `i32`-coefficient results.
pub proof fn lemma_add_commutative(x: EisensteinInteger, y: EisensteinInteger)
    ensures
        x@.add(y@) == y@.add(x@),
        x.add_fits(y) <==> y.add_fits(x),
        x.spec_add(y) == y.spec_add(x),
{
}

/// Ring addition is associative: `(x + y) + z == x + (y + z)`.
pub proof fn lemma_add_associative(x: EisensteinInteger, y: EisensteinInteger, z: EisensteinInteger)
    ensures
        x@.add(y@).add(z@) == x@.add(y@.add(z@)),
{
}

/// `zero()` is the additive identity: `x + zero() == x`.
pub proof fn lemma_add_zero_identity(x: EisensteinInteger)
    ensures
        x@.add(EisensteinView::zero()) == x@,
{
}

/// `one()` is the multiplicative identity: `x * one() == x`.
pub proof fn lemma_mul_one_identity(x: EisensteinInteger)
    ensures
        x@.mul(EisensteinView::one()) == x@,
{
}

/// `zero()` annihilates multiplication: `x * zero() == zero()`.
pub proof fn lemma_mul_zero_annihilates(x: EisensteinInteger)
    ensures
        x@.mul(EisensteinView::zero()) == EisensteinView::zero(),
{
}

} // verus!
