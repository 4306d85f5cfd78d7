//! The currency value type.
//!
//! `Money` wraps a signed 64-bit amount of minor currency units. Its
//! arithmetic saturates: a sum, difference or negation that would leave the
//! range of `i64` yields the nearest bound instead, so every operation is
//! total and none wraps around.

use core::cmp::Ordering;
use vstd::prelude::*;

verus! {

/// An amount of money in minor currency units (cents, for instance).
#[derive(Debug, Clone, Copy, PartialEq, Eq, Ord, Structural)]
pub struct Money(pub i64);

/// The representable amount nearest to `v`.
pub open spec fn saturate(v: int) -> int {
    if v > i64::MAX {
        i64::MAX as int
    } else if v < i64::MIN {
        i64::MIN as int
    } else {
        v
    }
}

/// Brings a wide intermediate result back into the range of an amount.
pub(crate) fn saturated(v: i128) -> (r: i64)
    ensures
        r == saturate(v as int),
{
    if v > i64::MAX as i128 {
        i64::MAX
    } else if v < i64::MIN as i128 {
        i64::MIN
    } else {
        v as i64
    }
}

impl View for Money {
    type V = int;

    /// The amount as a mathematical integer.
    open spec fn view(&self) -> int {
        self.0 as int
    }
}

impl Money {
    /// The amount that stands for the integer `v`, saturated.
    pub open spec fn of(v: int) -> Money {
        Money(saturate(v) as i64)
    }

    /// What `self + rhs` yields.
    pub open spec fn spec_add(self, rhs: Money) -> Money {
        Money::of(self@ + rhs@)
    }

    /// What `self - rhs` yields.
    pub open spec fn spec_sub(self, rhs: Money) -> Money {
        Money::of(self@ - rhs@)
    }

    /// What `-self` yields.
    pub open spec fn spec_neg(self) -> Money {
        Money::of(-self@)
    }

    pub open spec fn spec_is_positive_or_zero(&self) -> bool {
        self@ >= 0
    }

    pub open spec fn spec_is_negative(&self) -> bool {
        self@ < 0
    }

    pub open spec fn spec_is_positive(&self) -> bool {
        self@ > 0
    }

    /// Whether the amount is zero or more.
    #[verifier::when_used_as_spec(spec_is_positive_or_zero)]
    pub fn is_positive_or_zero(&self) -> (r: bool)
        ensures
            r == (self@ >= 0),
    {
        self.0 >= 0
    }

    /// Whether the amount is below zero.
    #[verifier::when_used_as_spec(spec_is_negative)]
    pub fn is_negative(&self) -> (r: bool)
        ensures
            r == (self@ < 0),
            r == !self.is_positive_or_zero(),
    {
        !self.is_positive_or_zero()
    }

    /// Whether the amount is above zero.
    #[verifier::when_used_as_spec(spec_is_positive)]
    pub fn is_positive(&self) -> (r: bool)
        ensures
            r == (self@ > 0),
    {
        self.0 > 0
    }
}

impl core::ops::Add for Money {
    type Output = Money;

    /// The saturated sum.
    fn add(self, rhs: Money) -> (r: Money) {
        Money(saturated(self.0 as i128 + rhs.0 as i128))
    }
}

impl vstd::std_specs::ops::AddSpecImpl for Money {
    open spec fn obeys_add_spec() -> bool {
        true
    }

    open spec fn add_req(self, rhs: Money) -> bool {
        true
    }

    open spec fn add_spec(self, rhs: Money) -> Money {
        self.spec_add(rhs)
    }
}

impl core::ops::Sub for Money {
    type Output = Money;

    /// The saturated difference.
    fn sub(self, rhs: Money) -> (r: Money) {
        Money(saturated(self.0 as i128 - rhs.0 as i128))
    }
}

impl vstd::std_specs::ops::SubSpecImpl for Money {
    open spec fn obeys_sub_spec() -> bool {
        true
    }

    open spec fn sub_req(self, rhs: Money) -> bool {
        true
    }

    open spec fn sub_spec(self, rhs: Money) -> Money {
        self.spec_sub(rhs)
    }
}

impl core::ops::Neg for Money {
    type Output = Money;

    /// The saturated negation: the lowest amount negates to the highest.
    fn neg(self) -> (r: Money) {
        Money(saturated(-(self.0 as i128)))
    }
}

impl vstd::std_specs::ops::NegSpecImpl for Money {
    open spec fn obeys_neg_spec() -> bool {
        true
    }

    open spec fn neg_req(self) -> bool {
        true
    }

    open spec fn neg_spec(self) -> Money {
        self.spec_neg()
    }
}

impl core::ops::AddAssign for Money {
    /// Replaces the amount by its saturated sum with `rhs`.
    fn add_assign(&mut self, rhs: Money)
        ensures
            *final(self) == old(self).spec_add(rhs),
    {
        self.0 = saturated(self.0 as i128 + rhs.0 as i128);
    }
}

impl core::ops::SubAssign for Money {
    /// Replaces the amount by its saturated difference with `rhs`.
    fn sub_assign(&mut self, rhs: Money)
        ensures
            *final(self) == old(self).spec_sub(rhs),
    {
        self.0 = saturated(self.0 as i128 - rhs.0 as i128);
    }
}

impl PartialOrd for Money {
    /// Amounts are ordered as their integers are.
    fn partial_cmp(&self, other: &Money) -> (r: Option<Ordering>) {
        if self.0 < other.0 {
            Some(Ordering::Less)
        } else if self.0 > other.0 {
            Some(Ordering::Greater)
        } else {
            Some(Ordering::Equal)
        }
    }
}

impl vstd::std_specs::cmp::PartialOrdSpecImpl for Money {
    open spec fn obeys_partial_cmp_spec() -> bool {
        true
    }

    open spec fn partial_cmp_spec(&self, other: &Money) -> Option<Ordering> {
        if self.0 < other.0 {
            Some(Ordering::Less)
        } else if self.0 > other.0 {
            Some(Ordering::Greater)
        } else {
            Some(Ordering::Equal)
        }
    }
}

/// Addition is commutative, saturation included.
pub proof fn lemma_add_commutative(a: Money, b: Money)
    ensures
        a.spec_add(b) == b.spec_add(a),
{
}

/// Subtracting an amount and adding it back gives the first amount again, as
/// long as the difference is representable.
pub proof fn lemma_sub_then_add_restores(a: Money, b: Money)
    requires
        i64::MIN <= a@ - b@ <= i64::MAX,
    ensures
        a.spec_sub(b).spec_add(b) == a,
{
}

/// An amount is negative exactly when it is not zero or more.
pub proof fn lemma_negative_is_not_positive_or_zero(a: Money)
    ensures
        a.is_negative() == !a.is_positive_or_zero(),
{
}

} // verus!
