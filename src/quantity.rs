use vstd::arithmetic::power::pow;
use vstd::prelude::*;
use vstd::std_specs::cmp::{PartialEqSpec, PartialOrdSpec};
use vstd::std_specs::ops::{AddSpec, DivSpec, MulSpec, NegSpec, SubSpec};

use crate::unit_kind::{div_expr, mul_expr, mul_fits, render_expr, UnitKind};

verus! {

/// A magnitude paired with the unit expression it is measured in.
#[derive(Debug)]
pub struct Unit<T> {
    pub value: T,
    pub unit: UnitKind,
}

impl<T> Unit<T> {
    pub fn new(value: T, unit: UnitKind) -> (r: Self)
        ensures
            r.value == value,
            r.unit == unit,
    {
        Unit { value, unit }
    }

    /// Takes the magnitude out.
    pub fn value(self) -> (r: T)
        ensures
            r == self.value,
    {
        self.value
    }

    /// Takes the unit expression out.
    pub fn unit(self) -> (r: UnitKind)
        ensures
            r == self.unit,
    {
        self.unit
    }

    pub fn value_ref(&self) -> (r: &T)
        ensures
            *r == self.value,
    {
        &self.value
    }

    pub fn unit_ref(&self) -> (r: &UnitKind)
        ensures
            *r == self.unit,
    {
        &self.unit
    }

    pub fn value_mut(&mut self) -> (r: &mut T)
        ensures
            *r == old(self).value,
            final(self).value == *final(r),
            final(self).unit == old(self).unit,
    {
        &mut self.value
    }

    pub fn unit_mut(&mut self) -> (r: &mut UnitKind)
        ensures
            *r == old(self).unit,
            final(self).unit == *final(r),
            final(self).value == old(self).value,
    {
        &mut self.unit
    }
}

impl<T: Clone> Clone for Unit<T> {
    fn clone(&self) -> (r: Self)
        ensures
            cloned::<T>(self.value, r.value),
            r.unit@ == self.unit@,
    {
        Unit { value: self.value.clone(), unit: self.unit.clone() }
    }
}

impl<T: core::ops::Add<Output = T> + AddSpec<Output = T>> core::ops::Add for Unit<T> {
    type Output = Unit<T>;

    /// Sums two quantities of the same unit; the unit is kept.
    fn add(self, rhs: Unit<T>) -> (r: Unit<T>)
        ensures
            r.unit == self.unit,
    {
        Unit { value: self.value + rhs.value, unit: self.unit }
    }
}

impl<T: core::ops::Add<Output = T> + AddSpec<Output = T>> vstd::std_specs::ops::AddSpecImpl for Unit<T> {
    open spec fn obeys_add_spec() -> bool {
        T::obeys_add_spec()
    }

    /// Quantities of different units cannot be added.
    open spec fn add_req(self, rhs: Unit<T>) -> bool {
        &&& self.unit@ == rhs.unit@
        &&& self.value.add_req(rhs.value)
    }

    open spec fn add_spec(self, rhs: Unit<T>) -> Unit<T> {
        Unit { value: self.value.add_spec(rhs.value), unit: self.unit }
    }
}

impl<T: core::ops::Sub<Output = T> + SubSpec<Output = T>> core::ops::Sub for Unit<T> {
    type Output = Unit<T>;

    /// Subtracts a quantity of the same unit; the unit is kept.
    fn sub(self, rhs: Unit<T>) -> (r: Unit<T>)
        ensures
            r.unit == self.unit,
    {
        Unit { value: self.value - rhs.value, unit: self.unit }
    }
}

impl<T: core::ops::Sub<Output = T> + SubSpec<Output = T>> vstd::std_specs::ops::SubSpecImpl for Unit<T> {
    open spec fn obeys_sub_spec() -> bool {
        T::obeys_sub_spec()
    }

    /// Quantities of different units cannot be subtracted.
    open spec fn sub_req(self, rhs: Unit<T>) -> bool {
        &&& self.unit@ == rhs.unit@
        &&& self.value.sub_req(rhs.value)
    }

    open spec fn sub_spec(self, rhs: Unit<T>) -> Unit<T> {
        Unit { value: self.value.sub_spec(rhs.value), unit: self.unit }
    }
}

impl<T: core::ops::Mul<Output = T> + MulSpec<Output = T>> core::ops::Mul for Unit<T> {
    type Output = Unit<T>;

    /// Multiplies the magnitudes; the unit is inferred by `UnitKind::times`.
    fn mul(self, rhs: Unit<T>) -> (r: Unit<T>)
        ensures
            r.unit == self.unit.times_spec(rhs.unit),
            r.unit@ == mul_expr(self.unit@, rhs.unit@),
    {
        Unit { value: self.value * rhs.value, unit: self.unit.times(rhs.unit) }
    }
}

impl<T: core::ops::Mul<Output = T> + MulSpec<Output = T>> vstd::std_specs::ops::MulSpecImpl for Unit<T> {
    open spec fn obeys_mul_spec() -> bool {
        T::obeys_mul_spec()
    }

    open spec fn mul_req(self, rhs: Unit<T>) -> bool {
        &&& mul_fits(self.unit, rhs.unit)
        &&& self.value.mul_req(rhs.value)
    }

    open spec fn mul_spec(self, rhs: Unit<T>) -> Unit<T> {
        Unit { value: self.value.mul_spec(rhs.value), unit: self.unit.times_spec(rhs.unit) }
    }
}

impl<T: core::ops::Div<Output = T> + DivSpec<Output = T>> core::ops::Div for Unit<T> {
    type Output = Unit<T>;

    /// Divides the magnitudes; the unit is inferred by `UnitKind::per`.
    fn div(self, rhs: Unit<T>) -> (r: Unit<T>)
        ensures
            r.unit == self.unit.per_spec(rhs.unit),
            r.unit@ == div_expr(self.unit@, rhs.unit@),
    {
        Unit { value: self.value / rhs.value, unit: self.unit.per(rhs.unit) }
    }
}

impl<T: core::ops::Div<Output = T> + DivSpec<Output = T>> vstd::std_specs::ops::DivSpecImpl for Unit<T> {
    open spec fn obeys_div_spec() -> bool {
        T::obeys_div_spec()
    }

    open spec fn div_req(self, rhs: Unit<T>) -> bool {
        self.value.div_req(rhs.value)
    }

    open spec fn div_spec(self, rhs: Unit<T>) -> Unit<T> {
        Unit { value: self.value.div_spec(rhs.value), unit: self.unit.per_spec(rhs.unit) }
    }
}

impl<T: core::ops::Mul<isize, Output = T> + MulSpec<isize, Output = T>> core::ops::Mul<isize> for Unit<T> {
    type Output = Unit<T>;

    /// Scales the magnitude; the unit is kept.
    fn mul(self, rhs: isize) -> (r: Unit<T>)
        ensures
            r.unit == self.unit,
    {
        Unit { value: self.value * rhs, unit: self.unit }
    }
}

impl<T: core::ops::Mul<isize, Output = T> + MulSpec<isize, Output = T>> vstd::std_specs::ops::MulSpecImpl<isize> for Unit<T> {
    open spec fn obeys_mul_spec() -> bool {
        T::obeys_mul_spec()
    }

    open spec fn mul_req(self, rhs: isize) -> bool {
        self.value.mul_req(rhs)
    }

    open spec fn mul_spec(self, rhs: isize) -> Unit<T> {
        Unit { value: self.value.mul_spec(rhs), unit: self.unit }
    }
}

impl<T: core::ops::Div<isize, Output = T> + DivSpec<isize, Output = T>> core::ops::Div<isize> for Unit<T> {
    type Output = Unit<T>;

    /// Divides the magnitude by a plain number; the unit is kept.
    fn div(self, rhs: isize) -> (r: Unit<T>)
        ensures
            r.unit == self.unit,
    {
        Unit { value: self.value / rhs, unit: self.unit }
    }
}

impl<T: core::ops::Div<isize, Output = T> + DivSpec<isize, Output = T>> vstd::std_specs::ops::DivSpecImpl<isize> for Unit<T> {
    open spec fn obeys_div_spec() -> bool {
        T::obeys_div_spec()
    }

    open spec fn div_req(self, rhs: isize) -> bool {
        self.value.div_req(rhs)
    }

    open spec fn div_spec(self, rhs: isize) -> Unit<T> {
        Unit { value: self.value.div_spec(rhs), unit: self.unit }
    }
}

impl<T: core::ops::Neg<Output = T> + NegSpec<Output = T>> core::ops::Neg for Unit<T> {
    type Output = Unit<T>;

    /// Negates the magnitude; the unit is kept.
    fn neg(self) -> (r: Unit<T>)
        ensures
            r.unit == self.unit,
    {
        Unit { value: self.value.neg(), unit: self.unit }
    }
}

impl<T: core::ops::Neg<Output = T> + NegSpec<Output = T>> vstd::std_specs::ops::NegSpecImpl for Unit<T> {
    open spec fn obeys_neg_spec() -> bool {
        T::obeys_neg_spec()
    }

    open spec fn neg_req(self) -> bool {
        self.value.neg_req()
    }

    open spec fn neg_spec(self) -> Unit<T> {
        Unit { value: self.value.neg_spec(), unit: self.unit }
    }
}

impl<T: PartialEq + PartialEqSpec> PartialEq for Unit<T> {
    /// Equal magnitudes and structurally equal units.
    fn eq(&self, other: &Unit<T>) -> (r: bool) {
        let same_value = self.value == other.value;
        same_value && self.unit.equals(&other.unit)
    }
}

impl<T: PartialEq + PartialEqSpec> vstd::std_specs::cmp::PartialEqSpecImpl for Unit<T> {
    open spec fn obeys_eq_spec() -> bool {
        T::obeys_eq_spec()
    }

    open spec fn eq_spec(&self, other: &Unit<T>) -> bool {
        self.value.eq_spec(&other.value) && self.unit@ == other.unit@
    }
}

impl<T: PartialOrd + PartialOrdSpec + PartialEqSpec> PartialOrd for Unit<T> {
    /// Quantities are ordered by magnitude when their units are structurally
    /// equal, and are incomparable otherwise.
    fn partial_cmp(&self, other: &Unit<T>) -> (r: Option<core::cmp::Ordering>) {
        if self.unit.equals(&other.unit) {
            self.value.partial_cmp(&other.value)
        } else {
            Option::None
        }
    }

    fn lt(&self, other: &Unit<T>) -> (r: bool) {
        let less = self.value < other.value;
        less && self.unit.equals(&other.unit)
    }

    fn le(&self, other: &Unit<T>) -> (r: bool) {
        let less_eq = self.value <= other.value;
        less_eq && self.unit.equals(&other.unit)
    }

    fn gt(&self, other: &Unit<T>) -> (r: bool) {
        let greater = self.value > other.value;
        greater && self.unit.equals(&other.unit)
    }

    fn ge(&self, other: &Unit<T>) -> (r: bool) {
        let greater_eq = self.value >= other.value;
        greater_eq && self.unit.equals(&other.unit)
    }
}

impl<T: PartialOrd + PartialOrdSpec + PartialEqSpec> vstd::std_specs::cmp::PartialOrdSpecImpl for Unit<T> {
    open spec fn obeys_partial_cmp_spec() -> bool {
        T::obeys_partial_cmp_spec()
    }

    open spec fn partial_cmp_spec(&self, other: &Unit<T>) -> Option<core::cmp::Ordering> {
        if self.unit@ == other.unit@ {
            self.value.partial_cmp_spec(&other.value)
        } else {
            Option::None
        }
    }
}

impl<T: PartialOrd + PartialOrdSpec + PartialEqSpec> Unit<T> {
    /// The larger of two quantities of one unit: `self` unless it is not
    /// `>=` `other`. Quantities of different units have no larger one.
    pub fn max(self, other: Self) -> (r: Self)
        requires
            self.unit@ == other.unit@,
        ensures
            r == self || r == other,
            T::obeys_partial_cmp_spec() ==> r == if self.value.partial_cmp_spec(&other.value) matches Some(
                core::cmp::Ordering::Greater | core::cmp::Ordering::Equal,
            ) {
                self
            } else {
                other
            },
    {
        if self >= other {
            self
        } else {
            other
        }
    }

    /// The smaller of two quantities of one unit: `self` unless it is not
    /// `<=` `other`. Quantities of different units have no smaller one.
    pub fn min(self, other: Self) -> (r: Self)
        requires
            self.unit@ == other.unit@,
        ensures
            r == self || r == other,
            T::obeys_partial_cmp_spec() ==> r == if self.value.partial_cmp_spec(&other.value) matches Some(
                core::cmp::Ordering::Less | core::cmp::Ordering::Equal,
            ) {
                self
            } else {
                other
            },
    {
        if self <= other {
            self
        } else {
            other
        }
    }
}

/// Relies on `i64::pow`: `base` raised to `exp`. It overflows when the power
/// leaves the range of `i64`.
#[verifier::external_body]
fn pow_i64(base: i64, exp: u32) -> (r: i64)
    requires
        i64::MIN <= pow(base as int, exp as nat) <= i64::MAX,
    ensures
        r == pow(base as int, exp as nat),
{
    base.pow(exp)
}

/// Relies on `i32::pow`: `base` raised to `exp`. It overflows when the power
/// leaves the range of `i32`.
#[verifier::external_body]
fn pow_i32(base: i32, exp: u32) -> (r: i32)
    requires
        i32::MIN <= pow(base as int, exp as nat) <= i32::MAX,
    ensures
        r == pow(base as int, exp as nat),
{
    base.pow(exp)
}

impl Unit<i64> {
    /// Raises the magnitude to the power `n`. The unit is left as it is.
    pub fn powf(self, n: u32) -> (r: Self)
        requires
            i64::MIN <= pow(self.value as int, n as nat) <= i64::MAX,
        ensures
            r.value == pow(self.value as int, n as nat),
            r.unit == self.unit,
    {
        Self::new(pow_i64(self.value, n), self.unit)
    }
}

impl Unit<i32> {
    /// Raises the magnitude to the power `n`. The unit is left as it is.
    pub fn powf(self, n: u32) -> (r: Self)
        requires
            i32::MIN <= pow(self.value as int, n as nat) <= i32::MAX,
        ensures
            r.value == pow(self.value as int, n as nat),
            r.unit == self.unit,
    {
        Self::new(pow_i32(self.value, n), self.unit)
    }
}

/// Adding or subtracting quantities whose units differ: the two units, in
/// the order of the operands.
#[derive(Debug)]
pub enum UnitMismatch {
    Add(UnitKind, UnitKind),
    Sub(UnitKind, UnitKind),
}

/// The text of a mismatch: `cannot add L with R` or `cannot subtract L with R`.
pub open spec fn mismatch_message(e: UnitMismatch) -> Seq<char> {
    match e {
        UnitMismatch::Add(l, r) => "cannot add "@ + render_expr(l@) + " with "@ + render_expr(r@),
        UnitMismatch::Sub(l, r) => "cannot subtract "@ + render_expr(l@) + " with "@ + render_expr(
            r@,
        ),
    }
}

impl UnitMismatch {
    /// The message that names both units.
    pub fn message(&self) -> (r: String)
        ensures
            r@ == mismatch_message(*self),
    {
        let mut out = String::new();
        let (l, r) = match self {
            UnitMismatch::Add(l, r) => {
                out.append("cannot add ");
                (l, r)
            },
            UnitMismatch::Sub(l, r) => {
                out.append("cannot subtract ");
                (l, r)
            },
        };
        out.append(l.render().as_str());
        out.append(" with ");
        out.append(r.render().as_str());
        out
    }
}

impl<T> Unit<T> {
    /// The sum, or the mismatch when the units are not structurally equal.
    pub fn try_add(self, rhs: Unit<T>) -> (r: Result<Unit<T>, UnitMismatch>) where
        T: core::ops::Add<Output = T> + AddSpec<Output = T>,

        requires
            self.unit@ == rhs.unit@ ==> self.value.add_req(rhs.value),
        ensures
            r is Err <==> self.unit@ != rhs.unit@,
            r matches Err(e) ==> e == UnitMismatch::Add(self.unit, rhs.unit),
            r matches Ok(q) ==> q.unit == self.unit && (T::obeys_add_spec() ==> q.value
                == self.value.add_spec(rhs.value)),
    {
        if self.unit.equals(&rhs.unit) {
            Ok(Unit { value: self.value + rhs.value, unit: self.unit })
        } else {
            Err(UnitMismatch::Add(self.unit, rhs.unit))
        }
    }

    /// The difference, or the mismatch when the units are not structurally equal.
    pub fn try_sub(self, rhs: Unit<T>) -> (r: Result<Unit<T>, UnitMismatch>) where
        T: core::ops::Sub<Output = T> + SubSpec<Output = T>,

        requires
            self.unit@ == rhs.unit@ ==> self.value.sub_req(rhs.value),
        ensures
            r is Err <==> self.unit@ != rhs.unit@,
            r matches Err(e) ==> e == UnitMismatch::Sub(self.unit, rhs.unit),
            r matches Ok(q) ==> q.unit == self.unit && (T::obeys_sub_spec() ==> q.value
                == self.value.sub_spec(rhs.value)),
    {
        if self.unit.equals(&rhs.unit) {
            Ok(Unit { value: self.value - rhs.value, unit: self.unit })
        } else {
            Err(UnitMismatch::Sub(self.unit, rhs.unit))
        }
    }
}

} // verus!
