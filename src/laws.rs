use vstd::prelude::*;
use vstd::std_specs::cmp::PartialOrdSpec;
use vstd::std_specs::ops::{AddSpec, SubSpec};

use crate::quantity::Unit;
use crate::unit_kind::{div_expr, mul_expr, UnitExpr};

verus! {

/// The height of a unit expression as a tree.
pub open spec fn height(u: UnitExpr) -> nat
    decreases u,
{
    match u {
        UnitExpr::Ratio(a, b) | UnitExpr::Product(a, b) => {
            let ha = height(*a);
            let hb = height(*b);
            1 + if ha >= hb {
                ha
            } else {
                hb
            }
        },
        UnitExpr::Power(b, _) => 1 + height(*b),
        _ => 0,
    }
}

/// No unit expression is its own base or its own denominator.
proof fn lemma_no_part_is_whole(u: UnitExpr)
    ensures
        u is Power ==> *u->Power_0 != u,
        u is Ratio ==> *u->Ratio_1 != u,
{
    match u {
        UnitExpr::Power(b, _) => assert(height(*b) < height(u)),
        UnitExpr::Ratio(_, d) => assert(height(*d) < height(u)),
        _ => {},
    }
}

/// Adding a quantity and subtracting it again gives back the first quantity,
/// magnitude and unit alike; the sum keeps the common unit.
pub proof fn lemma_add_sub_round_trip(a: Unit<i64>, b: Unit<i64>)
    requires
        a.unit@ == b.unit@,
        a.add_req(b),
    ensures
        a.add_spec(b).unit == a.unit,
        a.add_spec(b).sub_req(b),
        a.add_spec(b).sub_spec(b) == a,
{
}

/// Multiplying a unit by itself squares it, and multiplying the square by the
/// unit again raises the exponent to three.
pub proof fn lemma_exponent_accumulates(u: UnitExpr)
    ensures
        mul_expr(u, u) == UnitExpr::Power(Box::new(u), 2),
        mul_expr(mul_expr(u, u), u) == UnitExpr::Power(Box::new(u), 3),
{
    lemma_no_part_is_whole(u);
}

/// A unit divided by itself is dimensionless.
pub proof fn lemma_self_division_dimensionless(u: UnitExpr)
    ensures
        div_expr(u, u) == UnitExpr::Dimensionless,
{
    lemma_no_part_is_whole(u);
}

/// Dividing by a different unit and multiplying by it again cancels back to
/// the first unit, unless the first unit is already a ratio over the second.
pub proof fn lemma_ratio_cancels(a: UnitExpr, b: UnitExpr)
    requires
        a != b,
        !(a is Ratio && *a->Ratio_1 == b),
    ensures
        div_expr(a, b) == UnitExpr::Ratio(Box::new(a), Box::new(b)),
        mul_expr(div_expr(a, b), b) == a,
{
}

/// Quantities of different units are incomparable: none of `<`, `<=`, `>`,
/// `>=` holds between them.
pub proof fn lemma_different_units_incomparable<T: PartialOrd + PartialOrdSpec>(a: Unit<T>, b: Unit<T>)
    requires
        a.unit@ != b.unit@,
    ensures
        a.partial_cmp_spec(&b) is None,
        b.partial_cmp_spec(&a) is None,
{
}

} // verus!
