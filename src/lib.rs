//! Quantities that carry a symbolic unit expression, with the unit algebra
//! that arithmetic on them infers.
pub mod laws;
pub mod quantity;
pub mod unit_kind;

pub use quantity::{Unit, UnitMismatch};
pub use unit_kind::{NativeUnit, UnitExpr, UnitKind};
