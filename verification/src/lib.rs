//! Type and nullability resolution for the expression trees of a SQL logical
//! plan: given an expression and the schema of its input, compute the type the
//! expression produces, whether it can produce a null, the named field it
//! projects into an output row, and, when two types need reconciling, a
//! minimal explicit cast.

pub mod bridge;
pub mod display;
pub mod expr;
pub mod laws;
pub mod resolve;
pub mod schema;
pub mod schemable;
pub mod types;
