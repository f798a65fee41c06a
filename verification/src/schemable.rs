//! The resolution capability as a trait: what the surrounding logical-plan
//! layer asks of anything that can be typed against a schema. `Expr` is its
//! one implementation here; the trait states each operation's contract
//! through its specification members.

use vstd::prelude::*;
use crate::bridge::cast_allowed;
use crate::expr::Expr;
use crate::resolve::{
    spec_field_naming, spec_get_type, spec_nullable, ResolveError,
};
use crate::schema::{DFField, DFSchema};
use crate::types::DataType;

verus! {

/// Typing an expression-like value with respect to a schema: its produced
/// type, its nullability, the field it projects, and a checked cast.
pub trait ExprSchemable: Sized {
    /// The type the value resolves to, at specification level.
    spec fn spec_type(&self, s: DFSchema) -> Result<DataType, ResolveError>;

    /// The nullability the value resolves to, at specification level.
    spec fn spec_nullability(&self, s: DFSchema) -> Result<bool, ResolveError>;

    /// The naming rule of the projected field, at specification level.
    spec fn spec_projects_as(&self, f: DFField) -> bool;

    /// What it means for a value to be this one wrapped in a cast to the
    /// target type, at specification level.
    spec fn spec_wrapped_in_cast(self, target: DataType, w: Self) -> bool;

    /// Given a schema, the type of the value.
    fn get_type(&self, schema: &DFSchema) -> (r: Result<DataType, ResolveError>)
        ensures
            r == self.spec_type(*schema),
    ;

    /// Given a schema, the nullability of the value.
    fn nullable(&self, input_schema: &DFSchema) -> (r: Result<bool, ResolveError>)
        ensures
            r == self.spec_nullability(*input_schema),
    ;

    /// The named, typed, nullable field the value projects.
    fn to_field(&self, input_schema: &DFSchema) -> (r: Result<DFField, ResolveError>)
        ensures
            match self.spec_type(*input_schema) {
                Err(err) => r == Err::<DFField, ResolveError>(err),
                Ok(t) => match self.spec_nullability(*input_schema) {
                    Err(err) => r == Err::<DFField, ResolveError>(err),
                    Ok(n) => {
                        &&& r matches Ok(f)
                        &&& f.data_type == t
                        &&& f.nullable == n
                        &&& self.spec_projects_as(f)
                    },
                },
            },
    ;

    /// The value cast to a target type: unchanged when it already matches,
    /// wrapped when the conversion is legal, an error otherwise.
    fn cast_to(self, cast_to_type: &DataType, schema: &DFSchema) -> (r: Result<Self, ResolveError>)
        ensures
            match self.spec_type(*schema) {
                Err(err) => r == Err::<Self, ResolveError>(err),
                Ok(t) => if t == *cast_to_type {
                    r == Ok::<Self, ResolveError>(self)
                } else if cast_allowed(t, *cast_to_type) {
                    r matches Ok(w) && self.spec_wrapped_in_cast(*cast_to_type, w)
                } else {
                    r == Err::<Self, ResolveError>(
                        ResolveError::IllegalCast { from: t, to: *cast_to_type },
                    )
                },
            },
    ;
}

impl ExprSchemable for Expr {
    open spec fn spec_type(&self, s: DFSchema) -> Result<DataType, ResolveError> {
        spec_get_type(*self, s)
    }

    open spec fn spec_nullability(&self, s: DFSchema) -> Result<bool, ResolveError> {
        spec_nullable(*self, s)
    }

    open spec fn spec_projects_as(&self, f: DFField) -> bool {
        spec_field_naming(*self, f)
    }

    open spec fn spec_wrapped_in_cast(self, target: DataType, w: Expr) -> bool {
        &&& w matches Expr::Cast { expr, data_type }
        &&& *expr == self
        &&& data_type == target
    }

    fn get_type(&self, schema: &DFSchema) -> (r: Result<DataType, ResolveError>) {
        Expr::get_type(self, schema)
    }

    fn nullable(&self, input_schema: &DFSchema) -> (r: Result<bool, ResolveError>) {
        Expr::nullable(self, input_schema)
    }

    fn to_field(&self, input_schema: &DFSchema) -> (r: Result<DFField, ResolveError>) {
        Expr::to_field(self, input_schema)
    }

    fn cast_to(self, cast_to_type: &DataType, schema: &DFSchema) -> (r: Result<
        Expr,
        ResolveError,
    >) {
        Expr::cast_to(self, cast_to_type, schema)
    }
}

} // verus!
