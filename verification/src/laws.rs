//! The invariants that resolution keeps, stated and proved over the
//! specification-level resolvers. Each executable resolver returns exactly
//! its specification counterpart, so these laws carry over to every call.

use vstd::prelude::*;
use crate::expr::Expr;
use crate::resolve::{spec_get_type, spec_nullable, ResolveError};
use crate::schema::DFSchema;
use crate::types::DataType;

verus! {

/// Resolution is deterministic and side-effect-free: the type and the
/// nullability of an expression against a schema are functions of the two
/// values alone, so any two calls on the same inputs agree. (No resolver
/// takes its expression or its schema other than by shared reference, so
/// neither is ever changed.)
pub proof fn lemma_resolution_deterministic(
    e: Expr,
    s: DFSchema,
    t1: Result<DataType, ResolveError>,
    t2: Result<DataType, ResolveError>,
    n1: Result<bool, ResolveError>,
    n2: Result<bool, ResolveError>,
)
    requires
        t1 == spec_get_type(e, s),
        t2 == spec_get_type(e, s),
        n1 == spec_nullable(e, s),
        n2 == spec_nullable(e, s),
    ensures
        t1 == t2,
        n1 == n2,
{
}

/// A binary expression is nullable exactly when at least one of its operands
/// is: nullability is infectious across every binary operator.
pub proof fn lemma_binary_nullable(e: Expr, s: DFSchema, lb: bool, rb: bool)
    requires
        ({
            &&& e matches Expr::BinaryExpr { left, op, right }
            &&& spec_nullable(*left, s) == Ok::<bool, ResolveError>(lb)
            &&& spec_nullable(*right, s) == Ok::<bool, ResolveError>(rb)
        }),
    ensures
        spec_nullable(e, s) == Ok::<bool, ResolveError>(lb || rb),
{
}

/// A case expression without an else branch is always nullable: when no
/// branch matches, the expression yields null.
pub proof fn lemma_case_without_else_nullable(e: Expr, s: DFSchema, n: bool)
    requires
        e matches Expr::Case { else_expr: None, .. },
        spec_nullable(e, s) == Ok::<bool, ResolveError>(n),
    ensures
        n,
{
}

/// A cast wrapper resolves to its target type: wrapping an expression never
/// changes what the wrapper itself is declared to produce, so a cast inserted
/// for one target can always be re-cast toward another.
pub proof fn lemma_cast_resolves_to_target(e: Expr, s: DFSchema)
    requires
        e is Cast,
    ensures
        spec_get_type(e, s) == Ok::<DataType, ResolveError>(e->Cast_data_type),
{
}

/// Wildcard and qualified-wildcard expressions fail resolution, for type and
/// for nullability alike, whatever the schema holds.
pub proof fn lemma_wildcard_fails(e: Expr, s: DFSchema)
    requires
        e is Wildcard || e is QualifiedWildcard,
    ensures
        spec_get_type(e, s) matches Err(err) && err is InvalidWildcard,
        spec_nullable(e, s) matches Err(err) && err is InvalidWildcard,
{
}

} // verus!
