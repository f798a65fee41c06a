//! Type and nullability resolution: a pure, bottom-up walk of the expression
//! tree against a schema. Each executable resolver returns exactly what its
//! specification-level counterpart defines, so resolution is deterministic
//! and free of side effects by contract.

use vstd::prelude::*;
use crate::bridge::{binary_result, cast_allowed, query_binary_result, query_cast_allowed};
use crate::display::spec_display;
use crate::expr::Expr;
use crate::schema::{spec_lookup_field, DFField, DFSchema};
use crate::types::{DataType, Operator, ScalarValue};

verus! {

/// Why a resolution call failed. Every failure carries what is needed to
/// diagnose it: the missing column, the incompatible types, or the rejected
/// conversion, with source and target both named.
#[derive(Debug, PartialEq)]
pub enum ResolveError {
    /// A column reference that the schema does not resolve.
    ColumnNotFound { relation: Option<String>, name: String },
    /// A wildcard or qualified-wildcard variant: invalid in a resolved plan,
    /// whatever the schema holds.
    InvalidWildcard { qualified: bool },
    /// A case expression with no `(when, then)` branch at all; a well-formed
    /// plan never builds one.
    EmptyCase,
    /// The operator type-combination rule rejected the operand types.
    TypeIncompatible { left: DataType, op: Operator, right: DataType },
    /// Keyed access into a type that has no nested member for the key.
    InvalidIndexedAccess { base: DataType },
    /// The cast-compatibility predicate rejected the conversion.
    IllegalCast { from: DataType, to: DataType },
}

/// The nested field that keyed access reaches inside a composite type: an
/// element of a list, reached by a non-null integer key, is the list's
/// element type and may always be null (the key may lie outside the list).
pub open spec fn spec_indexed_field(t: DataType, key: ScalarValue) -> Option<(DataType, bool)> {
    match t {
        DataType::List(elem) => match key {
            ScalarValue::Int64(k) => if k is Some {
                Some((*elem, true))
            } else {
                None
            },
            _ => None,
        },
        _ => None,
    }
}

/// The type an expression produces against a schema, or the first failure
/// met while resolving it: one rule per grammar variant, children first.
pub open spec fn spec_get_type(e: Expr, s: DFSchema) -> Result<DataType, ResolveError>
    decreases e,
{
    match e {
        Expr::Alias(sub, _) => spec_get_type(*sub, s),
        Expr::Sort { expr, .. } => spec_get_type(*expr, s),
        Expr::Negative(sub) => spec_get_type(*sub, s),
        Expr::Column(c) => match spec_lookup_field(s.fields@, c) {
            Some(f) => Ok(f.data_type),
            None => Err(ResolveError::ColumnNotFound { relation: c.relation, name: c.name }),
        },
        Expr::ScalarVariable(t, _) => Ok(t),
        Expr::Literal(v) => Ok(v.spec_datatype()),
        Expr::Case { when_then_expr, .. } => if when_then_expr@.len() == 0 {
            Err(ResolveError::EmptyCase)
        } else {
            spec_get_type(*when_then_expr@[0].1, s)
        },
        Expr::Cast { data_type, .. } => Ok(data_type),
        Expr::TryCast { data_type, .. } => Ok(data_type),
        Expr::ScalarFunction { fun, args } => match spec_first_arg_err(args@, s) {
            Some(err) => Err(err),
            None => Ok(fun.return_type),
        },
        Expr::ScalarUDF { fun, args } => match spec_first_arg_err(args@, s) {
            Some(err) => Err(err),
            None => Ok(fun.return_type),
        },
        Expr::AggregateFunction { fun, args, .. } => match spec_first_arg_err(args@, s) {
            Some(err) => Err(err),
            None => Ok(fun.return_type),
        },
        Expr::WindowFunction { fun, args, .. } => match spec_first_arg_err(args@, s) {
            Some(err) => Err(err),
            None => Ok(fun.return_type),
        },
        Expr::AggregateUDF { fun, args } => match spec_first_arg_err(args@, s) {
            Some(err) => Err(err),
            None => Ok(fun.return_type),
        },
        Expr::Not(_) => Ok(DataType::Boolean),
        Expr::IsNull(_) => Ok(DataType::Boolean),
        Expr::IsNotNull(_) => Ok(DataType::Boolean),
        Expr::Between { .. } => Ok(DataType::Boolean),
        Expr::InList { .. } => Ok(DataType::Boolean),
        Expr::BinaryExpr { left, op, right } => match spec_get_type(*left, s) {
            Err(err) => Err(err),
            Ok(lt) => match spec_get_type(*right, s) {
                Err(err) => Err(err),
                Ok(rt) => match binary_result(lt, op, rt) {
                    Some(t) => Ok(t),
                    None => Err(ResolveError::TypeIncompatible { left: lt, op, right: rt }),
                },
            },
        },
        Expr::Wildcard => Err(ResolveError::InvalidWildcard { qualified: false }),
        Expr::QualifiedWildcard { .. } => Err(ResolveError::InvalidWildcard { qualified: true }),
        Expr::GetIndexedField { expr, key } => match spec_get_type(*expr, s) {
            Err(err) => Err(err),
            Ok(t) => match spec_indexed_field(t, key) {
                Some((ft, _)) => Ok(ft),
                None => Err(ResolveError::InvalidIndexedAccess { base: t }),
            },
        },
    }
}

/// The first failure among the argument types of a call, in argument order;
/// `None` when every argument resolves.
pub open spec fn spec_first_arg_err(args: Seq<Expr>, s: DFSchema) -> Option<ResolveError>
    decreases args,
{
    if args.len() == 0 {
        None
    } else {
        match spec_get_type(args[0], s) {
            Err(err) => Some(err),
            Ok(_) => spec_first_arg_err(args.drop_first(), s),
        }
    }
}

/// Whether an expression can produce a null against a schema, or the first
/// failure met while resolving it.
pub open spec fn spec_nullable(e: Expr, s: DFSchema) -> Result<bool, ResolveError>
    decreases e,
{
    match e {
        Expr::Alias(sub, _) => spec_nullable(*sub, s),
        Expr::Not(sub) => spec_nullable(*sub, s),
        Expr::Negative(sub) => spec_nullable(*sub, s),
        Expr::Sort { expr, .. } => spec_nullable(*expr, s),
        Expr::Between { expr, .. } => spec_nullable(*expr, s),
        Expr::InList { expr, .. } => spec_nullable(*expr, s),
        Expr::Column(c) => match spec_lookup_field(s.fields@, c) {
            Some(f) => Ok(f.nullable),
            None => Err(ResolveError::ColumnNotFound { relation: c.relation, name: c.name }),
        },
        Expr::Literal(v) => Ok(v.spec_is_null()),
        Expr::Case { when_then_expr, else_expr, .. } => if when_then_expr@.len() == 0 {
            Err(ResolveError::EmptyCase)
        } else {
            match spec_thens_nullable(when_then_expr@, s) {
                Err(err) => Err(err),
                Ok(any) => if any {
                    Ok(true)
                } else {
                    match else_expr {
                        Some(el) => spec_nullable(*el, s),
                        None => Ok(true),
                    }
                },
            }
        },
        Expr::Cast { expr, .. } => spec_nullable(*expr, s),
        Expr::ScalarVariable(_, _) => Ok(true),
        Expr::TryCast { .. } => Ok(true),
        Expr::ScalarFunction { .. } => Ok(true),
        Expr::ScalarUDF { .. } => Ok(true),
        Expr::AggregateFunction { .. } => Ok(true),
        Expr::WindowFunction { .. } => Ok(true),
        Expr::AggregateUDF { .. } => Ok(true),
        Expr::IsNull(_) => Ok(false),
        Expr::IsNotNull(_) => Ok(false),
        Expr::BinaryExpr { left, right, .. } => match spec_nullable(*left, s) {
            Err(err) => Err(err),
            Ok(lb) => if lb {
                Ok(true)
            } else {
                spec_nullable(*right, s)
            },
        },
        Expr::Wildcard => Err(ResolveError::InvalidWildcard { qualified: false }),
        Expr::QualifiedWildcard { .. } => Err(ResolveError::InvalidWildcard { qualified: true }),
        Expr::GetIndexedField { expr, key } => match spec_get_type(*expr, s) {
            Err(err) => Err(err),
            Ok(t) => match spec_indexed_field(t, key) {
                Some((_, n)) => Ok(n),
                None => Err(ResolveError::InvalidIndexedAccess { base: t }),
            },
        },
    }
}

/// Whether any `then` branch of a case expression is nullable, every branch
/// resolved in order (no branch is skipped), or the first failure met.
pub open spec fn spec_thens_nullable(
    wt: Seq<(Box<Expr>, Box<Expr>)>,
    s: DFSchema,
) -> Result<bool, ResolveError>
    decreases wt,
{
    if wt.len() == 0 {
        Ok(false)
    } else {
        match spec_nullable(*wt[0].1, s) {
            Err(err) => Err(err),
            Ok(b) => match spec_thens_nullable(wt.drop_first(), s) {
                Err(err) => Err(err),
                Ok(rest) => Ok(b || rest),
            },
        }
    }
}

/// The name and qualifier an expression projects under: a column reference
/// keeps its own name and qualifier verbatim; every other expression is
/// unqualified and named by its canonical rendering.
pub open spec fn spec_field_naming(e: Expr, f: DFField) -> bool {
    match e {
        Expr::Column(c) => f.qualifier == c.relation && f.name@ == c.name@,
        _ => f.qualifier is None && f.name@ == spec_display(e),
    }
}

fn indexed_field(t: &DataType, key: &ScalarValue) -> (r: Option<(DataType, bool)>)
    ensures
        r == spec_indexed_field(*t, *key),
{
    match t {
        DataType::List(elem) => match key {
            ScalarValue::Int64(k) => if k.is_some() {
                Some(((**elem).dup(), true))
            } else {
                None
            },
            _ => None,
        },
        _ => None,
    }
}

fn first_arg_error_from(args: &Vec<Expr>, schema: &DFSchema, i: usize) -> (r: Option<ResolveError>)
    requires
        i <= args@.len(),
    ensures
        r == spec_first_arg_err(args@.subrange(i as int, args@.len() as int), *schema),
    decreases args, args@.len() - i,
{
    let ghost suffix = args@.subrange(i as int, args@.len() as int);
    if i == args.len() {
        None
    } else {
        match args[i].get_type(schema) {
            Err(err) => Some(err),
            Ok(_) => {
                assert(suffix.drop_first() =~= args@.subrange(i as int + 1, args@.len() as int));
                first_arg_error_from(args, schema, i + 1)
            },
        }
    }
}

fn thens_nullable_from(
    wt: &Vec<(Box<Expr>, Box<Expr>)>,
    schema: &DFSchema,
    i: usize,
) -> (r: Result<bool, ResolveError>)
    requires
        i <= wt@.len(),
    ensures
        r == spec_thens_nullable(wt@.subrange(i as int, wt@.len() as int), *schema),
    decreases wt, wt@.len() - i,
{
    let ghost suffix = wt@.subrange(i as int, wt@.len() as int);
    if i == wt.len() {
        Ok(false)
    } else {
        let then_nullable = wt[i].1.nullable(schema);
        match then_nullable {
            Err(err) => Err(err),
            Ok(b) => {
                assert(suffix.drop_first() =~= wt@.subrange(i as int + 1, wt@.len() as int));
                match thens_nullable_from(wt, schema, i + 1) {
                    Err(err) => Err(err),
                    Ok(rest) => Ok(b || rest),
                }
            },
        }
    }
}

impl Expr {
    /// The type this expression produces against the schema.
    ///
    /// Fails when a referenced column is absent from the schema, when the
    /// operator rule or a keyed access rejects its operand types, when a case
    /// expression has no branch, or when the expression is a wildcard; the
    /// first failure in the walk is the one reported.
    pub fn get_type(&self, schema: &DFSchema) -> (r: Result<DataType, ResolveError>)
        ensures
            r == spec_get_type(*self, *schema),
        decreases self, 0int,
    {
        match self {
            Expr::Alias(sub, _) => sub.get_type(schema),
            Expr::Sort { expr, .. } => expr.get_type(schema),
            Expr::Negative(sub) => sub.get_type(schema),
            Expr::Column(c) => match schema.field_for(c) {
                Some(f) => Ok(f.data_type.dup()),
                None => {
                    let copy = c.dup();
                    Err(ResolveError::ColumnNotFound { relation: copy.relation, name: copy.name })
                },
            },
            Expr::ScalarVariable(t, _) => Ok(t.dup()),
            Expr::Literal(v) => Ok(v.get_datatype()),
            Expr::Case { when_then_expr, .. } => if when_then_expr.len() == 0 {
                Err(ResolveError::EmptyCase)
            } else {
                when_then_expr[0].1.get_type(schema)
            },
            Expr::Cast { data_type, .. } => Ok(data_type.dup()),
            Expr::TryCast { data_type, .. } => Ok(data_type.dup()),
            Expr::ScalarFunction { fun, args } => {
                assert(args@.subrange(0, args@.len() as int) =~= args@);
                match first_arg_error_from(args, schema, 0) {
                    Some(err) => Err(err),
                    None => Ok(fun.return_type.dup()),
                }
            },
            Expr::ScalarUDF { fun, args } => {
                assert(args@.subrange(0, args@.len() as int) =~= args@);
                match first_arg_error_from(args, schema, 0) {
                    Some(err) => Err(err),
                    None => Ok(fun.return_type.dup()),
                }
            },
            Expr::AggregateFunction { fun, args, .. } => {
                assert(args@.subrange(0, args@.len() as int) =~= args@);
                match first_arg_error_from(args, schema, 0) {
                    Some(err) => Err(err),
                    None => Ok(fun.return_type.dup()),
                }
            },
            Expr::WindowFunction { fun, args, .. } => {
                assert(args@.subrange(0, args@.len() as int) =~= args@);
                match first_arg_error_from(args, schema, 0) {
                    Some(err) => Err(err),
                    None => Ok(fun.return_type.dup()),
                }
            },
            Expr::AggregateUDF { fun, args } => {
                assert(args@.subrange(0, args@.len() as int) =~= args@);
                match first_arg_error_from(args, schema, 0) {
                    Some(err) => Err(err),
                    None => Ok(fun.return_type.dup()),
                }
            },
            Expr::Not(_) => Ok(DataType::Boolean),
            Expr::IsNull(_) => Ok(DataType::Boolean),
            Expr::IsNotNull(_) => Ok(DataType::Boolean),
            Expr::Between { .. } => Ok(DataType::Boolean),
            Expr::InList { .. } => Ok(DataType::Boolean),
            Expr::BinaryExpr { left, op, right } => match left.get_type(schema) {
                Err(err) => Err(err),
                Ok(lt) => match right.get_type(schema) {
                    Err(err) => Err(err),
                    Ok(rt) => match query_binary_result(&lt, op, &rt) {
                        Some(t) => Ok(t),
                        None => Err(
                            ResolveError::TypeIncompatible { left: lt, op: *op, right: rt },
                        ),
                    },
                },
            },
            Expr::Wildcard => Err(ResolveError::InvalidWildcard { qualified: false }),
            Expr::QualifiedWildcard { .. } => Err(ResolveError::InvalidWildcard { qualified: true }),
            Expr::GetIndexedField { expr, key } => match expr.get_type(schema) {
                Err(err) => Err(err),
                Ok(t) => match indexed_field(&t, key) {
                    Some((ft, _)) => Ok(ft),
                    None => Err(ResolveError::InvalidIndexedAccess { base: t }),
                },
            },
        }
    }

    /// Whether this expression can produce a null against the schema.
    ///
    /// Fails on the same inputs as `get_type` fails for column lookups, keyed
    /// accesses and wildcards; the operator rule is not consulted here.
    pub fn nullable(&self, input_schema: &DFSchema) -> (r: Result<bool, ResolveError>)
        ensures
            r == spec_nullable(*self, *input_schema),
        decreases self, 0int,
    {
        match self {
            Expr::Alias(sub, _) => sub.nullable(input_schema),
            Expr::Not(sub) => sub.nullable(input_schema),
            Expr::Negative(sub) => sub.nullable(input_schema),
            Expr::Sort { expr, .. } => expr.nullable(input_schema),
            Expr::Between { expr, .. } => expr.nullable(input_schema),
            Expr::InList { expr, .. } => expr.nullable(input_schema),
            Expr::Column(c) => match input_schema.field_for(c) {
                Some(f) => Ok(f.nullable),
                None => {
                    let copy = c.dup();
                    Err(ResolveError::ColumnNotFound { relation: copy.relation, name: copy.name })
                },
            },
            Expr::Literal(v) => Ok(v.is_null()),
            Expr::Case { when_then_expr, else_expr, .. } => if when_then_expr.len() == 0 {
                Err(ResolveError::EmptyCase)
            } else {
                assert(when_then_expr@.subrange(0, when_then_expr@.len() as int)
                    =~= when_then_expr@);
                match thens_nullable_from(when_then_expr, input_schema, 0) {
                    Err(err) => Err(err),
                    Ok(any) => if any {
                        Ok(true)
                    } else {
                        match else_expr {
                            Some(el) => el.nullable(input_schema),
                            None => Ok(true),
                        }
                    },
                }
            },
            Expr::Cast { expr, .. } => expr.nullable(input_schema),
            Expr::ScalarVariable(_, _) => Ok(true),
            Expr::TryCast { .. } => Ok(true),
            Expr::ScalarFunction { .. } => Ok(true),
            Expr::ScalarUDF { .. } => Ok(true),
            Expr::AggregateFunction { .. } => Ok(true),
            Expr::WindowFunction { .. } => Ok(true),
            Expr::AggregateUDF { .. } => Ok(true),
            Expr::IsNull(_) => Ok(false),
            Expr::IsNotNull(_) => Ok(false),
            Expr::BinaryExpr { left, right, .. } => match left.nullable(input_schema) {
                Err(err) => Err(err),
                Ok(lb) => if lb {
                    Ok(true)
                } else {
                    right.nullable(input_schema)
                },
            },
            Expr::Wildcard => Err(ResolveError::InvalidWildcard { qualified: false }),
            Expr::QualifiedWildcard { .. } => Err(ResolveError::InvalidWildcard { qualified: true }),
            Expr::GetIndexedField { expr, key } => match expr.get_type(input_schema) {
                Err(err) => Err(err),
                Ok(t) => match indexed_field(&t, key) {
                    Some((_, n)) => Ok(n),
                    None => Err(ResolveError::InvalidIndexedAccess { base: t }),
                },
            },
        }
    }

    /// The field descriptor this expression projects into an output row:
    /// its name and qualifier under the naming rule, its resolved type, and
    /// its resolved nullability. Fails exactly where `get_type` or `nullable`
    /// fails, in that order.
    pub fn to_field(&self, input_schema: &DFSchema) -> (r: Result<DFField, ResolveError>)
        ensures
            match spec_get_type(*self, *input_schema) {
                Err(err) => r == Err::<DFField, ResolveError>(err),
                Ok(t) => match spec_nullable(*self, *input_schema) {
                    Err(err) => r == Err::<DFField, ResolveError>(err),
                    Ok(n) => {
                        &&& r matches Ok(f)
                        &&& f.data_type == t
                        &&& f.nullable == n
                        &&& spec_field_naming(*self, f)
                    },
                },
            },
    {
        let data_type = match self.get_type(input_schema) {
            Ok(t) => t,
            Err(err) => {
                return Err(err);
            },
        };
        let nullable = match self.nullable(input_schema) {
            Ok(n) => n,
            Err(err) => {
                return Err(err);
            },
        };
        match self {
            Expr::Column(c) => {
                let copy = c.dup();
                Ok(DFField { qualifier: copy.relation, name: copy.name, data_type, nullable })
            },
            _ => Ok(DFField { qualifier: None, name: self.canonical_name(), data_type, nullable }),
        }
    }

    /// Casts this expression to the target type against the schema.
    ///
    /// Returns the expression unchanged when its resolved type already equals
    /// the target (no wrapper is added), wraps it in a cast node when the
    /// external compatibility predicate allows the conversion, and otherwise
    /// fails, naming both the source and the target type. The input is never
    /// mutated: it comes back as it was, or owned by the new wrapper node.
    pub fn cast_to(self, cast_to_type: &DataType, schema: &DFSchema) -> (r: Result<
        Expr,
        ResolveError,
    >)
        ensures
            match spec_get_type(self, *schema) {
                Err(err) => r == Err::<Expr, ResolveError>(err),
                Ok(t) => if t == *cast_to_type {
                    r == Ok::<Expr, ResolveError>(self)
                } else if cast_allowed(t, *cast_to_type) {
                    &&& r matches Ok(w)
                    &&& w matches Expr::Cast { expr, data_type }
                    &&& *expr == self
                    &&& data_type == *cast_to_type
                } else {
                    r == Err::<Expr, ResolveError>(
                        ResolveError::IllegalCast { from: t, to: *cast_to_type },
                    )
                },
            },
    {
        let this_type = match self.get_type(schema) {
            Ok(t) => t,
            Err(err) => {
                return Err(err);
            },
        };
        if this_type.equals(cast_to_type) {
            Ok(self)
        } else if query_cast_allowed(&this_type, cast_to_type) {
            Ok(Expr::Cast { expr: Box::new(self), data_type: cast_to_type.dup() })
        } else {
            Err(ResolveError::IllegalCast { from: this_type, to: cast_to_type.dup() })
        }
    }
}

} // verus!
