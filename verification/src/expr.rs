//! The expression tree of the logical plan: a closed grammar of column
//! references, literals, operators, conditionals, casts and function calls.
//! Every resolution rule is an exhaustive match over these variants.

use vstd::prelude::*;
use crate::schema::Column;
use crate::types::{DataType, Operator, ScalarValue};

verus! {

/// The identity of a function call as resolution sees it: its name and the
/// return type its registry entry declares. The signature rules that derive
/// the return type from the argument types live with the registry that owns
/// the function; resolution consumes the declared result.
#[derive(Debug, PartialEq)]
pub struct FunctionDef {
    pub name: String,
    pub return_type: DataType,
}

/// An expression node. Each node owns its children exclusively: the grammar
/// is a tree, never a graph, and resolution never mutates it.
#[derive(Debug, PartialEq)]
pub enum Expr {
    /// Renames the result of its child; forwards type and nullability.
    Alias(Box<Expr>, String),
    /// A reference to a column of the input schema.
    Column(Column),
    /// A variable with an explicitly declared type, named by a dotted path.
    ScalarVariable(DataType, Vec<String>),
    /// A constant, typed scalar value (possibly the null of its type).
    Literal(ScalarValue),
    /// Combines two operands through a binary operator's type rule.
    BinaryExpr { left: Box<Expr>, op: Operator, right: Box<Expr> },
    /// Logical negation; boolean result, nullability of the child.
    Not(Box<Expr>),
    /// Null test; boolean result that itself is never null.
    IsNotNull(Box<Expr>),
    /// Null test; boolean result that itself is never null.
    IsNull(Box<Expr>),
    /// Arithmetic negation; forwards type and nullability.
    Negative(Box<Expr>),
    /// Keyed access into the composite value its child produces.
    GetIndexedField { expr: Box<Expr>, key: ScalarValue },
    /// Range test on `expr`; boolean result, nullability of `expr`.
    Between { expr: Box<Expr>, negated: bool, low: Box<Expr>, high: Box<Expr> },
    /// Conditional: ordered `(when, then)` branches, an optional probe
    /// operand, and an optional else branch.
    Case {
        expr: Option<Box<Expr>>,
        when_then_expr: Vec<(Box<Expr>, Box<Expr>)>,
        else_expr: Option<Box<Expr>>,
    },
    /// Explicit conversion; produces the target type, nullability of the
    /// child.
    Cast { expr: Box<Expr>, data_type: DataType },
    /// Conversion that yields null where the value cannot convert; always
    /// nullable.
    TryCast { expr: Box<Expr>, data_type: DataType },
    /// A sort key; forwards type and nullability of the sorted expression.
    Sort { expr: Box<Expr>, asc: bool, nulls_first: bool },
    /// A built-in scalar function call.
    ScalarFunction { fun: FunctionDef, args: Vec<Expr> },
    /// A user-defined scalar function call.
    ScalarUDF { fun: FunctionDef, args: Vec<Expr> },
    /// A built-in aggregate function call.
    AggregateFunction { fun: FunctionDef, args: Vec<Expr>, distinct: bool },
    /// A window function call.
    WindowFunction {
        fun: FunctionDef,
        args: Vec<Expr>,
        partition_by: Vec<Expr>,
        order_by: Vec<Expr>,
    },
    /// A user-defined aggregate function call.
    AggregateUDF { fun: FunctionDef, args: Vec<Expr> },
    /// Membership test on `expr`; boolean result, nullability of `expr`.
    InList { expr: Box<Expr>, list: Vec<Expr>, negated: bool },
    /// All columns; never valid once a plan is schema-resolved.
    Wildcard,
    /// All columns of one relation; never valid once a plan is
    /// schema-resolved.
    QualifiedWildcard { qualifier: String },
}

} // verus!
