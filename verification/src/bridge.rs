//! The boundary to the external type-system oracles. The operator
//! type-combination rule and the cast-compatibility predicate are owned by
//! the arrow / datafusion type system; this module names their results and
//! carries the library's type catalog across, one variant for one variant.

use vstd::prelude::*;
use crate::types::{DataType, Operator};
use datafusion_common::arrow::datatypes as adt;
use datafusion_common::arrow::datatypes::DataType as ArrowDataType;
use datafusion_expr::Operator as DfOperator;

verus! {

#[verifier::external_type_specification]
#[verifier::external_body]
pub struct ExArrowDataType(ArrowDataType);

#[verifier::external_type_specification]
#[verifier::external_body]
pub struct ExOperator(DfOperator);

/// The type that the external operator rule gives to `left op right`, or
/// `None` where it rejects the operand types (or answers with a type outside
/// the library's catalog). The rule is a pure function of the three
/// arguments; no further structure of it is assumed here.
pub uninterp spec fn binary_result(left: DataType, op: Operator, right: DataType) -> Option<DataType>;

/// The external cast-compatibility predicate: whether a value of the first
/// type can be converted to the second. A pure function of the two types.
pub uninterp spec fn cast_allowed(from: DataType, to: DataType) -> bool;

/// Relies on the constructors of arrow's `DataType`: embeds the library's
/// fixed type catalog into arrow's, one variant for one variant.
#[verifier::external_body]
fn to_arrow(t: &DataType) -> (r: adt::DataType) {
    match t {
        DataType::Boolean => adt::DataType::Boolean,
        DataType::Int32 => adt::DataType::Int32,
        DataType::Int64 => adt::DataType::Int64,
        DataType::UInt64 => adt::DataType::UInt64,
        DataType::Utf8 => adt::DataType::Utf8,
        DataType::Date32 => adt::DataType::Date32,
        DataType::IntervalDayTime => adt::DataType::Interval(adt::IntervalUnit::DayTime),
        DataType::List(elem) => adt::DataType::List(std::sync::Arc::new(adt::Field::new(
            "item",
            to_arrow(elem),
            true,
        ))),
    }
}

/// Relies on the accessors of arrow's `DataType`: reads an arrow type back
/// into the library's catalog, `None` where the catalog has no counterpart.
#[verifier::external_body]
fn from_arrow(t: &adt::DataType) -> (r: Option<DataType>) {
    match t {
        adt::DataType::Boolean => Some(DataType::Boolean),
        adt::DataType::Int32 => Some(DataType::Int32),
        adt::DataType::Int64 => Some(DataType::Int64),
        adt::DataType::UInt64 => Some(DataType::UInt64),
        adt::DataType::Utf8 => Some(DataType::Utf8),
        adt::DataType::Date32 => Some(DataType::Date32),
        adt::DataType::Interval(adt::IntervalUnit::DayTime) => Some(DataType::IntervalDayTime),
        adt::DataType::List(f) => match from_arrow(f.data_type()) {
            Some(elem) => Some(DataType::List(Box::new(elem))),
            None => None,
        },
        _ => None,
    }
}

/// Relies on the constructors of datafusion_expr's `Operator`: carries an
/// operator across, one variant for one variant.
#[verifier::external_body]
fn to_operator(op: &Operator) -> (r: DfOperator) {
    match op {
        Operator::Eq => DfOperator::Eq,
        Operator::NotEq => DfOperator::NotEq,
        Operator::Lt => DfOperator::Lt,
        Operator::LtEq => DfOperator::LtEq,
        Operator::Gt => DfOperator::Gt,
        Operator::GtEq => DfOperator::GtEq,
        Operator::Plus => DfOperator::Plus,
        Operator::Minus => DfOperator::Minus,
        Operator::Multiply => DfOperator::Multiply,
        Operator::Divide => DfOperator::Divide,
        Operator::Modulo => DfOperator::Modulo,
        Operator::And => DfOperator::And,
        Operator::Or => DfOperator::Or,
    }
}

/// Relies on `BinaryTypeCoercer::get_result_type` of datafusion_expr: the
/// type that `left op right` produces, or an error where the operand types
/// cannot be coerced. The answer depends on the three arguments alone.
#[verifier::external_body]
pub(crate) fn query_binary_result(left: &DataType, op: &Operator, right: &DataType) -> (r: Option<
    DataType,
>)
    ensures
        r == binary_result(*left, *op, *right),
{
    let (l, o, rt) = (to_arrow(left), to_operator(op), to_arrow(right));
    let coercer = datafusion_expr::type_coercion::binary::BinaryTypeCoercer::new(&l, &o, &rt);
    match coercer.get_result_type() {
        Ok(t) => from_arrow(&t),
        Err(_) => None,
    }
}

/// Relies on arrow's `can_cast_types` (through the re-export the coercion
/// rules are built against): whether a cast kernel exists from the first
/// type to the second. The answer depends on the two types alone.
#[verifier::external_body]
pub(crate) fn query_cast_allowed(from: &DataType, to: &DataType) -> (r: bool)
    ensures
        r == cast_allowed(*from, *to),
{
    datafusion_common::arrow::compute::can_cast_types(&to_arrow(from), &to_arrow(to))
}

} // verus!
