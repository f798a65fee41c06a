//! The fixed catalog of primitive types that expressions can produce, the
//! scalar values literals can hold, and the binary operators.

use vstd::prelude::*;

verus! {

/// A type from the engine's fixed catalog of primitive and composite types.
///
/// The catalog is closed: every expression in a well-formed plan resolves to
/// one of these. `List` is the composite member; indexed access reaches into
/// it.
#[derive(Debug, PartialEq)]
pub enum DataType {
    Boolean,
    Int32,
    Int64,
    UInt64,
    Utf8,
    Date32,
    IntervalDayTime,
    List(Box<DataType>),
}

impl DataType {
    /// Structural equality on types, usable from executable code.
    pub fn equals(&self, other: &DataType) -> (r: bool)
        ensures
            r == (*self == *other),
        decreases self,
    {
        match (self, other) {
            (DataType::Boolean, DataType::Boolean) => true,
            (DataType::Int32, DataType::Int32) => true,
            (DataType::Int64, DataType::Int64) => true,
            (DataType::UInt64, DataType::UInt64) => true,
            (DataType::Utf8, DataType::Utf8) => true,
            (DataType::Date32, DataType::Date32) => true,
            (DataType::IntervalDayTime, DataType::IntervalDayTime) => true,
            (DataType::List(a), DataType::List(b)) => a.equals(b),
            _ => false,
        }
    }

    /// An owned copy of the type.
    pub fn dup(&self) -> (r: DataType)
        ensures
            r == *self,
        decreases self,
    {
        match self {
            DataType::Boolean => DataType::Boolean,
            DataType::Int32 => DataType::Int32,
            DataType::Int64 => DataType::Int64,
            DataType::UInt64 => DataType::UInt64,
            DataType::Utf8 => DataType::Utf8,
            DataType::Date32 => DataType::Date32,
            DataType::IntervalDayTime => DataType::IntervalDayTime,
            DataType::List(elem) => DataType::List(Box::new(elem.dup())),
        }
    }
}

/// A binary operator, combined with its operand types by an external
/// type-combination rule.
#[derive(Clone, Copy, Debug, PartialEq, Eq, Structural)]
pub enum Operator {
    Eq,
    NotEq,
    Lt,
    LtEq,
    Gt,
    GtEq,
    Plus,
    Minus,
    Multiply,
    Divide,
    Modulo,
    And,
    Or,
}

/// A typed scalar value, as held by a literal expression. Each variant
/// carries `None` for the null value of that type.
#[derive(Debug, PartialEq)]
pub enum ScalarValue {
    Boolean(Option<bool>),
    Int32(Option<i32>),
    Int64(Option<i64>),
    Utf8(Option<String>),
}

impl ScalarValue {
    /// Whether this is the null value of its type.
    pub open spec fn spec_is_null(&self) -> bool {
        match self {
            ScalarValue::Boolean(v) => v is None,
            ScalarValue::Int32(v) => v is None,
            ScalarValue::Int64(v) => v is None,
            ScalarValue::Utf8(v) => v is None,
        }
    }

    pub fn is_null(&self) -> (r: bool)
        ensures
            r == self.spec_is_null(),
    {
        match self {
            ScalarValue::Boolean(v) => v.is_none(),
            ScalarValue::Int32(v) => v.is_none(),
            ScalarValue::Int64(v) => v.is_none(),
            ScalarValue::Utf8(v) => v.is_none(),
        }
    }

    /// The type of the value; the null value of a type still carries that
    /// type.
    pub open spec fn spec_datatype(&self) -> DataType {
        match self {
            ScalarValue::Boolean(_) => DataType::Boolean,
            ScalarValue::Int32(_) => DataType::Int32,
            ScalarValue::Int64(_) => DataType::Int64,
            ScalarValue::Utf8(_) => DataType::Utf8,
        }
    }

    pub fn get_datatype(&self) -> (r: DataType)
        ensures
            r == self.spec_datatype(),
    {
        match self {
            ScalarValue::Boolean(_) => DataType::Boolean,
            ScalarValue::Int32(_) => DataType::Int32,
            ScalarValue::Int64(_) => DataType::Int64,
            ScalarValue::Utf8(_) => DataType::Utf8,
        }
    }

}

} // verus!
