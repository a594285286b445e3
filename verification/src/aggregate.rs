//! The aggregate functions of a single column, and the type each of them
//! returns.

use crate::datatype::{DataType, DataTypeView};
use crate::text::text_eq;
use crate::type_definition::{TypeDefinition, TypeDefinitionView};
use vstd::prelude::*;

verus! {

/// An aggregate function over the values of one column.
#[derive(Debug, Clone, Copy, PartialEq, Eq)]
pub enum AggregateFunction {
    Max,
    Min,
    Sum,
    Avg,
    StddevPop,
    StddevSamp,
    VarPop,
    VarSamp,
}

impl AggregateFunction {
    /// The name by which a request asks for this function.
    pub open spec fn name(self) -> Seq<char> {
        match self {
            AggregateFunction::Max => "max"@,
            AggregateFunction::Min => "min"@,
            AggregateFunction::Sum => "sum"@,
            AggregateFunction::Avg => "avg"@,
            AggregateFunction::StddevPop => "stddev_pop"@,
            AggregateFunction::StddevSamp => "stddev_samp"@,
            AggregateFunction::VarPop => "var_pop"@,
            AggregateFunction::VarSamp => "var_samp"@,
        }
    }

    /// The function that a name asks for, if it is the name of one.
    pub open spec fn named(name: Seq<char>) -> Option<AggregateFunction> {
        if name == "max"@ {
            Some(AggregateFunction::Max)
        } else if name == "min"@ {
            Some(AggregateFunction::Min)
        } else if name == "sum"@ {
            Some(AggregateFunction::Sum)
        } else if name == "avg"@ {
            Some(AggregateFunction::Avg)
        } else if name == "stddev_pop"@ {
            Some(AggregateFunction::StddevPop)
        } else if name == "stddev_samp"@ {
            Some(AggregateFunction::StddevSamp)
        } else if name == "var_pop"@ {
            Some(AggregateFunction::VarPop)
        } else if name == "var_samp"@ {
            Some(AggregateFunction::VarSamp)
        } else {
            None
        }
    }

    /// Reads the name of an aggregate function.
    pub fn parse(name: &str) -> (function: Option<AggregateFunction>)
        ensures
            function == Self::named(name@),
    {
        if text_eq(name, "max") {
            Some(AggregateFunction::Max)
        } else if text_eq(name, "min") {
            Some(AggregateFunction::Min)
        } else if text_eq(name, "sum") {
            Some(AggregateFunction::Sum)
        } else if text_eq(name, "avg") {
            Some(AggregateFunction::Avg)
        } else if text_eq(name, "stddev_pop") {
            Some(AggregateFunction::StddevPop)
        } else if text_eq(name, "stddev_samp") {
            Some(AggregateFunction::StddevSamp)
        } else if text_eq(name, "var_pop") {
            Some(AggregateFunction::VarPop)
        } else if text_eq(name, "var_samp") {
            Some(AggregateFunction::VarSamp)
        } else {
            None
        }
    }
}

/// Each function is found again by its name.
pub proof fn lemma_named_name(function: AggregateFunction)
    ensures
        AggregateFunction::named(function.name()) == Some(function),
{
    reveal_strlit("max");
    reveal_strlit("min");
    reveal_strlit("sum");
    reveal_strlit("avg");
    reveal_strlit("stddev_pop");
    reveal_strlit("stddev_samp");
    reveal_strlit("var_pop");
    reveal_strlit("var_samp");
    assert("max"@.len() == 3 && "min"@.len() == 3 && "sum"@.len() == 3 && "avg"@.len() == 3);
    assert("stddev_pop"@.len() == 10 && "stddev_samp"@.len() == 11);
    assert("var_pop"@.len() == 7 && "var_samp"@.len() == 8);
    assert("max"@[1] != "min"@[1]);
    assert("max"@[0] != "sum"@[0]);
    assert("max"@[0] != "avg"@[0]);
    assert("min"@[0] != "sum"@[0]);
    assert("min"@[0] != "avg"@[0]);
    assert("sum"@[0] != "avg"@[0]);
}

/// Whether a data type is a number: an integer, a floating point number or a
/// decimal.
pub open spec fn is_numeric(data_type: DataTypeView) -> bool {
    match data_type {
        DataTypeView::Decimal { .. } => true,
        DataTypeView::UInt8
        | DataTypeView::UInt16
        | DataTypeView::UInt32
        | DataTypeView::UInt64
        | DataTypeView::UInt128
        | DataTypeView::UInt256
        | DataTypeView::Int8
        | DataTypeView::Int16
        | DataTypeView::Int32
        | DataTypeView::Int64
        | DataTypeView::Int128
        | DataTypeView::Int256
        | DataTypeView::Float32
        | DataTypeView::Float64 => true,
        _ => false,
    }
}

/// Whether a data type is a point in time.
pub open spec fn is_temporal(data_type: DataTypeView) -> bool {
    match data_type {
        DataTypeView::Date
        | DataTypeView::Date32
        | DataTypeView::DateTime
        | DataTypeView::DateTime64 { .. } => true,
        _ => false,
    }
}

/// The precision of a sum of decimals of a precision: that of the widest
/// decimal of 128 bits, or of 256 bits where the values need them.
pub open spec fn sum_precision(precision: nat) -> nat {
    if precision <= 38 {
        38
    } else {
        76
    }
}

/// The type of a sum over a numeric type: integers of up to 64 bits widen to
/// 64 bits of the same signedness, wider integers keep their width, floating
/// point numbers sum to `Float64`, and decimals keep their scale and widen to
/// the precision that [`sum_precision`] gives. Nothing else is summed.
pub open spec fn sum_type(data_type: DataTypeView) -> Option<DataTypeView> {
    match data_type {
        DataTypeView::Decimal { precision, scale } => Some(
            DataTypeView::Decimal { precision: sum_precision(precision), scale },
        ),
        DataTypeView::UInt8
        | DataTypeView::UInt16
        | DataTypeView::UInt32
        | DataTypeView::UInt64 => Some(DataTypeView::UInt64),
        DataTypeView::UInt128 => Some(DataTypeView::UInt128),
        DataTypeView::UInt256 => Some(DataTypeView::UInt256),
        DataTypeView::Int8
        | DataTypeView::Int16
        | DataTypeView::Int32
        | DataTypeView::Int64 => Some(DataTypeView::Int64),
        DataTypeView::Int128 => Some(DataTypeView::Int128),
        DataTypeView::Int256 => Some(DataTypeView::Int256),
        DataTypeView::Float32 | DataTypeView::Float64 => Some(DataTypeView::Float64),
        _ => None,
    }
}

/// The type that an aggregate function returns over a scalar type, if the
/// function is defined for it. The least and the greatest of numbers and of
/// points in time have the type of the values; a sum has the type that
/// [`sum_type`] gives; the average, the deviations and the variances of
/// numbers are `Float64`.
pub open spec fn scalar_aggregate(
    data_type: DataTypeView,
    function: AggregateFunction,
) -> Option<DataTypeView> {
    match function {
        AggregateFunction::Max | AggregateFunction::Min => if is_numeric(data_type)
            || is_temporal(data_type) {
            Some(data_type)
        } else {
            None
        },
        AggregateFunction::Sum => sum_type(data_type),
        _ => if is_numeric(data_type) {
            Some(DataTypeView::Float64)
        } else {
            None
        },
    }
}

impl TypeDefinitionView {
    /// The type that an aggregate function returns over a column of this
    /// definition, if the function is defined for it: what it returns over the
    /// scalar below any nullability. No function is defined for arrays and
    /// objects.
    pub open spec fn aggregate_result(self, function: AggregateFunction) -> Option<DataTypeView>
        decreases self,
    {
        match self {
            TypeDefinitionView::Scalar(t) => scalar_aggregate(t, function),
            TypeDefinitionView::Nullable { inner } => inner.aggregate_result(function),
            _ => None,
        }
    }
}

/// The value of a data type that may be missing.
pub open spec fn optional_view(data_type: Option<DataType>) -> Option<DataTypeView> {
    match data_type {
        Some(t) => Some(t@),
        None => None,
    }
}

fn is_numeric_type(data_type: &DataType) -> (numeric: bool)
    ensures
        numeric == is_numeric(data_type@),
{
    match data_type {
        DataType::Decimal { .. } => true,
        DataType::UInt8
        | DataType::UInt16
        | DataType::UInt32
        | DataType::UInt64
        | DataType::UInt128
        | DataType::UInt256
        | DataType::Int8
        | DataType::Int16
        | DataType::Int32
        | DataType::Int64
        | DataType::Int128
        | DataType::Int256
        | DataType::Float32
        | DataType::Float64 => true,
        _ => false,
    }
}

fn is_temporal_type(data_type: &DataType) -> (temporal: bool)
    ensures
        temporal == is_temporal(data_type@),
{
    match data_type {
        DataType::Date | DataType::Date32 | DataType::DateTime | DataType::DateTime64 { .. } => true,
        _ => false,
    }
}

fn sum_result_type(data_type: &DataType) -> (sum: Option<DataType>)
    ensures
        optional_view(sum) == sum_type(data_type@),
{
    match data_type {
        DataType::Decimal { precision, scale } => {
            let precision: u32 = if *precision <= 38 {
                38
            } else {
                76
            };
            Some(DataType::Decimal { precision, scale: *scale })
        },
        DataType::UInt8 | DataType::UInt16 | DataType::UInt32 | DataType::UInt64 => Some(
            DataType::UInt64,
        ),
        DataType::UInt128 => Some(DataType::UInt128),
        DataType::UInt256 => Some(DataType::UInt256),
        DataType::Int8 | DataType::Int16 | DataType::Int32 | DataType::Int64 => Some(
            DataType::Int64,
        ),
        DataType::Int128 => Some(DataType::Int128),
        DataType::Int256 => Some(DataType::Int256),
        DataType::Float32 | DataType::Float64 => Some(DataType::Float64),
        _ => None,
    }
}

/// The type that an aggregate function returns over a scalar type, if the
/// function is defined for it.
pub fn scalar_aggregate_type(data_type: &DataType, function: AggregateFunction) -> (result:
    Option<DataType>)
    ensures
        optional_view(result) == scalar_aggregate(data_type@, function),
{
    match function {
        AggregateFunction::Max | AggregateFunction::Min => {
            if is_numeric_type(data_type) || is_temporal_type(data_type) {
                Some(data_type.duplicate())
            } else {
                None
            }
        },
        AggregateFunction::Sum => sum_result_type(data_type),
        _ => {
            if is_numeric_type(data_type) {
                Some(DataType::Float64)
            } else {
                None
            }
        },
    }
}

impl TypeDefinition {
    /// The type that an aggregate function returns over a column of this
    /// definition, if the function is defined for it.
    pub fn aggregate_result_type(&self, function: AggregateFunction) -> (result: Option<DataType>)
        ensures
            optional_view(result) == self@.aggregate_result(function),
        decreases self,
    {
        match self {
            TypeDefinition::Scalar(t) => scalar_aggregate_type(t, function),
            TypeDefinition::Nullable { inner } => inner.aggregate_result_type(function),
            _ => None,
        }
    }
}

} // verus!
