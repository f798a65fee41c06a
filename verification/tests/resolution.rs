use expr_schema::expr::{Expr, FunctionDef};
use expr_schema::resolve::ResolveError;
use expr_schema::schemable::ExprSchemable;
use expr_schema::schema::{Column, DFField, DFSchema};
use expr_schema::types::{DataType, Operator, ScalarValue};

fn field(name: &str, data_type: DataType, nullable: bool) -> DFField {
    DFField { qualifier: None, name: name.to_string(), data_type, nullable }
}

fn test_schema() -> DFSchema {
    DFSchema {
        fields: vec![
            field("a", DataType::Int64, false),
            field("b", DataType::Int64, true),
            field("s", DataType::Utf8, false),
            field("flag", DataType::Boolean, false),
            field("l", DataType::List(Box::new(DataType::Int64)), false),
        ],
    }
}

fn col(name: &str) -> Expr {
    Expr::Column(Column { relation: None, name: name.to_string() })
}

fn lit_i64(v: i64) -> Expr {
    Expr::Literal(ScalarValue::Int64(Some(v)))
}

#[test]
fn column_type_and_nullability() {
    let schema = test_schema();
    let e = col("a");
    assert_eq!(e.get_type(&schema), Ok(DataType::Int64));
    assert_eq!(e.nullable(&schema), Ok(false));
}

#[test]
fn qualified_column_lookup() {
    let schema = DFSchema {
        fields: vec![DFField {
            qualifier: Some("t1".to_string()),
            name: "a".to_string(),
            data_type: DataType::Utf8,
            nullable: true,
        }],
    };
    let e = Expr::Column(Column { relation: Some("t1".to_string()), name: "a".to_string() });
    assert_eq!(e.get_type(&schema), Ok(DataType::Utf8));
    assert_eq!(e.nullable(&schema), Ok(true));
    let wrong = Expr::Column(Column { relation: Some("t2".to_string()), name: "a".to_string() });
    assert_eq!(
        wrong.get_type(&schema),
        Err(ResolveError::ColumnNotFound {
            relation: Some("t2".to_string()),
            name: "a".to_string()
        })
    );
}

#[test]
fn missing_column_fails() {
    let schema = test_schema();
    let e = col("missing");
    assert_eq!(
        e.get_type(&schema),
        Err(ResolveError::ColumnNotFound { relation: None, name: "missing".to_string() })
    );
    assert_eq!(
        e.nullable(&schema),
        Err(ResolveError::ColumnNotFound { relation: None, name: "missing".to_string() })
    );
}

#[test]
fn null_literal_keeps_its_type() {
    let schema = test_schema();
    let e = Expr::Literal(ScalarValue::Utf8(None));
    assert_eq!(e.get_type(&schema), Ok(DataType::Utf8));
    assert_eq!(e.nullable(&schema), Ok(true));
}

#[test]
fn non_null_literal_not_nullable() {
    let schema = test_schema();
    let e = lit_i64(1);
    assert_eq!(e.get_type(&schema), Ok(DataType::Int64));
    assert_eq!(e.nullable(&schema), Ok(false));
}

#[test]
fn binary_plus_column_literal() {
    let schema = test_schema();
    let e = Expr::BinaryExpr {
        left: Box::new(col("a")),
        op: Operator::Plus,
        right: Box::new(lit_i64(1)),
    };
    assert_eq!(e.get_type(&schema), Ok(DataType::Int64));
    assert_eq!(e.nullable(&schema), Ok(false));
}

#[test]
fn binary_nullable_infectious() {
    let schema = test_schema();
    let e = Expr::BinaryExpr {
        left: Box::new(col("a")),
        op: Operator::Plus,
        right: Box::new(col("b")),
    };
    assert_eq!(e.nullable(&schema), Ok(true));
    let swapped = Expr::BinaryExpr {
        left: Box::new(col("b")),
        op: Operator::Plus,
        right: Box::new(col("a")),
    };
    assert_eq!(swapped.nullable(&schema), Ok(true));
    let neither = Expr::BinaryExpr {
        left: Box::new(col("a")),
        op: Operator::Plus,
        right: Box::new(col("a")),
    };
    assert_eq!(neither.nullable(&schema), Ok(false));
}

#[test]
fn binary_coercion_widens() {
    let schema = test_schema();
    let e = Expr::BinaryExpr {
        left: Box::new(Expr::Literal(ScalarValue::Int32(Some(7)))),
        op: Operator::Plus,
        right: Box::new(lit_i64(1)),
    };
    assert_eq!(e.get_type(&schema), Ok(DataType::Int64));
}

#[test]
fn comparison_yields_boolean() {
    let schema = test_schema();
    let e = Expr::BinaryExpr {
        left: Box::new(col("a")),
        op: Operator::Eq,
        right: Box::new(lit_i64(3)),
    };
    assert_eq!(e.get_type(&schema), Ok(DataType::Boolean));
}

#[test]
fn incompatible_operands_fail() {
    let schema = test_schema();
    let e = Expr::BinaryExpr {
        left: Box::new(col("s")),
        op: Operator::Plus,
        right: Box::new(col("flag")),
    };
    assert_eq!(
        e.get_type(&schema),
        Err(ResolveError::TypeIncompatible {
            left: DataType::Utf8,
            op: Operator::Plus,
            right: DataType::Boolean
        })
    );
}

#[test]
fn wildcard_fails_regardless_of_schema() {
    let schema = test_schema();
    let empty = DFSchema { fields: vec![] };
    assert_eq!(
        Expr::Wildcard.get_type(&schema),
        Err(ResolveError::InvalidWildcard { qualified: false })
    );
    assert_eq!(
        Expr::Wildcard.get_type(&empty),
        Err(ResolveError::InvalidWildcard { qualified: false })
    );
    assert_eq!(
        Expr::Wildcard.nullable(&schema),
        Err(ResolveError::InvalidWildcard { qualified: false })
    );
    let q = Expr::QualifiedWildcard { qualifier: "t1".to_string() };
    assert_eq!(q.get_type(&schema), Err(ResolveError::InvalidWildcard { qualified: true }));
    assert_eq!(q.nullable(&schema), Err(ResolveError::InvalidWildcard { qualified: true }));
}

#[test]
fn resolution_is_deterministic() {
    let schema = test_schema();
    let e = Expr::BinaryExpr {
        left: Box::new(col("a")),
        op: Operator::Plus,
        right: Box::new(col("b")),
    };
    assert_eq!(e.get_type(&schema), e.get_type(&schema));
    assert_eq!(e.nullable(&schema), e.nullable(&schema));
}

#[test]
fn passthrough_variants_forward() {
    let schema = test_schema();
    let alias = Expr::Alias(Box::new(col("b")), "renamed".to_string());
    assert_eq!(alias.get_type(&schema), Ok(DataType::Int64));
    assert_eq!(alias.nullable(&schema), Ok(true));
    let neg = Expr::Negative(Box::new(col("a")));
    assert_eq!(neg.get_type(&schema), Ok(DataType::Int64));
    assert_eq!(neg.nullable(&schema), Ok(false));
    let sort = Expr::Sort { expr: Box::new(col("b")), asc: true, nulls_first: false };
    assert_eq!(sort.get_type(&schema), Ok(DataType::Int64));
    assert_eq!(sort.nullable(&schema), Ok(true));
}

#[test]
fn boolean_producers() {
    let schema = test_schema();
    let not = Expr::Not(Box::new(col("flag")));
    assert_eq!(not.get_type(&schema), Ok(DataType::Boolean));
    assert_eq!(not.nullable(&schema), Ok(false));
    let isnull = Expr::IsNull(Box::new(col("b")));
    assert_eq!(isnull.get_type(&schema), Ok(DataType::Boolean));
    assert_eq!(isnull.nullable(&schema), Ok(false));
    let isnotnull = Expr::IsNotNull(Box::new(col("b")));
    assert_eq!(isnotnull.get_type(&schema), Ok(DataType::Boolean));
    assert_eq!(isnotnull.nullable(&schema), Ok(false));
    let between = Expr::Between {
        expr: Box::new(col("b")),
        negated: false,
        low: Box::new(lit_i64(0)),
        high: Box::new(lit_i64(9)),
    };
    assert_eq!(between.get_type(&schema), Ok(DataType::Boolean));
    assert_eq!(between.nullable(&schema), Ok(true));
    let inlist = Expr::InList {
        expr: Box::new(col("a")),
        list: vec![lit_i64(1), lit_i64(2)],
        negated: false,
    };
    assert_eq!(inlist.get_type(&schema), Ok(DataType::Boolean));
    assert_eq!(inlist.nullable(&schema), Ok(false));
}

#[test]
fn case_type_from_first_then() {
    let schema = test_schema();
    let e = Expr::Case {
        expr: None,
        when_then_expr: vec![(Box::new(col("flag")), Box::new(col("a")))],
        else_expr: Some(Box::new(lit_i64(0))),
    };
    assert_eq!(e.get_type(&schema), Ok(DataType::Int64));
    assert_eq!(e.nullable(&schema), Ok(false));
}

#[test]
fn case_without_else_is_nullable() {
    let schema = test_schema();
    let e = Expr::Case {
        expr: None,
        when_then_expr: vec![(Box::new(col("flag")), Box::new(col("a")))],
        else_expr: None,
    };
    assert_eq!(e.nullable(&schema), Ok(true));
}

#[test]
fn case_nullable_branch_infects() {
    let schema = test_schema();
    let e = Expr::Case {
        expr: None,
        when_then_expr: vec![
            (Box::new(col("flag")), Box::new(col("a"))),
            (Box::new(col("flag")), Box::new(col("b"))),
        ],
        else_expr: Some(Box::new(lit_i64(0))),
    };
    assert_eq!(e.nullable(&schema), Ok(true));
}

#[test]
fn case_with_no_branch_fails() {
    let schema = test_schema();
    let e = Expr::Case { expr: None, when_then_expr: vec![], else_expr: None };
    assert_eq!(e.get_type(&schema), Err(ResolveError::EmptyCase));
    assert_eq!(e.nullable(&schema), Err(ResolveError::EmptyCase));
}

#[test]
fn cast_variants() {
    let schema = test_schema();
    let cast = Expr::Cast { expr: Box::new(col("a")), data_type: DataType::Utf8 };
    assert_eq!(cast.get_type(&schema), Ok(DataType::Utf8));
    assert_eq!(cast.nullable(&schema), Ok(false));
    let trycast = Expr::TryCast { expr: Box::new(col("a")), data_type: DataType::Utf8 };
    assert_eq!(trycast.get_type(&schema), Ok(DataType::Utf8));
    assert_eq!(trycast.nullable(&schema), Ok(true));
}

#[test]
fn scalar_variable_declared_type() {
    let schema = test_schema();
    let e = Expr::ScalarVariable(DataType::Utf8, vec!["@".to_string(), "v".to_string()]);
    assert_eq!(e.get_type(&schema), Ok(DataType::Utf8));
    assert_eq!(e.nullable(&schema), Ok(true));
}

#[test]
fn function_calls_use_declared_return_type() {
    let schema = test_schema();
    let e = Expr::ScalarUDF {
        fun: FunctionDef { name: "my_fn".to_string(), return_type: DataType::Utf8 },
        args: vec![col("a")],
    };
    assert_eq!(e.get_type(&schema), Ok(DataType::Utf8));
    assert_eq!(e.nullable(&schema), Ok(true));
    let agg = Expr::AggregateFunction {
        fun: FunctionDef { name: "max".to_string(), return_type: DataType::Int64 },
        args: vec![col("a")],
        distinct: false,
    };
    assert_eq!(agg.get_type(&schema), Ok(DataType::Int64));
    assert_eq!(agg.nullable(&schema), Ok(true));
}

#[test]
fn function_argument_failure_propagates() {
    let schema = test_schema();
    let e = Expr::ScalarFunction {
        fun: FunctionDef { name: "f".to_string(), return_type: DataType::Int64 },
        args: vec![col("a"), col("missing")],
    };
    assert_eq!(
        e.get_type(&schema),
        Err(ResolveError::ColumnNotFound { relation: None, name: "missing".to_string() })
    );
}

#[test]
fn indexed_access_into_list() {
    let schema = test_schema();
    let e = Expr::GetIndexedField {
        expr: Box::new(col("l")),
        key: ScalarValue::Int64(Some(0)),
    };
    assert_eq!(e.get_type(&schema), Ok(DataType::Int64));
    assert_eq!(e.nullable(&schema), Ok(true));
}

#[test]
fn indexed_access_rejects_bad_base_or_key() {
    let schema = test_schema();
    let bad_base = Expr::GetIndexedField {
        expr: Box::new(col("a")),
        key: ScalarValue::Int64(Some(0)),
    };
    assert_eq!(
        bad_base.get_type(&schema),
        Err(ResolveError::InvalidIndexedAccess { base: DataType::Int64 })
    );
    let bad_key = Expr::GetIndexedField {
        expr: Box::new(col("l")),
        key: ScalarValue::Utf8(Some("x".to_string())),
    };
    assert_eq!(
        bad_key.get_type(&schema),
        Err(ResolveError::InvalidIndexedAccess {
            base: DataType::List(Box::new(DataType::Int64))
        })
    );
}

#[test]
fn first_match_wins_in_lookup() {
    let schema = DFSchema {
        fields: vec![
            DFField {
                qualifier: Some("t1".to_string()),
                name: "a".to_string(),
                data_type: DataType::Int64,
                nullable: false,
            },
            DFField {
                qualifier: Some("t2".to_string()),
                name: "a".to_string(),
                data_type: DataType::Utf8,
                nullable: true,
            },
        ],
    };
    assert_eq!(col("a").get_type(&schema), Ok(DataType::Int64));
}

fn type_of<T: ExprSchemable>(v: &T, s: &DFSchema) -> Result<DataType, ResolveError> {
    v.get_type(s)
}

#[test]
fn resolution_through_the_trait() {
    let schema = test_schema();
    assert_eq!(type_of(&col("a"), &schema), Ok(DataType::Int64));
    let wrapped = ExprSchemable::cast_to(col("a"), &DataType::Utf8, &schema).unwrap();
    assert_eq!(wrapped, Expr::Cast { expr: Box::new(col("a")), data_type: DataType::Utf8 });
}
