use expr_schema::expr::{Expr, FunctionDef};
use expr_schema::schema::{Column, DFField, DFSchema};
use expr_schema::types::{DataType, Operator, ScalarValue};

fn test_schema() -> DFSchema {
    DFSchema {
        fields: vec![
            DFField {
                qualifier: Some("t1".to_string()),
                name: "a".to_string(),
                data_type: DataType::Int64,
                nullable: false,
            },
            DFField {
                qualifier: None,
                name: "b".to_string(),
                data_type: DataType::Utf8,
                nullable: true,
            },
        ],
    }
}

fn col(name: &str) -> Expr {
    Expr::Column(Column { relation: None, name: name.to_string() })
}

#[test]
fn column_field_keeps_name_and_qualifier() {
    let schema = test_schema();
    let e = Expr::Column(Column { relation: Some("t1".to_string()), name: "a".to_string() });
    let f = e.to_field(&schema).unwrap();
    assert_eq!(f.qualifier, Some("t1".to_string()));
    assert_eq!(f.name, "a".to_string());
    assert_eq!(f.data_type, DataType::Int64);
    assert!(!f.nullable);
}

#[test]
fn derived_field_is_unqualified_and_rendered() {
    let schema = test_schema();
    let e = Expr::BinaryExpr {
        left: Box::new(col("a")),
        op: Operator::Plus,
        right: Box::new(Expr::Literal(ScalarValue::Int64(Some(1)))),
    };
    let f = e.to_field(&schema).unwrap();
    assert_eq!(f.qualifier, None);
    assert_eq!(f.name, "a + Int64(1)".to_string());
    assert_eq!(f.data_type, DataType::Int64);
    assert!(!f.nullable);
}

#[test]
fn alias_names_the_field() {
    let schema = test_schema();
    let e = Expr::Alias(Box::new(col("b")), "renamed".to_string());
    let f = e.to_field(&schema).unwrap();
    assert_eq!(f.qualifier, None);
    assert_eq!(f.name, "renamed".to_string());
    assert_eq!(f.data_type, DataType::Utf8);
    assert!(f.nullable);
}

#[test]
fn to_field_fails_where_resolution_fails() {
    let schema = test_schema();
    assert!(Expr::Wildcard.to_field(&schema).is_err());
    assert!(col("missing").to_field(&schema).is_err());
}

#[test]
fn canonical_names_render_deterministically() {
    let cases: Vec<(Expr, &str)> = vec![
        (Expr::Literal(ScalarValue::Int64(Some(-42))), "Int64(-42)"),
        (Expr::Literal(ScalarValue::Int64(None)), "Int64(NULL)"),
        (Expr::Literal(ScalarValue::Int32(Some(1070))), "Int32(1070)"),
        (Expr::Literal(ScalarValue::Boolean(Some(true))), "Boolean(true)"),
        (Expr::Literal(ScalarValue::Utf8(Some("hi".to_string()))), "Utf8(hi)"),
        (Expr::Wildcard, "*"),
        (Expr::QualifiedWildcard { qualifier: "t1".to_string() }, "t1.*"),
        (Expr::Not(Box::new(col("flag"))), "NOT flag"),
        (Expr::IsNull(Box::new(col("b"))), "b IS NULL"),
        (
            Expr::Cast { expr: Box::new(col("a")), data_type: DataType::Utf8 },
            "CAST(a AS Utf8)",
        ),
        (
            Expr::Cast {
                expr: Box::new(col("a")),
                data_type: DataType::List(Box::new(DataType::Int64)),
            },
            "CAST(a AS List(Int64))",
        ),
        (
            Expr::Between {
                expr: Box::new(col("a")),
                negated: true,
                low: Box::new(Expr::Literal(ScalarValue::Int64(Some(0)))),
                high: Box::new(Expr::Literal(ScalarValue::Int64(Some(9)))),
            },
            "a NOT BETWEEN Int64(0) AND Int64(9)",
        ),
        (
            Expr::ScalarVariable(
                DataType::Utf8,
                vec!["@v".to_string(), "x".to_string()],
            ),
            "@v.x",
        ),
        (
            Expr::AggregateFunction {
                fun: FunctionDef { name: "count".to_string(), return_type: DataType::Int64 },
                args: vec![col("a"), col("b")],
                distinct: true,
            },
            "count(DISTINCT a, b)",
        ),
        (
            Expr::Case {
                expr: None,
                when_then_expr: vec![(
                    Box::new(col("flag")),
                    Box::new(Expr::Literal(ScalarValue::Int64(Some(1)))),
                )],
                else_expr: Some(Box::new(Expr::Literal(ScalarValue::Int64(Some(0))))),
            },
            "CASE WHEN flag THEN Int64(1) ELSE Int64(0) END",
        ),
        (
            Expr::GetIndexedField {
                expr: Box::new(col("l")),
                key: ScalarValue::Int64(Some(2)),
            },
            "(l)[Int64(2)]",
        ),
    ];
    for (e, expected) in cases {
        assert_eq!(e.canonical_name(), expected.to_string());
        assert_eq!(e.canonical_name(), e.canonical_name());
    }
}

#[test]
fn qualified_column_renders_with_dot() {
    let e = Expr::Column(Column { relation: Some("t1".to_string()), name: "a".to_string() });
    assert_eq!(e.canonical_name(), "t1.a".to_string());
}

#[test]
fn extreme_integer_literals_render() {
    let min = Expr::Literal(ScalarValue::Int64(Some(i64::MIN)));
    assert_eq!(min.canonical_name(), "Int64(-9223372036854775808)".to_string());
    let max = Expr::Literal(ScalarValue::Int64(Some(i64::MAX)));
    assert_eq!(max.canonical_name(), "Int64(9223372036854775807)".to_string());
    let zero = Expr::Literal(ScalarValue::Int32(Some(0)));
    assert_eq!(zero.canonical_name(), "Int32(0)".to_string());
}
