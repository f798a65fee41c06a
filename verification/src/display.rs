//! The canonical textual rendering of an expression: the deterministic name a
//! non-column expression projects into an output schema. The rendering is a
//! pure function of the expression tree; two structurally equal expressions
//! always render to the same text.

use vstd::prelude::*;
use crate::expr::Expr;
use vstd::string::StringExecFns;
use crate::types::{DataType, Operator, ScalarValue};

verus! {

pub open spec fn spec_digit(d: int) -> char {
    if d == 0 {
        '0'
    } else if d == 1 {
        '1'
    } else if d == 2 {
        '2'
    } else if d == 3 {
        '3'
    } else if d == 4 {
        '4'
    } else if d == 5 {
        '5'
    } else if d == 6 {
        '6'
    } else if d == 7 {
        '7'
    } else if d == 8 {
        '8'
    } else {
        '9'
    }
}

/// The decimal digits of a non-negative number, most significant first.
pub open spec fn spec_nat_digits(n: int) -> Seq<char>
    decreases n,
{
    if n < 10 {
        seq![spec_digit(n)]
    } else {
        spec_nat_digits(n / 10).push(spec_digit(n % 10))
    }
}

/// The decimal rendering of an integer, with a leading minus sign when it is
/// negative.
pub open spec fn spec_int_digits(v: int) -> Seq<char> {
    if v < 0 {
        seq!['-'] + spec_nat_digits(-v)
    } else {
        spec_nat_digits(v)
    }
}

fn digit_str(d: u64) -> (r: &'static str)
    requires
        d < 10,
    ensures
        r@ =~= seq![spec_digit(d as int)],
{
    proof {
        reveal_strlit("0");
        reveal_strlit("1");
        reveal_strlit("2");
        reveal_strlit("3");
        reveal_strlit("4");
        reveal_strlit("5");
        reveal_strlit("6");
        reveal_strlit("7");
        reveal_strlit("8");
        reveal_strlit("9");
    }
    match d {
        0 => "0",
        1 => "1",
        2 => "2",
        3 => "3",
        4 => "4",
        5 => "5",
        6 => "6",
        7 => "7",
        8 => "8",
        _ => "9",
    }
}

fn u64_digits(n: u64) -> (r: String)
    ensures
        r@ == spec_nat_digits(n as int),
    decreases n,
{
    if n < 10 {
        let r = String::from_str(digit_str(n));
        assert(r@ =~= spec_nat_digits(n as int));
        r
    } else {
        let mut s = u64_digits(n / 10);
        s.append(digit_str(n % 10));
        assert(s@ =~= spec_nat_digits(n as int));
        s
    }
}

fn i64_digits(v: i64) -> (r: String)
    ensures
        r@ == spec_int_digits(v as int),
{
    if v >= 0 {
        u64_digits(v as u64)
    } else {
        // The magnitude of `v` computed without overflowing: `v + 1` is a
        // valid i64 for every negative `v`, i64::MIN included.
        let magnitude: u64 = ((-(v + 1)) as u64) + 1;
        let mut s = String::from_str("-");
        s.append(u64_digits(magnitude).as_str());
        proof {
            reveal_strlit("-");
        }
        assert(s@ =~= spec_int_digits(v as int));
        s
    }
}

/// The rendering of a type, as it appears inside a cast.
pub open spec fn spec_display_type(t: DataType) -> Seq<char>
    decreases t,
{
    match t {
        DataType::Boolean => "Boolean"@,
        DataType::Int32 => "Int32"@,
        DataType::Int64 => "Int64"@,
        DataType::UInt64 => "UInt64"@,
        DataType::Utf8 => "Utf8"@,
        DataType::Date32 => "Date32"@,
        DataType::IntervalDayTime => "IntervalDayTime"@,
        DataType::List(elem) => "List("@ + spec_display_type(*elem) + ")"@,
    }
}

/// The rendering of a scalar value, with its type named and `NULL` for the
/// null value of a type.
pub open spec fn spec_display_scalar(v: ScalarValue) -> Seq<char> {
    match v {
        ScalarValue::Boolean(b) => match b {
            Some(x) => if x {
                "Boolean(true)"@
            } else {
                "Boolean(false)"@
            },
            None => "Boolean(NULL)"@,
        },
        ScalarValue::Int32(i) => match i {
            Some(x) => "Int32("@ + spec_int_digits(x as int) + ")"@,
            None => "Int32(NULL)"@,
        },
        ScalarValue::Int64(i) => match i {
            Some(x) => "Int64("@ + spec_int_digits(x as int) + ")"@,
            None => "Int64(NULL)"@,
        },
        ScalarValue::Utf8(s) => match s {
            Some(x) => "Utf8("@ + x@ + ")"@,
            None => "Utf8(NULL)"@,
        },
    }
}

/// The rendering of a binary operator.
pub open spec fn spec_display_op(op: Operator) -> Seq<char> {
    match op {
        Operator::Eq => "="@,
        Operator::NotEq => "!="@,
        Operator::Lt => "<"@,
        Operator::LtEq => "<="@,
        Operator::Gt => ">"@,
        Operator::GtEq => ">="@,
        Operator::Plus => "+"@,
        Operator::Minus => "-"@,
        Operator::Multiply => "*"@,
        Operator::Divide => "/"@,
        Operator::Modulo => "%"@,
        Operator::And => "AND"@,
        Operator::Or => "OR"@,
    }
}

/// The canonical rendering of an expression. A column renders as its
/// (possibly qualified) name, an alias as the alias name, and every other
/// variant spells out its children; a sort key renders as the expression it
/// sorts.
pub open spec fn spec_display(e: Expr) -> Seq<char>
    decreases e,
{
    match e {
        Expr::Alias(_, name) => name@,
        Expr::Column(c) => match c.relation {
            Some(q) => q@ + "."@ + c.name@,
            None => c.name@,
        },
        Expr::ScalarVariable(_, names) => spec_display_names(names@),
        Expr::Literal(v) => spec_display_scalar(v),
        Expr::BinaryExpr { left, op, right } => spec_display(*left) + " "@ + spec_display_op(op)
            + " "@ + spec_display(*right),
        Expr::Not(sub) => "NOT "@ + spec_display(*sub),
        Expr::IsNotNull(sub) => spec_display(*sub) + " IS NOT NULL"@,
        Expr::IsNull(sub) => spec_display(*sub) + " IS NULL"@,
        Expr::Negative(sub) => "(- "@ + spec_display(*sub) + ")"@,
        Expr::GetIndexedField { expr, key } => "("@ + spec_display(*expr) + ")["@
            + spec_display_scalar(key) + "]"@,
        Expr::Between { expr, negated, low, high } => spec_display(*expr) + (if negated {
            " NOT BETWEEN "@
        } else {
            " BETWEEN "@
        }) + spec_display(*low) + " AND "@ + spec_display(*high),
        Expr::Case { expr, when_then_expr, else_expr } => "CASE"@ + (match expr {
            Some(p) => " "@ + spec_display(*p),
            None => Seq::empty(),
        }) + spec_display_whens(when_then_expr@) + (match else_expr {
            Some(el) => " ELSE "@ + spec_display(*el),
            None => Seq::empty(),
        }) + " END"@,
        Expr::Cast { expr, data_type } => "CAST("@ + spec_display(*expr) + " AS "@
            + spec_display_type(data_type) + ")"@,
        Expr::TryCast { expr, data_type } => "TRY_CAST("@ + spec_display(*expr) + " AS "@
            + spec_display_type(data_type) + ")"@,
        Expr::Sort { expr, .. } => spec_display(*expr),
        Expr::ScalarFunction { fun, args } => fun.name@ + "("@ + spec_display_args(args@) + ")"@,
        Expr::ScalarUDF { fun, args } => fun.name@ + "("@ + spec_display_args(args@) + ")"@,
        Expr::AggregateFunction { fun, args, distinct } => fun.name@ + "("@ + (if distinct {
            "DISTINCT "@
        } else {
            Seq::empty()
        }) + spec_display_args(args@) + ")"@,
        Expr::WindowFunction { fun, args, .. } => fun.name@ + "("@ + spec_display_args(args@)
            + ")"@,
        Expr::AggregateUDF { fun, args } => fun.name@ + "("@ + spec_display_args(args@) + ")"@,
        Expr::InList { expr, list, negated } => spec_display(*expr) + (if negated {
            " NOT IN ("@
        } else {
            " IN ("@
        }) + spec_display_args(list@) + ")"@,
        Expr::Wildcard => "*"@,
        Expr::QualifiedWildcard { qualifier } => qualifier@ + ".*"@,
    }
}

/// The renderings of a call's arguments, joined by commas.
pub open spec fn spec_display_args(args: Seq<Expr>) -> Seq<char>
    decreases args,
{
    if args.len() == 0 {
        Seq::empty()
    } else if args.len() == 1 {
        spec_display(args[0])
    } else {
        spec_display(args[0]) + ", "@ + spec_display_args(args.drop_first())
    }
}

/// The renderings of the `(when, then)` branches of a case expression.
pub open spec fn spec_display_whens(wt: Seq<(Box<Expr>, Box<Expr>)>) -> Seq<char>
    decreases wt,
{
    if wt.len() == 0 {
        Seq::empty()
    } else {
        " WHEN "@ + spec_display(*wt[0].0) + " THEN "@ + spec_display(*wt[0].1)
            + spec_display_whens(wt.drop_first())
    }
}

/// The parts of a scalar variable's dotted path, joined by dots.
pub open spec fn spec_display_names(names: Seq<String>) -> Seq<char>
    decreases names,
{
    if names.len() == 0 {
        Seq::empty()
    } else if names.len() == 1 {
        names[0]@
    } else {
        names[0]@ + "."@ + spec_display_names(names.drop_first())
    }
}

fn display_type(t: &DataType) -> (r: String)
    ensures
        r@ == spec_display_type(*t),
    decreases t,
{
    match t {
        DataType::Boolean => String::from_str("Boolean"),
        DataType::Int32 => String::from_str("Int32"),
        DataType::Int64 => String::from_str("Int64"),
        DataType::UInt64 => String::from_str("UInt64"),
        DataType::Utf8 => String::from_str("Utf8"),
        DataType::Date32 => String::from_str("Date32"),
        DataType::IntervalDayTime => String::from_str("IntervalDayTime"),
        DataType::List(elem) => {
            let mut s = String::from_str("List(");
            s.append(display_type(elem).as_str());
            s.append(")");
            assert(s@ =~= spec_display_type(*t));
            s
        },
    }
}

fn display_scalar(v: &ScalarValue) -> (r: String)
    ensures
        r@ == spec_display_scalar(*v),
{
    match v {
        ScalarValue::Boolean(b) => match b {
            Some(x) => if *x {
                String::from_str("Boolean(true)")
            } else {
                String::from_str("Boolean(false)")
            },
            None => String::from_str("Boolean(NULL)"),
        },
        ScalarValue::Int32(i) => match i {
            Some(x) => {
                let mut s = String::from_str("Int32(");
                s.append(i64_digits(*x as i64).as_str());
                s.append(")");
                assert(s@ =~= spec_display_scalar(*v));
                s
            },
            None => String::from_str("Int32(NULL)"),
        },
        ScalarValue::Int64(i) => match i {
            Some(x) => {
                let mut s = String::from_str("Int64(");
                s.append(i64_digits(*x).as_str());
                s.append(")");
                assert(s@ =~= spec_display_scalar(*v));
                s
            },
            None => String::from_str("Int64(NULL)"),
        },
        ScalarValue::Utf8(o) => match o {
            Some(x) => {
                let mut s = String::from_str("Utf8(");
                s.append(x.as_str());
                s.append(")");
                assert(s@ =~= spec_display_scalar(*v));
                s
            },
            None => String::from_str("Utf8(NULL)"),
        },
    }
}

fn display_op(op: &Operator) -> (r: &'static str)
    ensures
        r@ == spec_display_op(*op),
{
    match op {
        Operator::Eq => "=",
        Operator::NotEq => "!=",
        Operator::Lt => "<",
        Operator::LtEq => "<=",
        Operator::Gt => ">",
        Operator::GtEq => ">=",
        Operator::Plus => "+",
        Operator::Minus => "-",
        Operator::Multiply => "*",
        Operator::Divide => "/",
        Operator::Modulo => "%",
        Operator::And => "AND",
        Operator::Or => "OR",
    }
}

fn display_args_from(args: &Vec<Expr>, i: usize) -> (r: String)
    requires
        i <= args@.len(),
    ensures
        r@ == spec_display_args(args@.subrange(i as int, args@.len() as int)),
    decreases args, args@.len() - i,
{
    let ghost suffix = args@.subrange(i as int, args@.len() as int);
    if i == args.len() {
        let r = String::new();
        assert(r@ =~= spec_display_args(suffix));
        r
    } else if i + 1 == args.len() {
        let r = args[i].canonical_name();
        assert(r@ =~= spec_display_args(suffix));
        r
    } else {
        let mut s = args[i].canonical_name();
        s.append(", ");
        assert(suffix.drop_first() =~= args@.subrange(i as int + 1, args@.len() as int));
        s.append(display_args_from(args, i + 1).as_str());
        assert(s@ =~= spec_display_args(suffix));
        s
    }
}

fn display_whens_from(wt: &Vec<(Box<Expr>, Box<Expr>)>, i: usize) -> (r: String)
    requires
        i <= wt@.len(),
    ensures
        r@ == spec_display_whens(wt@.subrange(i as int, wt@.len() as int)),
    decreases wt, wt@.len() - i,
{
    let ghost suffix = wt@.subrange(i as int, wt@.len() as int);
    if i == wt.len() {
        let r = String::new();
        assert(r@ =~= spec_display_whens(suffix));
        r
    } else {
        let mut s = String::from_str(" WHEN ");
        s.append(wt[i].0.canonical_name().as_str());
        s.append(" THEN ");
        s.append(wt[i].1.canonical_name().as_str());
        assert(suffix.drop_first() =~= wt@.subrange(i as int + 1, wt@.len() as int));
        s.append(display_whens_from(wt, i + 1).as_str());
        assert(s@ =~= spec_display_whens(suffix));
        s
    }
}

fn display_names_from(names: &Vec<String>, i: usize) -> (r: String)
    requires
        i <= names@.len(),
    ensures
        r@ == spec_display_names(names@.subrange(i as int, names@.len() as int)),
    decreases names@.len() - i,
{
    let ghost suffix = names@.subrange(i as int, names@.len() as int);
    if i == names.len() {
        let r = String::new();
        assert(r@ =~= spec_display_names(suffix));
        r
    } else if i + 1 == names.len() {
        let r = names[i].clone();
        assert(r@ =~= spec_display_names(suffix));
        r
    } else {
        let mut s = names[i].clone();
        s.append(".");
        assert(suffix.drop_first() =~= names@.subrange(i as int + 1, names@.len() as int));
        s.append(display_names_from(names, i + 1).as_str());
        assert(s@ =~= spec_display_names(suffix));
        s
    }
}

impl Expr {
    /// The canonical textual rendering of this expression: the name it
    /// projects under when it is not a column reference or an alias of one.
    pub fn canonical_name(&self) -> (r: String)
        ensures
            r@ == spec_display(*self),
        decreases self, 0int,
    {
        match self {
            Expr::Alias(_, name) => name.clone(),
            Expr::Column(c) => match &c.relation {
                Some(q) => {
                    let mut s = q.clone();
                    s.append(".");
                    s.append(c.name.as_str());
                    assert(s@ =~= spec_display(*self));
                    s
                },
                None => c.name.clone(),
            },
            Expr::ScalarVariable(_, names) => {
                assert(names@.subrange(0, names@.len() as int) =~= names@);
                display_names_from(names, 0)
            },
            Expr::Literal(v) => display_scalar(v),
            Expr::BinaryExpr { left, op, right } => {
                let mut s = left.canonical_name();
                s.append(" ");
                s.append(display_op(op));
                s.append(" ");
                s.append(right.canonical_name().as_str());
                assert(s@ =~= spec_display(*self));
                s
            },
            Expr::Not(sub) => {
                let mut s = String::from_str("NOT ");
                s.append(sub.canonical_name().as_str());
                assert(s@ =~= spec_display(*self));
                s
            },
            Expr::IsNotNull(sub) => {
                let mut s = sub.canonical_name();
                s.append(" IS NOT NULL");
                assert(s@ =~= spec_display(*self));
                s
            },
            Expr::IsNull(sub) => {
                let mut s = sub.canonical_name();
                s.append(" IS NULL");
                assert(s@ =~= spec_display(*self));
                s
            },
            Expr::Negative(sub) => {
                let mut s = String::from_str("(- ");
                s.append(sub.canonical_name().as_str());
                s.append(")");
                assert(s@ =~= spec_display(*self));
                s
            },
            Expr::GetIndexedField { expr, key } => {
                let mut s = String::from_str("(");
                s.append(expr.canonical_name().as_str());
                s.append(")[");
                s.append(display_scalar(key).as_str());
                s.append("]");
                assert(s@ =~= spec_display(*self));
                s
            },
            Expr::Between { expr, negated, low, high } => {
                let mut s = expr.canonical_name();
                if *negated {
                    s.append(" NOT BETWEEN ");
                } else {
                    s.append(" BETWEEN ");
                }
                s.append(low.canonical_name().as_str());
                s.append(" AND ");
                s.append(high.canonical_name().as_str());
                assert(s@ =~= spec_display(*self));
                s
            },
            Expr::Case { expr, when_then_expr, else_expr } => {
                let mut s = String::from_str("CASE");
                match expr {
                    Some(p) => {
                        s.append(" ");
                        s.append(p.canonical_name().as_str());
                    },
                    None => {},
                }
                assert(when_then_expr@.subrange(0, when_then_expr@.len() as int)
                    =~= when_then_expr@);
                s.append(display_whens_from(when_then_expr, 0).as_str());
                match else_expr {
                    Some(el) => {
                        s.append(" ELSE ");
                        s.append(el.canonical_name().as_str());
                    },
                    None => {},
                }
                s.append(" END");
                assert(s@ =~= spec_display(*self));
                s
            },
            Expr::Cast { expr, data_type } => {
                let mut s = String::from_str("CAST(");
                s.append(expr.canonical_name().as_str());
                s.append(" AS ");
                s.append(display_type(data_type).as_str());
                s.append(")");
                assert(s@ =~= spec_display(*self));
                s
            },
            Expr::TryCast { expr, data_type } => {
                let mut s = String::from_str("TRY_CAST(");
                s.append(expr.canonical_name().as_str());
                s.append(" AS ");
                s.append(display_type(data_type).as_str());
                s.append(")");
                assert(s@ =~= spec_display(*self));
                s
            },
            Expr::Sort { expr, .. } => expr.canonical_name(),
            Expr::ScalarFunction { fun, args } => {
                let mut s = fun.name.clone();
                s.append("(");
                assert(args@.subrange(0, args@.len() as int) =~= args@);
                s.append(display_args_from(args, 0).as_str());
                s.append(")");
                assert(s@ =~= spec_display(*self));
                s
            },
            Expr::ScalarUDF { fun, args } => {
                let mut s = fun.name.clone();
                s.append("(");
                assert(args@.subrange(0, args@.len() as int) =~= args@);
                s.append(display_args_from(args, 0).as_str());
                s.append(")");
                assert(s@ =~= spec_display(*self));
                s
            },
            Expr::AggregateFunction { fun, args, distinct } => {
                let mut s = fun.name.clone();
                s.append("(");
                if *distinct {
                    s.append("DISTINCT ");
                }
                assert(args@.subrange(0, args@.len() as int) =~= args@);
                s.append(display_args_from(args, 0).as_str());
                s.append(")");
                assert(s@ =~= spec_display(*self));
                s
            },
            Expr::WindowFunction { fun, args, .. } => {
                let mut s = fun.name.clone();
                s.append("(");
                assert(args@.subrange(0, args@.len() as int) =~= args@);
                s.append(display_args_from(args, 0).as_str());
                s.append(")");
                assert(s@ =~= spec_display(*self));
                s
            },
            Expr::AggregateUDF { fun, args } => {
                let mut s = fun.name.clone();
                s.append("(");
                assert(args@.subrange(0, args@.len() as int) =~= args@);
                s.append(display_args_from(args, 0).as_str());
                s.append(")");
                assert(s@ =~= spec_display(*self));
                s
            },
            Expr::InList { expr, list, negated } => {
                let mut s = expr.canonical_name();
                if *negated {
                    s.append(" NOT IN (");
                } else {
                    s.append(" IN (");
                }
                assert(list@.subrange(0, list@.len() as int) =~= list@);
                s.append(display_args_from(list, 0).as_str());
                s.append(")");
                assert(s@ =~= spec_display(*self));
                s
            },
            Expr::Wildcard => String::from_str("*"),
            Expr::QualifiedWildcard { qualifier } => {
                let mut s = qualifier.clone();
                s.append(".*");
                assert(s@ =~= spec_display(*self));
                s
            },
        }
    }
}

} // verus!
