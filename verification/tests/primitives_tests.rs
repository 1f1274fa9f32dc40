use breakout::errors::EvalError;
use breakout::parser::Literal;
use breakout::primitives::{exec_prim_op, get_prim_op_type, go_to_float, Bool, Float, Int, Str};
use breakout::scanner::{Operator, Type};

fn int_lit(v: i64) -> Literal {
    Literal::Integer(Int::new(v))
}

fn float_lit(v: f64) -> Literal {
    Literal::Float(Float::from_bits(v.to_bits()))
}

fn str_lit(s: &str) -> Literal {
    Literal::String(Str::new(s.to_string()))
}

fn bool_lit(b: bool) -> Literal {
    Literal::Bool(Bool::new(b))
}

#[test]
fn int_arithmetic() {
    assert_eq!(Int::add(Int::new(2), Int::new(3)).get(), 5);
    assert_eq!(Int::sub(Int::new(2), Int::new(3)).get(), -1);
    assert_eq!(Int::mul(Int::new(-4), Int::new(3)).get(), -12);
    assert_eq!(Int::div(Int::new(7), Int::new(2)).get(), 3);
    assert_eq!(Int::div(Int::new(-7), Int::new(2)).get(), -3);
    assert_eq!(Int::rem(Int::new(7), Int::new(2)).get(), 1);
    assert_eq!(Int::rem(Int::new(-7), Int::new(2)).get(), -1);
}

#[test]
fn int_arithmetic_wraps() {
    assert_eq!(Int::add(Int::new(i64::MAX), Int::new(1)).get(), i64::MIN);
    assert_eq!(Int::div(Int::new(i64::MIN), Int::new(-1)).get(), i64::MIN);
    assert_eq!(Int::rem(Int::new(i64::MIN), Int::new(-1)).get(), 0);
}

#[test]
fn int_comparisons() {
    assert!(Int::gt(Int::new(3), Int::new(2)).get());
    assert!(Int::lt(Int::new(2), Int::new(3)).get());
    assert!(Int::geq(Int::new(3), Int::new(3)).get());
    assert!(Int::leq(Int::new(3), Int::new(3)).get());
    assert!(Int::eq(Int::new(3), Int::new(3)).get());
    assert!(Int::neq(Int::new(3), Int::new(4)).get());
}

#[test]
fn bool_operations() {
    assert!(Bool::or(Bool::new(false), Bool::new(true)).get());
    assert!(!Bool::and(Bool::new(false), Bool::new(true)).get());
    assert!(Bool::not(Bool::new(false)).get());
    assert!(Bool::nand(Bool::new(true), Bool::new(false)).get());
    assert!(!Bool::nand(Bool::new(true), Bool::new(true)).get());
    assert!(Bool::eq(Bool::new(true), Bool::new(true)).get());
    assert!(Bool::neq(Bool::new(true), Bool::new(false)).get());
}

#[test]
fn str_operations() {
    let c = Str::concat(Str::new("ab".to_string()), Str::new("cd".to_string()));
    assert_eq!(c.get(), "abcd");
    assert!(Str::eq(Str::new("x".to_string()), Str::new("x".to_string())).get());
    assert!(Str::neq(Str::new("x".to_string()), Str::new("y".to_string())).get());
}

#[test]
fn concat_with_empty_strings() {
    assert_eq!(
        exec_prim_op(Operator::Concat, str_lit(""), str_lit("x")),
        Ok(str_lit("x"))
    );
    assert_eq!(
        exec_prim_op(Operator::Concat, str_lit(""), str_lit("")),
        Ok(str_lit(""))
    );
}

#[test]
fn float_arithmetic_matches_ieee() {
    let a = Float::from_bits(1.5f64.to_bits());
    let b = Float::from_bits(2.25f64.to_bits());
    assert_eq!(Float::add(a, b).bits(), 3.75f64.to_bits());
    assert_eq!(Float::sub(a, b).bits(), (-0.75f64).to_bits());
    assert_eq!(Float::mul(a, b).bits(), 3.375f64.to_bits());
    assert_eq!(Float::div(Float::from_bits(7.0f64.to_bits()), Float::from_bits(2.0f64.to_bits()))
        .bits(), 3.5f64.to_bits());
}

#[test]
fn float_conversions() {
    assert_eq!(Float::from_int(3).bits(), 3.0f64.to_bits());
    assert_eq!(Float::from_int(-2).bits(), (-2.0f64).to_bits());
    assert_eq!(Int::from_float(Float::from_bits(3.7f64.to_bits())).get(), 3);
    assert_eq!(Int::from_float(Float::from_bits((-3.7f64).to_bits())).get(), -3);
    assert_eq!(Int::from_float(Float::from_bits(f64::NAN.to_bits())).get(), 0);
}

#[test]
fn float_comparisons() {
    let a = Float::from_bits(1.5f64.to_bits());
    let b = Float::from_bits(2.5f64.to_bits());
    let nan = Float::from_bits(f64::NAN.to_bits());
    assert!(Float::lt(a, b).get());
    assert!(Float::gt(b, a).get());
    assert!(Float::leq(a, a).get());
    assert!(Float::geq(b, b).get());
    assert!(Float::eq(a, a).get());
    assert!(Float::neq(a, b).get());
    assert!(!Float::eq(nan, nan).get());
    assert!(Float::neq(nan, nan).get());
    assert!(!Float::lt(nan, a).get());
    assert!(!Float::geq(nan, a).get());
}

#[test]
fn negative_zero_equals_zero() {
    let pz = Float::from_bits(0.0f64.to_bits());
    let nz = Float::from_bits((-0.0f64).to_bits());
    assert!(Float::eq(pz, nz).get());
}

#[test]
fn promoted_types() {
    assert_eq!(go_to_float(Type::Int, Type::Float), Type::Float);
    assert_eq!(go_to_float(Type::Float, Type::Int), Type::Float);
    assert_eq!(go_to_float(Type::Int, Type::Int), Type::Int);
}

#[test]
fn operator_result_types() {
    assert_eq!(get_prim_op_type(Operator::Eq, Type::Int, Type::Int), Type::Bool);
    assert_eq!(get_prim_op_type(Operator::Plus, Type::Int, Type::Float), Type::Float);
    assert_eq!(get_prim_op_type(Operator::Mod, Type::Int, Type::Int), Type::Int);
    assert_eq!(get_prim_op_type(Operator::Concat, Type::Str, Type::Str), Type::Str);
    assert_eq!(get_prim_op_type(Operator::Floor, Type::Float, Type::NoType), Type::Int);
    assert_eq!(get_prim_op_type(Operator::Not, Type::Bool, Type::NoType), Type::Bool);
}

#[test]
fn numeric_promotion_int_plus_float() {
    let r = exec_prim_op(Operator::Plus, int_lit(3), float_lit(1.5));
    assert_eq!(r, Ok(float_lit(4.5)));
}

#[test]
fn numeric_promotion_float_plus_int() {
    let r = exec_prim_op(Operator::Plus, float_lit(1.5), int_lit(3));
    assert_eq!(r, Ok(float_lit(4.5)));
}

#[test]
fn integer_division_truncates() {
    let r = exec_prim_op(Operator::Div, int_lit(7), int_lit(2));
    assert_eq!(r, Ok(int_lit(3)));
}

#[test]
fn float_division_is_exact() {
    let r = exec_prim_op(Operator::Div, float_lit(7.0), float_lit(2.0));
    assert_eq!(r, Ok(float_lit(3.5)));
}

#[test]
fn division_by_zero_is_fatal() {
    assert_eq!(exec_prim_op(Operator::Div, int_lit(1), int_lit(0)), Err(EvalError::DivisionByZero));
    assert_eq!(exec_prim_op(Operator::Mod, int_lit(1), int_lit(0)), Err(EvalError::DivisionByZero));
}

#[test]
fn operands_outside_table_are_fatal() {
    assert_eq!(
        exec_prim_op(Operator::Plus, bool_lit(true), bool_lit(false)),
        Err(EvalError::BadOperands)
    );
    assert_eq!(
        exec_prim_op(Operator::Concat, int_lit(1), int_lit(2)),
        Err(EvalError::BadOperands)
    );
    assert_eq!(exec_prim_op(Operator::Cond, int_lit(1), int_lit(2)), Err(EvalError::BadOperands));
}

#[test]
fn concat_is_associative_on_values() {
    let ab = exec_prim_op(Operator::Concat, str_lit("a"), str_lit("b")).unwrap();
    let left = exec_prim_op(Operator::Concat, ab, str_lit("c")).unwrap();
    let bc = exec_prim_op(Operator::Concat, str_lit("b"), str_lit("c")).unwrap();
    let right = exec_prim_op(Operator::Concat, str_lit("a"), bc).unwrap();
    assert_eq!(left, right);
    assert_eq!(left, str_lit("abc"));
}

#[test]
fn comparisons_on_matching_types() {
    assert_eq!(exec_prim_op(Operator::Gt, int_lit(3), int_lit(2)), Ok(bool_lit(true)));
    assert_eq!(exec_prim_op(Operator::Eq, str_lit("a"), str_lit("a")), Ok(bool_lit(true)));
    assert_eq!(exec_prim_op(Operator::Neq, bool_lit(true), bool_lit(true)), Ok(bool_lit(false)));
    assert_eq!(exec_prim_op(Operator::Leq, float_lit(1.0), float_lit(2.0)), Ok(bool_lit(true)));
}

#[test]
fn floor_truncates_toward_zero() {
    assert_eq!(exec_prim_op(Operator::Floor, float_lit(3.9), Literal::Void), Ok(int_lit(3)));
    assert_eq!(exec_prim_op(Operator::Floor, float_lit(-3.9), Literal::Void), Ok(int_lit(-3)));
}

#[test]
fn not_is_unary() {
    assert_eq!(exec_prim_op(Operator::Not, bool_lit(true), Literal::Void), Ok(bool_lit(false)));
}
