use breakout::env::{Env, FuncMap};
use breakout::errors::EvalError;
use breakout::expressions::Evaluation;
use breakout::functions::{Function, FunctionStage, RunType};
use breakout::parser::{Literal, Symbol};
use breakout::primitives::{Bool, Float, Int, Str};
use breakout::scanner::{Operator, Type};

const FUEL: u64 = 1_000_000;

fn sym(s: &str) -> Symbol {
    Symbol::new(s.to_string())
}

fn int_lit(v: i64) -> Evaluation {
    Evaluation::Literal(Literal::Integer(Int::new(v)))
}

fn bool_lit(b: bool) -> Evaluation {
    Evaluation::Literal(Literal::Bool(Bool::new(b)))
}

fn str_lit(s: &str) -> Evaluation {
    Evaluation::Literal(Literal::String(Str::new(s.to_string())))
}

fn plus(a: Evaluation, b: Evaluation) -> Evaluation {
    Evaluation::PrimOp { op: Operator::Plus, arg1: Box::new(a), arg2: Some(Box::new(b)) }
}

fn var(s: &str, t: Type) -> Evaluation {
    Evaluation::Variable(sym(s), t)
}

fn expect_int(r: Result<Literal, EvalError>) -> i64 {
    match r {
        Ok(Literal::Integer(n)) => n.get(),
        other => panic!("expected an integer result, got {:?}", other),
    }
}

#[test]
fn literal_evaluates_to_itself() {
    let env = Env::new();
    let funcs = FuncMap::new();
    assert_eq!(int_lit(42).evaluate(&env, &funcs, FUEL), Ok(Literal::Integer(Int::new(42))));
}

#[test]
fn variable_resolves_lazily() {
    let mut env = Env::new();
    let funcs = FuncMap::new();
    env.insert(sym("x"), int_lit(3));
    env.insert(sym("y"), plus(var("x", Type::Int), int_lit(4)));
    assert_eq!(expect_int(var("y", Type::Int).evaluate(&env, &funcs, FUEL)), 7);
}

#[test]
fn later_insertion_shadows_earlier() {
    let mut env = Env::new();
    let funcs = FuncMap::new();
    env.insert(sym("x"), int_lit(1));
    env.insert(sym("x"), int_lit(2));
    assert_eq!(expect_int(var("x", Type::Int).evaluate(&env, &funcs, FUEL)), 2);
}

#[test]
fn unknown_symbol_is_fatal() {
    let env = Env::new();
    let funcs = FuncMap::new();
    assert_eq!(
        var("nope", Type::Int).evaluate(&env, &funcs, FUEL),
        Err(EvalError::UnknownSymbol)
    );
}

#[test]
fn conditional_true_picks_first_branch() {
    let env = Env::new();
    let funcs = FuncMap::new();
    let e = Evaluation::Conditional {
        cond: Box::new(bool_lit(true)),
        on_true: Box::new(int_lit(1)),
        otherwise: Box::new(int_lit(2)),
    };
    assert_eq!(expect_int(e.evaluate(&env, &funcs, FUEL)), 1);
}

#[test]
fn conditional_false_picks_second_branch() {
    let env = Env::new();
    let funcs = FuncMap::new();
    let e = Evaluation::Conditional {
        cond: Box::new(bool_lit(false)),
        on_true: Box::new(str_lit("a")),
        otherwise: Box::new(str_lit("b")),
    };
    assert_eq!(e.evaluate(&env, &funcs, FUEL), Ok(Literal::String(Str::new("b".to_string()))));
}

#[test]
fn conditional_with_non_bool_condition_is_fatal() {
    let env = Env::new();
    let funcs = FuncMap::new();
    let e = Evaluation::Conditional {
        cond: Box::new(int_lit(1)),
        on_true: Box::new(int_lit(1)),
        otherwise: Box::new(int_lit(2)),
    };
    assert_eq!(e.evaluate(&env, &funcs, FUEL), Err(EvalError::CondNotBool));
}

#[test]
fn simple_function_call_binds_parameters() {
    let env = Env::new();
    let mut funcs = FuncMap::new();
    let double = Function::Simple {
        name: sym("double"),
        args: vec![(sym("x"), Type::Int)],
        body: Some(Box::new(plus(var("x", Type::Int), var("x", Type::Int)))),
        return_type: Type::Int,
    };
    funcs.insert(sym("double"), double);
    let call = Evaluation::FuncCall {
        name: sym("double"),
        args: vec![int_lit(21)],
        return_type: Type::Int,
    };
    assert_eq!(expect_int(call.evaluate(&env, &funcs, FUEL)), 42);
}

#[test]
fn callee_sees_caller_environment_snapshot() {
    // The called function's mapping starts as a copy of the caller's whole
    // mapping, so a body may read a name it never declared.
    let mut env = Env::new();
    let mut funcs = FuncMap::new();
    env.insert(sym("outer"), int_lit(10));
    let f = Function::Simple {
        name: sym("f"),
        args: vec![(sym("x"), Type::Int)],
        body: Some(Box::new(plus(var("x", Type::Int), var("outer", Type::Int)))),
        return_type: Type::Int,
    };
    funcs.insert(sym("f"), f);
    let call = Evaluation::FuncCall {
        name: sym("f"),
        args: vec![int_lit(1)],
        return_type: Type::Int,
    };
    assert_eq!(expect_int(call.evaluate(&env, &funcs, FUEL)), 11);
}

#[test]
fn call_to_unknown_function_is_fatal() {
    let env = Env::new();
    let funcs = FuncMap::new();
    let call = Evaluation::FuncCall { name: sym("g"), args: vec![], return_type: Type::Int };
    assert_eq!(call.evaluate(&env, &funcs, FUEL), Err(EvalError::UnknownFunction));
}

#[test]
fn call_to_function_without_body_is_fatal() {
    let env = Env::new();
    let mut funcs = FuncMap::new();
    let f = Function::Simple {
        name: sym("f"),
        args: vec![],
        body: None,
        return_type: Type::Int,
    };
    funcs.insert(sym("f"), f);
    let call = Evaluation::FuncCall { name: sym("f"), args: vec![], return_type: Type::Int };
    assert_eq!(call.evaluate(&env, &funcs, FUEL), Err(EvalError::MissingBody));
}

#[test]
fn stage_thread_sees_pre_stage_value() {
    // One thread-tagged and one regular assignment, both reading `v`: the
    // thread-tagged result must come from the pre-stage value of `v`.
    let mut env = Env::new();
    let funcs = FuncMap::new();
    env.insert(sym("v"), int_lit(1));
    let stage = FunctionStage::new(vec![
        (sym("x"), Box::new(var("v", Type::Int)), RunType::Thread),
        (sym("v"), Box::new(plus(var("v", Type::Int), int_lit(1))), RunType::Regular),
    ]);
    stage.evaluate(&mut env, &funcs, FUEL).unwrap();
    assert_eq!(expect_int(var("x", Type::Int).evaluate(&env, &funcs, FUEL)), 1);
    assert_eq!(expect_int(var("v", Type::Int).evaluate(&env, &funcs, FUEL)), 2);
}

#[test]
fn stage_isolation_holds_in_either_declaration_order() {
    let mut env = Env::new();
    let funcs = FuncMap::new();
    env.insert(sym("v"), int_lit(1));
    let stage = FunctionStage::new(vec![
        (sym("v"), Box::new(plus(var("v", Type::Int), int_lit(1))), RunType::Regular),
        (sym("x"), Box::new(var("v", Type::Int)), RunType::Thread),
    ]);
    stage.evaluate(&mut env, &funcs, FUEL).unwrap();
    assert_eq!(expect_int(var("x", Type::Int).evaluate(&env, &funcs, FUEL)), 1);
    assert_eq!(expect_int(var("v", Type::Int).evaluate(&env, &funcs, FUEL)), 2);
}

#[test]
fn regular_assignments_see_earlier_regular_results() {
    let mut env = Env::new();
    let funcs = FuncMap::new();
    let stage = FunctionStage::new(vec![
        (sym("a"), Box::new(int_lit(5)), RunType::Regular),
        (sym("b"), Box::new(plus(var("a", Type::Int), int_lit(1))), RunType::Regular),
    ]);
    stage.evaluate(&mut env, &funcs, FUEL).unwrap();
    assert_eq!(expect_int(var("b", Type::Int).evaluate(&env, &funcs, FUEL)), 6);
}

#[test]
fn breakout_two_stages_yield_five() {
    // Stage one assigns a := 2 and, thread-tagged, b := 3; stage two
    // assigns c := a + b; the final expression c must yield 5.
    let env = Env::new();
    let mut funcs = FuncMap::new();
    let stage1 = FunctionStage::new(vec![
        (sym("a"), Box::new(int_lit(2)), RunType::Regular),
        (sym("b"), Box::new(int_lit(3)), RunType::Thread),
    ]);
    let stage2 = FunctionStage::new(vec![
        (
            sym("c"),
            Box::new(plus(var("a", Type::Int), var("b", Type::Int))),
            RunType::Regular,
        ),
    ]);
    let bk = Function::Breakout {
        name: sym("bk"),
        args: vec![],
        stages: vec![stage1, stage2],
        final_eval: Box::new(var("c", Type::Int)),
        return_type: Type::Int,
    };
    funcs.insert(sym("bk"), bk);
    let call = Evaluation::FuncCall { name: sym("bk"), args: vec![], return_type: Type::Int };
    assert_eq!(expect_int(call.evaluate(&env, &funcs, FUEL)), 5);
}

#[test]
fn mutually_referencing_variables_exhaust_any_budget() {
    // The evaluator has no cycle detection; a reference cycle runs the
    // budget out instead of producing a value, whatever the budget.
    let mut env = Env::new();
    let funcs = FuncMap::new();
    env.insert(sym("x"), var("y", Type::Int));
    env.insert(sym("y"), var("x", Type::Int));
    for fuel in [1u64, 10, 1000, 100_000] {
        assert_eq!(
            var("x", Type::Int).evaluate(&env, &funcs, fuel),
            Err(EvalError::OutOfFuel)
        );
    }
}

#[test]
fn float_promotion_through_evaluator() {
    let env = Env::new();
    let funcs = FuncMap::new();
    let e = plus(
        int_lit(3),
        Evaluation::Literal(Literal::Float(Float::from_bits(1.5f64.to_bits()))),
    );
    assert_eq!(
        e.evaluate(&env, &funcs, FUEL),
        Ok(Literal::Float(Float::from_bits(4.5f64.to_bits())))
    );
}

#[test]
fn expression_static_types() {
    assert_eq!(int_lit(1).get_type(), Type::Int);
    assert_eq!(bool_lit(true).get_type(), Type::Bool);
    assert_eq!(plus(int_lit(1), int_lit(2)).get_type(), Type::Int);
    let promoted = plus(
        int_lit(1),
        Evaluation::Literal(Literal::Float(Float::from_bits(1.0f64.to_bits()))),
    );
    assert_eq!(promoted.get_type(), Type::Float);
    let c = Evaluation::Conditional {
        cond: Box::new(bool_lit(true)),
        on_true: Box::new(str_lit("a")),
        otherwise: Box::new(str_lit("b")),
    };
    assert_eq!(c.get_type(), Type::Str);
    assert_eq!(Evaluation::Literal(Literal::Void).get_type(), Type::NoType);
}

#[test]
fn function_accessors() {
    let f = Function::Simple {
        name: sym("f"),
        args: vec![(sym("x"), Type::Int), (sym("s"), Type::Str)],
        body: None,
        return_type: Type::Bool,
    };
    assert_eq!(f.get_type(), Type::Bool);
    assert_eq!(f.get_arg_types(), vec![Type::Int, Type::Str]);
}

#[test]
fn set_body_attaches_simple_body() {
    let env = Env::new();
    let mut f = Function::Simple {
        name: sym("f"),
        args: vec![],
        body: None,
        return_type: Type::Int,
    };
    f.set_body(Some(Box::new(int_lit(9))));
    let mut funcs = FuncMap::new();
    funcs.insert(sym("f"), f);
    let call = Evaluation::FuncCall { name: sym("f"), args: vec![], return_type: Type::Int };
    assert_eq!(expect_int(call.evaluate(&env, &funcs, FUEL)), 9);
}
