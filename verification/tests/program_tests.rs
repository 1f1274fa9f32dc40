use breakout::ast_generator::{consume_evaluation, generate_ast};
use breakout::errors::{AstError, EvalError};
use breakout::expressions::Evaluation;
use breakout::globalstate::{GlobalState, SymbolTable};
use breakout::parser::{Literal, Symbol, Token};
use breakout::primitives::{Float, Int};
use breakout::scanner::{
    string_to_tokenize, Delimeter, Keyword, Operator, PreToken, PreTokenized, Scanner, Type,
};

const FUEL: u64 = 1_000_000;

fn sym(s: &str) -> Token {
    Token::Symb(Symbol::new(s.to_string()))
}

fn int_tok(v: i64) -> Token {
    Token::Lit(Literal::Integer(Int::new(v)))
}

fn kw(k: Keyword) -> Token {
    Token::Lang(PreToken::KW(k))
}

fn op(o: Operator) -> Token {
    Token::Lang(PreToken::OP(o))
}

fn ty(t: Type) -> Token {
    Token::Lang(PreToken::TYPE(t))
}

fn eol() -> Token {
    Token::Lang(PreToken::EOL)
}

fn expect_int(r: Result<Literal, EvalError>) -> i64 {
    match r {
        Ok(Literal::Integer(n)) => n.get(),
        other => panic!("expected an integer result, got {:?}", other),
    }
}

#[test]
fn parse_prefix_addition() {
    let tokens = vec![op(Operator::Plus), int_tok(1), int_tok(2)];
    let state = GlobalState::new();
    let (e, p) = Evaluation::from_tokens(&tokens, 0, &state).unwrap();
    assert_eq!(p, 3);
    assert_eq!(e.get_type(), Type::Int);
}

#[test]
fn parse_parenthesized_group() {
    let tokens = vec![
        Token::Lang(PreToken::DEL(Delimeter::LPar)),
        int_tok(5),
        Token::Lang(PreToken::DEL(Delimeter::RPar)),
    ];
    let state = GlobalState::new();
    let (_, p) = Evaluation::from_tokens(&tokens, 0, &state).unwrap();
    assert_eq!(p, 3);
}

#[test]
fn unclosed_group_is_rejected() {
    let tokens = vec![Token::Lang(PreToken::DEL(Delimeter::LPar)), int_tok(5)];
    let state = GlobalState::new();
    match Evaluation::from_tokens(&tokens, 0, &state) {
        Err(AstError::Program(p)) => assert_eq!(p.message, "expected closing parenthesis"),
        other => panic!("expected a syntax error, got {:?}", other),
    }
}

#[test]
fn unknown_name_is_rejected_at_parse_time() {
    let tokens = vec![sym("ghost_name")];
    let state = GlobalState::new();
    match Evaluation::from_tokens(&tokens, 0, &state) {
        Err(AstError::Program(p)) => assert_eq!(p.message, "type not found: ghost_name"),
        other => panic!("expected a syntax error, got {:?}", other),
    }
}

#[test]
fn declared_type_must_match_computed_type() {
    let tokens = vec![int_tok(1)];
    let state = GlobalState::new();
    match consume_evaluation(&tokens, 0, &state, Type::Bool) {
        Err(AstError::Type(t)) => {
            assert_eq!(t.message, "Type mismatch");
            assert_eq!(t.expected, Type::Bool);
            assert_eq!(t.found, Type::Int);
        },
        other => panic!("expected a type error, got {:?}", other),
    }
}

#[test]
fn conditional_branches_must_agree() {
    let tokens = vec![
        op(Operator::Cond),
        Token::Lit(Literal::Bool(breakout::primitives::Bool::new(true))),
        int_tok(1),
        Token::Lit(Literal::String(breakout::primitives::Str::new("x".to_string()))),
    ];
    let state = GlobalState::new();
    match Evaluation::from_tokens(&tokens, 0, &state) {
        Err(AstError::Type(t)) => {
            assert_eq!(t.expected, Type::Int);
            assert_eq!(t.found, Type::Str);
        },
        other => panic!("expected a type error, got {:?}", other),
    }
}

#[test]
fn program_with_variable_and_entry_point() {
    let tokens = vec![
        ty(Type::Int), sym("x"), kw(Keyword::Define), int_tok(3), eol(),
        ty(Type::Int), sym("main"), kw(Keyword::Define),
        op(Operator::Plus), sym("x"), int_tok(4), eol(),
    ];
    let mut state = GlobalState::new();
    generate_ast(&tokens, &mut state).unwrap();
    assert_eq!(expect_int(state.eval_main(FUEL)), 7);
}

#[test]
fn program_with_simple_function() {
    let tokens = vec![
        ty(Type::Int), kw(Keyword::Func), sym("double"), kw(Keyword::Define),
        sym("x"), Token::Lang(PreToken::DEL(Delimeter::Colon)), ty(Type::Int),
        kw(Keyword::Kerchow), op(Operator::Plus), sym("x"), sym("x"), eol(),
        ty(Type::Int), sym("main"), kw(Keyword::Define), sym("double"), int_tok(21), eol(),
    ];
    let mut state = GlobalState::new();
    generate_ast(&tokens, &mut state).unwrap();
    assert_eq!(expect_int(state.eval_main(FUEL)), 42);
}

#[test]
fn program_with_breakout_function_yields_five() {
    // int func bk := |        (two stages; stage one has a thread-tagged
    //   int a := 2             assignment; stage two reads both results)
    //   int b := 3 | kick
    // =>
    //   int c := + a b
    // => c
    // int main := bk
    let tokens = vec![
        ty(Type::Int), kw(Keyword::Func), sym("bk"), kw(Keyword::Define), kw(Keyword::Bar), eol(),
        ty(Type::Int), sym("a"), kw(Keyword::Define), int_tok(2), eol(),
        ty(Type::Int), sym("b"), kw(Keyword::Define), int_tok(3),
        kw(Keyword::Bar), kw(Keyword::Kick), eol(),
        kw(Keyword::Kerchow), eol(),
        ty(Type::Int), sym("c"), kw(Keyword::Define),
        op(Operator::Plus), sym("a"), sym("b"), eol(),
        kw(Keyword::Kerchow), sym("c"), eol(),
        ty(Type::Int), sym("main"), kw(Keyword::Define), sym("bk"), eol(),
    ];
    let mut state = GlobalState::new();
    generate_ast(&tokens, &mut state).unwrap();
    assert_eq!(expect_int(state.eval_main(FUEL)), 5);
}

#[test]
fn self_recursive_function_runs_out_of_budget() {
    // int func f := x : int => f x ; int main := f 1
    // The body calls the function itself with no base case, so evaluation
    // exhausts any budget.
    let tokens = vec![
        ty(Type::Int), kw(Keyword::Func), sym("f"), kw(Keyword::Define),
        sym("x"), Token::Lang(PreToken::DEL(Delimeter::Colon)), ty(Type::Int),
        kw(Keyword::Kerchow), sym("f"), sym("x"), eol(),
        ty(Type::Int), sym("main"), kw(Keyword::Define), sym("f"), int_tok(1), eol(),
    ];
    let mut state = GlobalState::new();
    generate_ast(&tokens, &mut state).unwrap();
    assert_eq!(state.eval_main(2000), Err(EvalError::OutOfFuel));
}

#[test]
fn failed_function_declaration_clears_overrides() {
    // The body's type disagrees with the declared return type, so the
    // declaration fails — and the parameter override for x must be gone.
    let tokens = vec![
        ty(Type::Int), kw(Keyword::Func), sym("f"), kw(Keyword::Define),
        sym("x"), Token::Lang(PreToken::DEL(Delimeter::Colon)), ty(Type::Int),
        kw(Keyword::Kerchow), Token::Lit(Literal::Bool(breakout::primitives::Bool::new(true))),
        eol(),
    ];
    let mut state = GlobalState::new();
    match generate_ast(&tokens, &mut state) {
        Err(AstError::Type(t)) => {
            assert_eq!(t.expected, Type::Int);
            assert_eq!(t.found, Type::Bool);
        },
        other => panic!("expected a type error, got {:?}", other),
    }
    assert_eq!(state.get_type(&Symbol::new("x".to_string())), None);
}

#[test]
fn truncated_function_head_is_rejected() {
    let tokens = vec![ty(Type::Int), kw(Keyword::Func)];
    let mut state = GlobalState::new();
    match generate_ast(&tokens, &mut state) {
        Err(AstError::Program(p)) => {
            assert_eq!(p.message, "Invalid token, wanted a function name")
        },
        other => panic!("expected a syntax error, got {:?}", other),
    }
}

#[test]
fn duplicate_declaration_is_rejected() {
    let tokens = vec![
        ty(Type::Int), sym("x"), kw(Keyword::Define), int_tok(1), eol(),
        ty(Type::Int), sym("x"), kw(Keyword::Define), int_tok(2), eol(),
    ];
    let mut state = GlobalState::new();
    match generate_ast(&tokens, &mut state) {
        Err(AstError::Program(p)) => assert_eq!(p.message, "x already exists"),
        other => panic!("expected a duplicate-symbol error, got {:?}", other),
    }
}

#[test]
fn comments_and_blank_lines_are_skipped() {
    let tokens = vec![
        eol(), eol(),
        Token::Lang(PreToken::COMMENT), sym("ignored"), int_tok(99), eol(),
        ty(Type::Int), sym("main"), kw(Keyword::Define), int_tok(1), eol(),
    ];
    let mut state = GlobalState::new();
    generate_ast(&tokens, &mut state).unwrap();
    assert_eq!(expect_int(state.eval_main(FUEL)), 1);
}

#[test]
fn empty_program_builds_an_empty_state() {
    let tokens: Vec<Token> = vec![];
    let mut state = GlobalState::new();
    generate_ast(&tokens, &mut state).unwrap();
    assert_eq!(state.eval_main(FUEL), Err(EvalError::NoEntryPoint));
}

#[test]
fn missing_entry_point_is_reported() {
    let state = GlobalState::new();
    assert_eq!(state.eval_main(FUEL), Err(EvalError::NoEntryPoint));
}

#[test]
fn entry_point_is_not_a_variable() {
    let tokens = vec![
        ty(Type::Int), sym("main"), kw(Keyword::Define), int_tok(1), eol(),
    ];
    let mut state = GlobalState::new();
    generate_ast(&tokens, &mut state).unwrap();
    assert!(!state.is_variables(&Symbol::new("main".to_string())));
}

#[test]
fn state_resolves_types_of_declarations() {
    let tokens = vec![
        ty(Type::Str), sym("s"), kw(Keyword::Define),
        Token::Lit(Literal::String(breakout::primitives::Str::new("hi".to_string()))), eol(),
        ty(Type::Int), kw(Keyword::Func), sym("f"), kw(Keyword::Define),
        kw(Keyword::Kerchow), int_tok(1), eol(),
    ];
    let mut state = GlobalState::new();
    generate_ast(&tokens, &mut state).unwrap();
    assert_eq!(state.get_type(&Symbol::new("s".to_string())), Some(Type::Str));
    assert_eq!(state.get_type(&Symbol::new("f".to_string())), Some(Type::Int));
    assert_eq!(state.get_type(&Symbol::new("zzz".to_string())), None);
    assert!(state.is_function(&Symbol::new("f".to_string())));
    assert!(state.is_variables(&Symbol::new("s".to_string())));
    assert_eq!(state.get_args(&Symbol::new("f".to_string())), Vec::<Type>::new());
}

#[test]
fn overrides_take_priority_and_clear() {
    let mut state = GlobalState::new();
    let x = Symbol::new("x".to_string());
    state.override_variables(x.clone(), Type::Str);
    assert_eq!(state.get_type(&x), Some(Type::Str));
    state.clear_overrides();
    assert_eq!(state.get_type(&x), None);
}

#[test]
fn symbol_table_assigns_increasing_ids() {
    let mut t = SymbolTable::new();
    let a = Symbol::new("a".to_string());
    let b = Symbol::new("b".to_string());
    assert_eq!(t.add(a.clone()).unwrap(), 1);
    assert_eq!(t.add(b.clone()).unwrap(), 2);
    assert_eq!(t.get_id(a.clone()), Some(1));
    assert_eq!(t.get_id(b.clone()), Some(2));
    assert_eq!(t.get_symbol(2).unwrap().name(), "b");
    assert!(t.symbol_exists(a.clone()));
    assert!(t.id_exists(2));
    assert!(!t.id_exists(3));
    let e = t.add(a).unwrap_err();
    assert_eq!(e.message, "a already exists");
}

#[test]
fn words_map_to_language_tokens() {
    assert_eq!(string_to_tokenize("+"), PreTokenized::T(PreToken::OP(Operator::Plus)));
    assert_eq!(string_to_tokenize(":="), PreTokenized::T(PreToken::KW(Keyword::Define)));
    assert_eq!(string_to_tokenize("=>"), PreTokenized::T(PreToken::KW(Keyword::Kerchow)));
    assert_eq!(string_to_tokenize("kick"), PreTokenized::T(PreToken::KW(Keyword::Kick)));
    assert_eq!(string_to_tokenize("float"), PreTokenized::T(PreToken::TYPE(Type::Float)));
    assert_eq!(string_to_tokenize("#"), PreTokenized::T(PreToken::COMMENT));
    assert_eq!(string_to_tokenize("hello"), PreTokenized::S("hello".to_string()));
}

#[test]
fn scanner_pops_lines_in_reverse_push_order() {
    let mut sc = Scanner::new();
    sc.push_line("second".to_string());
    sc.push_line("first".to_string());
    assert_eq!(sc.get_next_line(), Some("first".to_string()));
    assert_eq!(sc.get_next_line(), Some("second".to_string()));
    assert_eq!(sc.get_next_line(), None);
}

#[test]
fn literal_type_tags() {
    assert_eq!(Literal::Integer(Int::new(1)).get_type(), Type::Int);
    assert_eq!(Literal::Float(Float::from_bits(1.0f64.to_bits())).get_type(), Type::Float);
    assert_eq!(Literal::Void.get_type(), Type::NoType);
}

#[test]
fn declared_variable_keeps_declared_type_when_evaluated() {
    // For a well-typed declaration `T n := e`, the stored type and the
    // evaluated value's tag both equal T.
    let tokens = vec![
        ty(Type::Int), sym("n"), kw(Keyword::Define),
        op(Operator::Plus), int_tok(1), int_tok(2), eol(),
        ty(Type::Int), sym("main"), kw(Keyword::Define), sym("n"), eol(),
    ];
    let mut state = GlobalState::new();
    generate_ast(&tokens, &mut state).unwrap();
    assert_eq!(state.get_type(&Symbol::new("n".to_string())), Some(Type::Int));
    let r = state.eval_main(FUEL).unwrap();
    assert_eq!(r.get_type(), Type::Int);
    assert_eq!(expect_int(Ok(r)), 3);
}

#[test]
fn call_arity_is_fixed_at_declaration_time() {
    // `double` takes one argument, so the parser consumes exactly one
    // expression after its name; the next token is left in the stream.
    let tokens = vec![
        ty(Type::Int), kw(Keyword::Func), sym("double"), kw(Keyword::Define),
        sym("x"), Token::Lang(PreToken::DEL(Delimeter::Colon)), ty(Type::Int),
        kw(Keyword::Kerchow), op(Operator::Plus), sym("x"), sym("x"), eol(),
    ];
    let mut state = GlobalState::new();
    generate_ast(&tokens, &mut state).unwrap();
    let call_tokens = vec![sym("double"), int_tok(1), int_tok(99)];
    let (e, p) = Evaluation::from_tokens(&call_tokens, 0, &state).unwrap();
    assert_eq!(p, 2);
    assert_eq!(e.get_type(), Type::Int);
}

#[test]
fn call_argument_types_are_checked_at_declaration_time() {
    let tokens = vec![
        ty(Type::Int), kw(Keyword::Func), sym("double"), kw(Keyword::Define),
        sym("x"), Token::Lang(PreToken::DEL(Delimeter::Colon)), ty(Type::Int),
        kw(Keyword::Kerchow), op(Operator::Plus), sym("x"), sym("x"), eol(),
    ];
    let mut state = GlobalState::new();
    generate_ast(&tokens, &mut state).unwrap();
    let call_tokens = vec![
        sym("double"),
        Token::Lit(Literal::Bool(breakout::primitives::Bool::new(true))),
    ];
    match Evaluation::from_tokens(&call_tokens, 0, &state) {
        Err(AstError::Type(t)) => {
            assert_eq!(t.expected, Type::Int);
            assert_eq!(t.found, Type::Bool);
        },
        other => panic!("expected a type error, got {:?}", other),
    }
}
