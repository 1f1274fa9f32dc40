//! The program builder: consumes the token stream through a cursor and
//! fills the global program state with type-checked declarations. The
//! grammar is stated first as a family of specification functions; the
//! executable consumers below are proved to follow them exactly.
//!
//! Positions returned by the specification are guarded (`pos < p`) so every
//! recursion visibly consumes input; the guard branches marked as position
//! errors are never taken by the executable consumers.
use vstd::prelude::*;
use vstd::string::StringExecFns;
use crate::errors::{AstError, ProgramError, TypeError};
use crate::expressions::Evaluation;
use crate::functions::{Function, FunctionStage, RunType};
use crate::globalstate::GlobalState;
use crate::parser::{Symbol, Token};
use crate::scanner::{Delimeter, Keyword, Operator, PreToken, Type};
use crate::semantics::{
    expr_type, func_params, param_types, params_view, stages_view, sv_add_function,
    sv_add_variable, sv_type_of, threads_first, tokens_view, AssignV, AstErrV, ExprV, FuncV,
    StageV, StateV, TokenV,
};

verus! {

/// One prefix-notation expression, starting at `pos`: a literal or symbol
/// is a leaf, an operator consumes the operands its arity requires, and a
/// parenthesized group must close.
pub open spec fn parse_expr_spec(tokens: Seq<TokenV>, pos: int, sv: StateV) -> Result<
    (ExprV, int),
    AstErrV,
>
    decreases tokens.len() - pos, 0int,
{
    if pos < 0 || pos >= tokens.len() {
        Err(AstErrV::Program("unexpected end of tokens"@))
    } else {
        match tokens[pos] {
            TokenV::Lit(l) => Ok((ExprV::Lit(l), pos + 1)),
            TokenV::Lang(PreToken::OP(Operator::Cond)) => match parse_expr_spec(
                tokens,
                pos + 1,
                sv,
            ) {
                Err(e) => Err(e),
                Ok((c, p1)) => if !(pos + 1 <= p1 < tokens.len() + 1) {
                    Err(AstErrV::Program("parser position error"@))
                } else {
                    match parse_expr_spec(tokens, p1, sv) {
                        Err(e) => Err(e),
                        Ok((t, p2)) => if !(p1 <= p2 < tokens.len() + 1) {
                            Err(AstErrV::Program("parser position error"@))
                        } else {
                            match parse_expr_spec(tokens, p2, sv) {
                                Err(e) => Err(e),
                                Ok((o, p3)) => if expr_type(c) != Type::Bool {
                                    Err(AstErrV::Type {
                                        message: "Type mismatch"@,
                                        expected: Type::Bool,
                                        found: expr_type(c),
                                    })
                                } else if expr_type(t) != expr_type(o) {
                                    Err(AstErrV::Type {
                                        message: "Type mismatch"@,
                                        expected: expr_type(t),
                                        found: expr_type(o),
                                    })
                                } else {
                                    Ok(
                                        (
                                            ExprV::Cond {
                                                cond: Box::new(c),
                                                on_true: Box::new(t),
                                                otherwise: Box::new(o),
                                            },
                                            p3,
                                        ),
                                    )
                                },
                            }
                        },
                    }
                },
            },
            TokenV::Lang(PreToken::OP(Operator::Not)) => match parse_expr_spec(
                tokens,
                pos + 1,
                sv,
            ) {
                Err(e) => Err(e),
                Ok((a1, p1)) => Ok(
                    (ExprV::PrimOp { op: Operator::Not, arg1: Box::new(a1), arg2: None }, p1),
                ),
            },
            TokenV::Lang(PreToken::OP(Operator::Floor)) => match parse_expr_spec(
                tokens,
                pos + 1,
                sv,
            ) {
                Err(e) => Err(e),
                Ok((a1, p1)) => Ok(
                    (ExprV::PrimOp { op: Operator::Floor, arg1: Box::new(a1), arg2: None }, p1),
                ),
            },
            TokenV::Lang(PreToken::OP(op)) => match parse_expr_spec(tokens, pos + 1, sv) {
                Err(e) => Err(e),
                Ok((a1, p1)) => if !(pos + 1 <= p1 < tokens.len() + 1) {
                    Err(AstErrV::Program("parser position error"@))
                } else {
                    match parse_expr_spec(tokens, p1, sv) {
                        Err(e) => Err(e),
                        Ok((a2, p2)) => Ok(
                            (
                                ExprV::PrimOp {
                                    op,
                                    arg1: Box::new(a1),
                                    arg2: Some(Box::new(a2)),
                                },
                                p2,
                            ),
                        ),
                    }
                },
            },
            TokenV::Lang(PreToken::DEL(Delimeter::LPar)) => match parse_expr_spec(
                tokens,
                pos + 1,
                sv,
            ) {
                Err(e) => Err(e),
                Ok((inner, p1)) => if p1 < 0 || p1 >= tokens.len() {
                    Err(AstErrV::Program("expected closing parenthesis"@))
                } else if tokens[p1] == TokenV::Lang(PreToken::DEL(Delimeter::RPar)) {
                    Ok((inner, p1 + 1))
                } else {
                    Err(AstErrV::Program("expected closing parenthesis"@))
                },
            },
            TokenV::Symb(name) => match sv_type_of(sv, name) {
                None => Err(AstErrV::Program("type not found: "@ + name)),
                Some(t) => if sv.funcs.contains_key(name) {
                    match parse_args_spec(
                        tokens,
                        pos + 1,
                        sv,
                        param_types(func_params(sv.funcs[name])),
                    ) {
                        Err(e) => Err(e),
                        Ok((args, p1)) => Ok((ExprV::Call { name, args, ret: t }, p1)),
                    }
                } else {
                    Ok((ExprV::Var { name, typ: t }, pos + 1))
                },
            },
            TokenV::Lang(PreToken::EOL) => Err(
                AstErrV::Program("unexpected end of line in expression"@),
            ),
            _ => Err(AstErrV::Program("unexpected token in expression"@)),
        }
    }
}

/// One argument expression for each expected parameter type, each checked
/// against its parameter's declared type.
pub open spec fn parse_args_spec(
    tokens: Seq<TokenV>,
    pos: int,
    sv: StateV,
    ptypes: Seq<Type>,
) -> Result<(Seq<ExprV>, int), AstErrV>
    decreases tokens.len() - pos, ptypes.len() + 1,
{
    if ptypes.len() == 0 {
        Ok((Seq::empty(), pos))
    } else if pos < 0 || pos > tokens.len() {
        Err(AstErrV::Program("parser position error"@))
    } else {
        match parse_expr_spec(tokens, pos, sv) {
            Err(e) => Err(e),
            Ok((a, p1)) => if !(pos < p1 <= tokens.len()) {
                Err(AstErrV::Program("parser position error"@))
            } else if expr_type(a) != ptypes[0] {
                Err(AstErrV::Type {
                    message: "Type mismatch"@,
                    expected: ptypes[0],
                    found: expr_type(a),
                })
            } else {
                match parse_args_spec(tokens, p1, sv, ptypes.subrange(1, ptypes.len() as int)) {
                    Err(e) => Err(e),
                    Ok((rest, p2)) => Ok((seq![a] + rest, p2)),
                }
            },
        }
    }
}

/// One expression whose computed type must equal the declared type.
pub open spec fn consume_eval_spec(
    tokens: Seq<TokenV>,
    pos: int,
    sv: StateV,
    desired: Type,
) -> Result<(ExprV, int), AstErrV> {
    match parse_expr_spec(tokens, pos, sv) {
        Err(e) => Err(e),
        Ok((e, p)) => if expr_type(e) != desired {
            Err(AstErrV::Type { message: "Type mismatch"@, expected: desired, found: expr_type(e) })
        } else {
            Ok((e, p))
        },
    }
}

/// The assignments of one stage, in declaration order, up to (and not
/// including) the terminating `=>` token; each assignment's name gains a
/// type override. The returned position points at the terminator.
pub open spec fn stage_spec(tokens: Seq<TokenV>, pos: int, sv: StateV) -> Result<
    (Seq<AssignV>, int, StateV),
    AstErrV,
>
    decreases tokens.len() - pos,
{
    if pos < 0 || pos >= tokens.len() {
        Err(AstErrV::Program("unexpected end of tokens"@))
    } else {
        match tokens[pos] {
            TokenV::Lang(PreToken::KW(Keyword::Kerchow)) => Ok((Seq::empty(), pos, sv)),
            TokenV::Lang(PreToken::EOL) => stage_spec(tokens, pos + 1, sv),
            TokenV::Lang(PreToken::KW(Keyword::Bar)) => stage_spec(tokens, pos + 1, sv),
            TokenV::Lang(PreToken::TYPE(t)) => if pos + 1 >= tokens.len() {
                Err(AstErrV::Program("unexpected end of tokens"@))
            } else {
                match tokens[pos + 1] {
                    TokenV::Symb(aname) => if pos + 2 >= tokens.len() || tokens[pos + 2]
                        != TokenV::Lang(PreToken::KW(Keyword::Define)) {
                        Err(AstErrV::Program("Invalid token, wanted :="@))
                    } else {
                        match consume_eval_spec(tokens, pos + 3, sv, t) {
                            Err(e) => Err(e),
                            Ok((body, p1)) => if !(pos + 3 < p1 <= tokens.len()) {
                                Err(AstErrV::Program("parser position error"@))
                            } else {
                                let sv1 = StateV {
                                    overrides: sv.overrides.insert(aname, t),
                                    ..sv
                                };
                                if p1 >= tokens.len() {
                                    Err(AstErrV::Program("unexpected end of tokens"@))
                                } else if tokens[p1] == TokenV::Lang(
                                    PreToken::KW(Keyword::Bar),
                                ) {
                                    if p1 + 1 >= tokens.len() {
                                        Err(AstErrV::Program("unexpected end of tokens"@))
                                    } else if tokens[p1 + 1] != TokenV::Lang(
                                        PreToken::KW(Keyword::Kick),
                                    ) {
                                        Err(AstErrV::Program("expected kick after bar"@))
                                    } else {
                                        let p2 = if p1 + 3 <= tokens.len() {
                                            p1 + 3
                                        } else {
                                            tokens.len() as int
                                        };
                                        match stage_spec(tokens, p2, sv1) {
                                            Err(e) => Err(e),
                                            Ok((rest, p3, sv2)) => Ok(
                                                (
                                                    seq![
                                                        AssignV {
                                                            name: aname,
                                                            expr: body,
                                                            tag: RunType::Thread,
                                                        },
                                                    ] + rest,
                                                    p3,
                                                    sv2,
                                                ),
                                            ),
                                        }
                                    }
                                } else {
                                    match stage_spec(tokens, p1, sv1) {
                                        Err(e) => Err(e),
                                        Ok((rest, p3, sv2)) => Ok(
                                            (
                                                seq![
                                                    AssignV {
                                                        name: aname,
                                                        expr: body,
                                                        tag: RunType::Regular,
                                                    },
                                                ] + rest,
                                                p3,
                                                sv2,
                                            ),
                                        ),
                                    }
                                }
                            },
                        }
                    },
                    _ => Err(AstErrV::Program("expected a name in stage assignment"@)),
                }
            },
            _ => Err(AstErrV::Program("unexpected token in stage"@)),
        }
    }
}

/// The parameter list of a function declaration, up to its terminator
/// (`=>` for a Simple body, `|` for stages); each parameter name gains a
/// type override, and anything that is not a name is skipped. The returned
/// position points just past the terminator.
pub open spec fn params_spec(tokens: Seq<TokenV>, pos: int, sv: StateV) -> Result<
    (Seq<(Seq<char>, Type)>, int, StateV, Keyword),
    AstErrV,
>
    decreases tokens.len() - pos,
{
    if pos < 0 || pos >= tokens.len() {
        Err(AstErrV::Program("unexpected end of tokens"@))
    } else {
        match tokens[pos] {
            TokenV::Lang(PreToken::KW(Keyword::Kerchow)) => Ok(
                (Seq::empty(), pos + 1, sv, Keyword::Kerchow),
            ),
            TokenV::Lang(PreToken::KW(Keyword::Bar)) => Ok(
                (Seq::empty(), pos + 1, sv, Keyword::Bar),
            ),
            TokenV::Symb(pname) => if pos + 1 >= tokens.len() || tokens[pos + 1] != TokenV::Lang(
                PreToken::DEL(Delimeter::Colon),
            ) {
                Err(AstErrV::Program("Invalid token, wanted :"@))
            } else if pos + 2 >= tokens.len() || !(tokens[pos + 2] matches TokenV::Lang(
                PreToken::TYPE(_),
            )) {
                Err(AstErrV::Program("Invalid token, wanted a type"@))
            } else {
                match tokens[pos + 2] {
                    TokenV::Lang(PreToken::TYPE(t)) => {
                        let sv1 = StateV { overrides: sv.overrides.insert(pname, t), ..sv };
                        match params_spec(tokens, pos + 3, sv1) {
                            Err(e) => Err(e),
                            Ok((rest, p, sv2, term)) => Ok(
                                (seq![(pname, t)] + rest, p, sv2, term),
                            ),
                        }
                    },
                    _ => Err(AstErrV::Program("Invalid token, wanted a type"@)),
                }
            },
            _ => params_spec(tokens, pos + 1, sv),
        }
    }
}

/// The stages of a Breakout function body, each terminated by `=>`; once
/// the token after a terminator does not start another stage line, that
/// token starts the function's final expression, and the finished function
/// replaces the registered signature.
pub open spec fn stages_spec(
    tokens: Seq<TokenV>,
    pos: int,
    sv: StateV,
    name: Seq<char>,
    params: Seq<(Seq<char>, Type)>,
    desired: Type,
    acc: Seq<StageV>,
) -> Result<(StateV, int), AstErrV>
    decreases tokens.len() - pos,
{
    match stage_spec(tokens, pos, sv) {
        Err(e) => Err(e),
        Ok((assigns, p1, sv1)) => if !(pos <= p1 < tokens.len()) {
            Err(AstErrV::Program("parser position error"@))
        } else {
            let stages2 = acc.push(StageV { assigns: threads_first(assigns) });
            let p2 = p1 + 1;
            if p2 >= tokens.len() {
                Err(AstErrV::Program("unexpected end of tokens"@))
            } else if tokens[p2] == TokenV::Lang(PreToken::EOL) {
                stages_spec(tokens, p2, sv1, name, params, desired, stages2)
            } else {
                match consume_eval_spec(tokens, p2, sv1, desired) {
                    Err(e) => Err(e),
                    Ok((fe, p3)) => {
                        let bo = FuncV::Breakout {
                            name,
                            params,
                            stages: stages2,
                            final_expr: Box::new(fe),
                            ret: desired,
                        };
                        Ok((StateV { funcs: sv1.funcs.insert(name, bo), ..sv1 }, p3))
                    },
                }
            }
        },
    }
}

/// One function declaration after its `:=`: the parameter list, then
/// either `=>` and a Simple body or `|` and staged assignments. The
/// signature is registered before the body is read, so the body can call
/// the function; the transient overrides are dropped at the end.
pub open spec fn func_spec(
    name: Seq<char>,
    tokens: Seq<TokenV>,
    pos: int,
    sv: StateV,
    desired: Type,
) -> Result<(StateV, int), AstErrV> {
    match params_spec(tokens, pos, sv) {
        Err(e) => Err(e),
        Ok((params, p1, sv1, term)) => match sv_add_function(
            sv1,
            name,
            FuncV::Simple { name, params, body: None, ret: desired },
        ) {
            Err(m) => Err(AstErrV::Program(m)),
            Ok(sv2) => match term {
                Keyword::Kerchow => match consume_eval_spec(tokens, p1, sv2, desired) {
                    Err(e) => Err(e),
                    Ok((body, p2)) => {
                        let sv3 = StateV {
                            funcs: sv2.funcs.insert(
                                name,
                                FuncV::Simple {
                                    name,
                                    params,
                                    body: Some(Box::new(body)),
                                    ret: desired,
                                },
                            ),
                            ..sv2
                        };
                        Ok((StateV { overrides: Map::empty(), ..sv3 }, p2))
                    },
                },
                Keyword::Bar => match stages_spec(
                    tokens,
                    p1,
                    sv2,
                    name,
                    params,
                    desired,
                    Seq::empty(),
                ) {
                    Err(e) => Err(e),
                    Ok((sv3, p2)) => Ok((StateV { overrides: Map::empty(), ..sv3 }, p2)),
                },
                _ => Err(AstErrV::Program("parser position error"@)),
            },
        },
    }
}

/// The position of the next end-of-line token at or after `pos`.
pub open spec fn eol_from(tokens: Seq<TokenV>, pos: int) -> int
    decreases tokens.len() - pos,
{
    if pos < 0 || pos >= tokens.len() {
        tokens.len() as int
    } else if tokens[pos] == TokenV::Lang(PreToken::EOL) {
        pos
    } else {
        eol_from(tokens, pos + 1)
    }
}

/// The whole token stream as a sequence of top-level declarations: blank
/// and comment lines are skipped, `<Type> <name> := <expr>` declares a
/// variable, and `<Type> func <name> := ...` declares a function.
pub open spec fn gen_spec(tokens: Seq<TokenV>, pos: int, sv: StateV) -> Result<StateV, AstErrV>
    decreases tokens.len() - pos,
{
    if pos < 0 || pos >= tokens.len() {
        Ok(sv)
    } else {
        match tokens[pos] {
            TokenV::Lang(PreToken::COMMENT) => {
                let q = eol_from(tokens, pos + 1);
                if pos < q <= tokens.len() {
                    gen_spec(tokens, q, sv)
                } else {
                    Err(AstErrV::Program("parser position error"@))
                }
            },
            TokenV::Lang(PreToken::EOL) => gen_spec(tokens, pos + 1, sv),
            TokenV::Lang(PreToken::TYPE(t)) => if pos + 1 >= tokens.len() {
                Err(AstErrV::Program("Invalid token, wanted a function name"@))
            } else {
                match tokens[pos + 1] {
                    TokenV::Symb(vname) => if pos + 2 >= tokens.len() || tokens[pos + 2]
                        != TokenV::Lang(PreToken::KW(Keyword::Define)) {
                        Err(AstErrV::Program("Invalid token, wanted :="@))
                    } else {
                        match consume_eval_spec(tokens, pos + 3, sv, t) {
                            Err(e) => Err(e),
                            Ok((expr, p1)) => if !(pos + 3 < p1 <= tokens.len()) {
                                Err(AstErrV::Program("parser position error"@))
                            } else {
                                match sv_add_variable(sv, vname, expr) {
                                    Err(m) => Err(AstErrV::Program(m)),
                                    Ok(sv1) => gen_spec(tokens, p1, sv1),
                                }
                            },
                        }
                    },
                    TokenV::Lang(PreToken::KW(Keyword::Func)) => if pos + 2 >= tokens.len() {
                        Err(AstErrV::Program("Invalid token, wanted a function name"@))
                    } else {
                        match tokens[pos + 2] {
                            TokenV::Symb(fname) => if pos + 3 >= tokens.len() || tokens[pos + 3]
                                != TokenV::Lang(PreToken::KW(Keyword::Define)) {
                                Err(AstErrV::Program("Invalid token, wanted :="@))
                            } else {
                                match func_spec(fname, tokens, pos + 4, sv, t) {
                                    Err(e) => Err(e),
                                    Ok((sv1, p1)) => if !(pos < p1 <= tokens.len()) {
                                        Err(AstErrV::Program("parser position error"@))
                                    } else {
                                        gen_spec(tokens, p1, sv1)
                                    },
                                }
                            },
                            _ => gen_spec(tokens, pos + 3, sv),
                        }
                    },
                    _ => Err(AstErrV::Program("Invalid token, wanted a function name"@)),
                }
            },
            _ => Err(AstErrV::Program("Invalid token at line start"@)),
        }
    }
}

/// Parses one expression and checks its computed type against the declared
/// type.
pub fn consume_evaluation(
    tokens: &Vec<Token>,
    pos: usize,
    global_state: &GlobalState,
    desired_type: Type,
) -> (r: Result<(Evaluation, usize), AstError>)
    ensures
        match consume_eval_spec(tokens_view(tokens@), pos as int, global_state@, desired_type) {
            Ok((ev, p)) => (match r {
                Ok(pr) => pr.0@ == ev && pr.1 == p && pos < pr.1 <= tokens.len(),
                Err(_) => false,
            }),
            Err(e) => (match r {
                Err(re) => re@ == e,
                Ok(_) => false,
            }),
        },
{
    match Evaluation::from_tokens(tokens, pos, global_state) {
        Err(e) => Err(e),
        Ok((e, p)) => {
            let t = e.get_type();
            if t != desired_type {
                Err(
                    AstError::Type(
                        TypeError {
                            message: String::from_str("Type mismatch"),
                            expected: desired_type,
                            found: t,
                        },
                    ),
                )
            } else {
                Ok((e, p))
            }
        },
    }
}

/// Collects the assignments of one stage, in declaration order, installing
/// a type override for each assigned name.
fn collect_stage(tokens: &Vec<Token>, pos: usize, global_state: &mut GlobalState) -> (r: Result<
    (Vec<(Symbol, Box<Evaluation>, RunType)>, usize),
    AstError,
>)
    ensures
        match stage_spec(tokens_view(tokens@), pos as int, old(global_state)@) {
            Ok((assigns, p, sv)) => (match r {
                Ok(pr) => crate::semantics::assigns_view(pr.0@) == assigns && pr.1 == p && pos
                    <= pr.1 < tokens.len() && final(global_state)@ == sv,
                Err(_) => false,
            }),
            Err(e) => (match r {
                Err(re) => re@ == e,
                Ok(_) => false,
            }),
        },
    decreases tokens.len() - pos,
{
    if pos >= tokens.len() {
        return Err(
            AstError::Program(
                ProgramError { message: String::from_str("unexpected end of tokens") },
            ),
        );
    }
    match &tokens[pos] {
        Token::Lang(PreToken::KW(Keyword::Kerchow)) => {
            let out: Vec<(Symbol, Box<Evaluation>, RunType)> = Vec::new();
            proof {
                assert(crate::semantics::assigns_view(out@) =~= Seq::<AssignV>::empty());
            }
            Ok((out, pos))
        },
        Token::Lang(PreToken::EOL) => collect_stage(tokens, pos + 1, global_state),
        Token::Lang(PreToken::KW(Keyword::Bar)) => collect_stage(tokens, pos + 1, global_state),
        Token::Lang(PreToken::TYPE(t)) => {
            if tokens.len() - pos < 2 {
                return Err(
                    AstError::Program(
                        ProgramError { message: String::from_str("unexpected end of tokens") },
                    ),
                );
            }
            match &tokens[pos + 1] {
                Token::Symb(aname) => {
                    let def_ok = if tokens.len() - pos < 3 {
                        false
                    } else {
                        matches!(&tokens[pos + 2], Token::Lang(PreToken::KW(Keyword::Define)))
                    };
                    if !def_ok {
                        return Err(
                            AstError::Program(
                                ProgramError {
                                    message: String::from_str("Invalid token, wanted :="),
                                },
                            ),
                        );
                    }
                    let (body, p1) = match consume_evaluation(tokens, pos + 3, global_state, *t) {
                        Ok(x) => x,
                        Err(e) => {
                            return Err(e);
                        },
                    };
                    global_state.override_variables(aname.clone(), *t);
                    if p1 >= tokens.len() {
                        return Err(
                            AstError::Program(
                                ProgramError {
                                    message: String::from_str("unexpected end of tokens"),
                                },
                            ),
                        );
                    }
                    let is_bar = matches!(&tokens[p1], Token::Lang(PreToken::KW(Keyword::Bar)));
                    if is_bar {
                        if tokens.len() - p1 < 2 {
                            return Err(
                                AstError::Program(
                                    ProgramError {
                                        message: String::from_str("unexpected end of tokens"),
                                    },
                                ),
                            );
                        }
                        let is_kick = matches!(
                            &tokens[p1 + 1],
                            Token::Lang(PreToken::KW(Keyword::Kick))
                        );
                        if !is_kick {
                            return Err(
                                AstError::Program(
                                    ProgramError {
                                        message: String::from_str("expected kick after bar"),
                                    },
                                ),
                            );
                        }
                        let p2 = if tokens.len() - p1 >= 3 {
                            p1 + 3
                        } else {
                            tokens.len()
                        };
                        match collect_stage(tokens, p2, global_state) {
                            Err(e) => Err(e),
                            Ok((rest, p3)) => {
                                let mut out = rest;
                                let ghost restv = out@;
                                out.insert(0, (aname.clone(), Box::new(body), RunType::Thread));
                                proof {
                                    assert(crate::semantics::assigns_view(out@) =~= seq![
                                        AssignV {
                                            name: aname@,
                                            expr: body@,
                                            tag: RunType::Thread,
                                        },
                                    ] + crate::semantics::assigns_view(restv));
                                }
                                Ok((out, p3))
                            },
                        }
                    } else {
                        match collect_stage(tokens, p1, global_state) {
                            Err(e) => Err(e),
                            Ok((rest, p3)) => {
                                let mut out = rest;
                                let ghost restv = out@;
                                out.insert(0, (aname.clone(), Box::new(body), RunType::Regular));
                                proof {
                                    assert(crate::semantics::assigns_view(out@) =~= seq![
                                        AssignV {
                                            name: aname@,
                                            expr: body@,
                                            tag: RunType::Regular,
                                        },
                                    ] + crate::semantics::assigns_view(restv));
                                }
                                Ok((out, p3))
                            },
                        }
                    }
                },
                _ => Err(
                    AstError::Program(
                        ProgramError {
                            message: String::from_str("expected a name in stage assignment"),
                        },
                    ),
                ),
            }
        },
        _ => Err(
            AstError::Program(
                ProgramError { message: String::from_str("unexpected token in stage") },
            ),
        ),
    }
}

/// Parses one stage: its assignments in declaration order, stored with
/// thread-tagged assignments first. The returned position points at the
/// terminating `=>` token.
pub fn consume_function_stage(
    tokens: &Vec<Token>,
    pos: usize,
    global_state: &mut GlobalState,
) -> (r: Result<(FunctionStage, usize), AstError>)
    ensures
        match stage_spec(tokens_view(tokens@), pos as int, old(global_state)@) {
            Ok((assigns, p, sv)) => (match r {
                Ok(pr) => pr.0@.assigns == threads_first(assigns) && pr.1 == p && pos <= pr.1
                    < tokens.len() && final(global_state)@ == sv,
                Err(_) => false,
            }),
            Err(e) => (match r {
                Err(re) => re@ == e,
                Ok(_) => false,
            }),
        },
{
    match collect_stage(tokens, pos, global_state) {
        Err(e) => Err(e),
        Ok((assignments, p)) => Ok((FunctionStage::new(assignments), p)),
    }
}

/// Collects a function declaration's parameter list up to its terminator,
/// installing a type override for each parameter name.
fn consume_func_params(
    tokens: &Vec<Token>,
    pos: usize,
    global_state: &mut GlobalState,
) -> (r: Result<(Vec<(Symbol, Type)>, usize, Keyword), AstError>)
    ensures
        match params_spec(tokens_view(tokens@), pos as int, old(global_state)@) {
            Ok((params, p, sv, term)) => (match r {
                Ok(pr) => params_view(pr.0@) == params && pr.1 == p && pr.2 == term && pos < pr.1
                    <= tokens.len() && final(global_state)@ == sv,
                Err(_) => false,
            }),
            Err(e) => (match r {
                Err(re) => re@ == e,
                Ok(_) => false,
            }),
        },
    decreases tokens.len() - pos,
{
    if pos >= tokens.len() {
        return Err(
            AstError::Program(
                ProgramError { message: String::from_str("unexpected end of tokens") },
            ),
        );
    }
    match &tokens[pos] {
        Token::Lang(PreToken::KW(Keyword::Kerchow)) => {
            let out: Vec<(Symbol, Type)> = Vec::new();
            proof {
                assert(params_view(out@) =~= Seq::<(Seq<char>, Type)>::empty());
            }
            Ok((out, pos + 1, Keyword::Kerchow))
        },
        Token::Lang(PreToken::KW(Keyword::Bar)) => {
            let out: Vec<(Symbol, Type)> = Vec::new();
            proof {
                assert(params_view(out@) =~= Seq::<(Seq<char>, Type)>::empty());
            }
            Ok((out, pos + 1, Keyword::Bar))
        },
        Token::Symb(pname) => {
            let colon_ok = if tokens.len() - pos < 2 {
                false
            } else {
                matches!(&tokens[pos + 1], Token::Lang(PreToken::DEL(Delimeter::Colon)))
            };
            if !colon_ok {
                return Err(
                    AstError::Program(
                        ProgramError { message: String::from_str("Invalid token, wanted :") },
                    ),
                );
            }
            if tokens.len() - pos < 3 {
                return Err(
                    AstError::Program(
                        ProgramError {
                            message: String::from_str("Invalid token, wanted a type"),
                        },
                    ),
                );
            }
            match &tokens[pos + 2] {
                Token::Lang(PreToken::TYPE(t)) => {
                    global_state.override_variables(pname.clone(), *t);
                    match consume_func_params(tokens, pos + 3, global_state) {
                        Err(e) => Err(e),
                        Ok((rest, p, term)) => {
                            let mut out = rest;
                            let ghost restv = out@;
                            out.insert(0, (pname.clone(), *t));
                            proof {
                                assert(params_view(out@) =~= seq![(pname@, *t)] + params_view(
                                    restv,
                                ));
                            }
                            Ok((out, p, term))
                        },
                    }
                },
                _ => Err(
                    AstError::Program(
                        ProgramError {
                            message: String::from_str("Invalid token, wanted a type"),
                        },
                    ),
                ),
            }
        },
        _ => consume_func_params(tokens, pos + 1, global_state),
    }
}

/// Parses the stages of a Breakout function body and, at the first line
/// that is not another stage, its final expression; the finished function
/// replaces the registered signature.
fn consume_breakout_stages(
    tokens: &Vec<Token>,
    pos: usize,
    global_state: &mut GlobalState,
    name: &Symbol,
    params: &Vec<(Symbol, Type)>,
    desired: Type,
    stages: Vec<FunctionStage>,
) -> (r: Result<usize, AstError>)
    ensures
        match stages_spec(
            tokens_view(tokens@),
            pos as int,
            old(global_state)@,
            name@,
            params_view(params@),
            desired,
            stages_view(stages@),
        ) {
            Ok((sv, p)) => (match r {
                Ok(rp) => rp == p && pos < rp <= tokens.len() && final(global_state)@ == sv,
                Err(_) => false,
            }),
            Err(e) => (match r {
                Err(re) => re@ == e,
                Ok(_) => false,
            }),
        },
    decreases tokens.len() - pos,
{
    let ghost acc = stages_view(stages@);
    match consume_function_stage(tokens, pos, global_state) {
        Err(e) => Err(e),
        Ok((fs, p1)) => {
            let mut stages2 = stages;
            let ghost stages_before = stages2@;
            stages2.push(fs);
            proof {
                assert(stages_view(stages2@) =~= acc.push(fs@));
            }
            let p2 = p1 + 1;
            if p2 >= tokens.len() {
                return Err(
                    AstError::Program(
                        ProgramError { message: String::from_str("unexpected end of tokens") },
                    ),
                );
            }
            let is_eol = matches!(&tokens[p2], Token::Lang(PreToken::EOL));
            if is_eol {
                consume_breakout_stages(tokens, p2, global_state, name, params, desired, stages2)
            } else {
                match consume_evaluation(tokens, p2, global_state, desired) {
                    Err(e) => Err(e),
                    Ok((fe, p3)) => {
                        let func = Function::Breakout {
                            name: name.clone(),
                            args: crate::env::clone_params(params),
                            stages: stages2,
                            final_eval: Box::new(fe),
                            return_type: desired,
                        };
                        proof {
                            assert(func@ =~= (FuncV::Breakout {
                                name: name@,
                                params: params_view(params@),
                                stages: acc.push(fs@),
                                final_expr: Box::new(fe@),
                                ret: desired,
                            }));
                        }
                        global_state.set_function_body_breakout(name.clone(), func);
                        Ok(p3)
                    },
                }
            }
        },
    }
}

/// Parses one function declaration after its `:=`: the parameter list,
/// followed by a Simple body or by staged assignments. The registered
/// signature comes first so the body can call the function; the transient
/// overrides are dropped when the declaration finishes, whether it
/// succeeds or fails.
pub fn consume_function(
    name: Symbol,
    tokens: &Vec<Token>,
    pos: usize,
    global_state: &mut GlobalState,
    desired_type: Type,
) -> (r: Result<usize, AstError>)
    ensures
        match func_spec(name@, tokens_view(tokens@), pos as int, old(global_state)@, desired_type) {
            Ok((sv, p)) => (match r {
                Ok(rp) => rp == p && pos < rp <= tokens.len() && final(global_state)@ == sv,
                Err(_) => false,
            }),
            Err(e) => (match r {
                Err(re) => re@ == e,
                Ok(_) => false,
            }),
        },
        r is Err ==> final(global_state)@.overrides == Map::<Seq<char>, Type>::empty(),
{
    let (params, p1, term) = match consume_func_params(tokens, pos, global_state) {
        Ok(x) => x,
        Err(e) => {
            global_state.clear_overrides();
            return Err(e);
        },
    };
    let func = Function::Simple {
        name: name.clone(),
        args: crate::env::clone_params(&params),
        body: None,
        return_type: desired_type,
    };
    match global_state.add_function(name.clone(), func) {
        Err(pe) => {
            global_state.clear_overrides();
            return Err(AstError::Program(pe));
        },
        Ok(_) => {},
    }
    match term {
        Keyword::Kerchow => {
            let (body, p2) = match consume_evaluation(tokens, p1, global_state, desired_type) {
                Ok(x) => x,
                Err(e) => {
                    global_state.clear_overrides();
                    return Err(e);
                },
            };
            global_state.set_function_body(name.clone(), body);
            global_state.clear_overrides();
            Ok(p2)
        },
        Keyword::Bar => {
            let stages: Vec<FunctionStage> = Vec::new();
            proof {
                assert(stages_view(stages@) =~= Seq::<StageV>::empty());
            }
            let rp = match consume_breakout_stages(
                tokens,
                p1,
                global_state,
                &name,
                &params,
                desired_type,
                stages,
            ) {
                Ok(p) => p,
                Err(e) => {
                    global_state.clear_overrides();
                    return Err(e);
                },
            };
            global_state.clear_overrides();
            Ok(rp)
        },
        _ => {
            global_state.clear_overrides();
            Err(
                AstError::Program(
                    ProgramError { message: String::from_str("parser position error") },
                ),
            )
        },
    }
}

/// The position of the next end-of-line token at or after `pos`.
fn skip_to_eol(tokens: &Vec<Token>, pos: usize) -> (r: usize)
    requires
        pos <= tokens.len(),
    ensures
        r as int == eol_from(tokens_view(tokens@), pos as int),
        pos <= r <= tokens.len(),
    decreases tokens.len() - pos,
{
    if pos >= tokens.len() {
        return tokens.len();
    }
    let is_eol = matches!(&tokens[pos], Token::Lang(PreToken::EOL));
    if is_eol {
        pos
    } else {
        skip_to_eol(tokens, pos + 1)
    }
}

/// Processes the top-level declarations from `pos` to the end of the
/// stream.
fn gen_decls(tokens: &Vec<Token>, pos: usize, global_state: &mut GlobalState) -> (r: Result<
    (),
    AstError,
>)
    requires
        pos <= tokens.len(),
    ensures
        match gen_spec(tokens_view(tokens@), pos as int, old(global_state)@) {
            Ok(sv) => r is Ok && final(global_state)@ == sv,
            Err(e) => (match r {
                Err(re) => re@ == e,
                Ok(_) => false,
            }),
        },
        old(global_state)@.overrides == Map::<Seq<char>, Type>::empty() && r is Err
            ==> final(global_state)@.overrides == Map::<Seq<char>, Type>::empty(),
    decreases tokens.len() - pos,
{
    if pos >= tokens.len() {
        return Ok(());
    }
    match &tokens[pos] {
        Token::Lang(PreToken::COMMENT) => {
            let q = skip_to_eol(tokens, pos + 1);
            gen_decls(tokens, q, global_state)
        },
        Token::Lang(PreToken::EOL) => gen_decls(tokens, pos + 1, global_state),
        Token::Lang(PreToken::TYPE(t)) => {
            if tokens.len() - pos < 2 {
                return Err(
                    AstError::Program(
                        ProgramError {
                            message: String::from_str("Invalid token, wanted a function name"),
                        },
                    ),
                );
            }
            match &tokens[pos + 1] {
                Token::Symb(vname) => {
                    let def_ok = if tokens.len() - pos < 3 {
                        false
                    } else {
                        matches!(&tokens[pos + 2], Token::Lang(PreToken::KW(Keyword::Define)))
                    };
                    if !def_ok {
                        return Err(
                            AstError::Program(
                                ProgramError {
                                    message: String::from_str("Invalid token, wanted :="),
                                },
                            ),
                        );
                    }
                    let (expr, p1) = match consume_evaluation(tokens, pos + 3, global_state, *t) {
                        Ok(x) => x,
                        Err(e) => {
                            return Err(e);
                        },
                    };
                    match global_state.add_variable(vname.clone(), expr) {
                        Err(pe) => Err(AstError::Program(pe)),
                        Ok(_) => gen_decls(tokens, p1, global_state),
                    }
                },
                Token::Lang(PreToken::KW(Keyword::Func)) => {
                    if tokens.len() - pos < 3 {
                        return Err(
                            AstError::Program(
                                ProgramError {
                                    message: String::from_str(
                                        "Invalid token, wanted a function name",
                                    ),
                                },
                            ),
                        );
                    }
                    match &tokens[pos + 2] {
                        Token::Symb(fname) => {
                            let def_ok = if tokens.len() - pos < 4 {
                                false
                            } else {
                                matches!(
                                    &tokens[pos + 3],
                                    Token::Lang(PreToken::KW(Keyword::Define))
                                )
                            };
                            if !def_ok {
                                return Err(
                                    AstError::Program(
                                        ProgramError {
                                            message: String::from_str("Invalid token, wanted :="),
                                        },
                                    ),
                                );
                            }
                            let p1 = match consume_function(
                                fname.clone(),
                                tokens,
                                pos + 4,
                                global_state,
                                *t,
                            ) {
                                Ok(p) => p,
                                Err(e) => {
                                    return Err(e);
                                },
                            };
                            gen_decls(tokens, p1, global_state)
                        },
                        _ => gen_decls(tokens, pos + 3, global_state),
                    }
                },
                _ => Err(
                    AstError::Program(
                        ProgramError {
                            message: String::from_str("Invalid token, wanted a function name"),
                        },
                    ),
                ),
            }
        },
        _ => Err(
            AstError::Program(
                ProgramError { message: String::from_str("Invalid token at line start") },
            ),
        ),
    }
}

/// Transforms the whole token stream into declarations inside the global
/// program state, enforcing static typing before any evaluation occurs. A
/// failed load reports its first error; the partially filled state is then
/// discarded by callers, so no partial program runs — and the transient
/// type overrides are empty either way.
pub fn generate_ast(tokens: &Vec<Token>, global_state: &mut GlobalState) -> (r: Result<
    (),
    AstError,
>)
    ensures
        match gen_spec(tokens_view(tokens@), 0, old(global_state)@) {
            Ok(sv) => r is Ok && final(global_state)@ == sv,
            Err(e) => (match r {
                Err(re) => re@ == e,
                Ok(_) => false,
            }),
        },
        old(global_state)@.overrides == Map::<Seq<char>, Type>::empty() && r is Err
            ==> final(global_state)@.overrides == Map::<Seq<char>, Type>::empty(),
{
    gen_decls(tokens, 0, global_state)
}

} // verus!
