//! Laws of the language, stated and proved over the specification-level
//! model: what the program builder guarantees about every expression it
//! accepts, and how the evaluator treats conditionals, string
//! concatenation, stage isolation and self-referencing declarations.
use vstd::prelude::*;
use crate::ast_generator::{parse_args_spec, parse_expr_spec};
use crate::errors::EvalError;
use crate::functions::RunType;
use crate::scanner::{Operator, Type};
use crate::primitives::prim_op_type;
use crate::semantics::{
    eval_expr, eval_regulars, eval_stage, eval_threads, expr_type, func_params, lit_type,
    param_types, prim_op_result, regular_part, sv_add_variable, sv_type_of, sv_wf,
    symbols_contain, thread_part, threads_first, AssignV, EnvV, ExprV, FuncsV, FuncV, LitV,
    StageV, StateV,
};

verus! {

/// Whether every function call inside an expression was built against the
/// declared signatures of `sv`, and every conditional is well-formed: a
/// call names a declared function, hands it exactly as many arguments as
/// it has parameters, each of the parameter's declared type; a
/// conditional's condition types to Bool and its branches agree.
pub open spec fn static_wt(e: ExprV, sv: StateV) -> bool
    decreases e, 1int,
{
    match e {
        ExprV::Lit(_) => true,
        ExprV::PrimOp { arg1, arg2, .. } => static_wt(*arg1, sv) && match arg2 {
            Some(a) => static_wt(*a, sv),
            None => true,
        },
        ExprV::Var { .. } => true,
        ExprV::Cond { cond, on_true, otherwise } => static_wt(*cond, sv) && static_wt(*on_true, sv)
            && static_wt(*otherwise, sv) && expr_type(*cond) == Type::Bool && expr_type(*on_true)
            == expr_type(*otherwise),
        ExprV::Call { name, args, .. } => sv.funcs.contains_key(name) && args.len() == func_params(
            sv.funcs[name],
        ).len() && (forall|i: int|
            0 <= i < args.len() ==> expr_type(#[trigger] args[i]) == param_types(
                func_params(sv.funcs[name]),
            )[i]) && static_wt_list(args, sv),
    }
}

pub open spec fn static_wt_list(s: Seq<ExprV>, sv: StateV) -> bool
    decreases s, 2int,
{
    if s.len() == 0 {
        true
    } else {
        static_wt(s[0], sv) && static_wt_list(s.drop_first(), sv)
    }
}

/// Every expression the parser accepts is statically well typed in the
/// sense of `static_wt`: a call with a wrong arity or a wrongly typed
/// argument, and a conditional with a non-boolean condition or unequal
/// branch types, are rejected while the program is built, never later.
pub proof fn lemma_parser_output_well_typed(
    tokens: Seq<crate::semantics::TokenV>,
    pos: int,
    sv: StateV,
    e: ExprV,
    p: int,
)
    requires
        parse_expr_spec(tokens, pos, sv) == Ok::<(ExprV, int), crate::semantics::AstErrV>((e, p)),
    ensures
        static_wt(e, sv),
    decreases tokens.len() - pos, 0int,
{
    if pos < 0 || pos >= tokens.len() {
    } else {
        match tokens[pos] {
            crate::semantics::TokenV::Lit(_) => {},
            crate::semantics::TokenV::Lang(crate::scanner::PreToken::OP(Operator::Cond)) => {
                match parse_expr_spec(tokens, pos + 1, sv) {
                    Err(_) => {},
                    Ok((c, p1)) => {
                        lemma_parser_output_well_typed(tokens, pos + 1, sv, c, p1);
                        if pos + 1 <= p1 < tokens.len() + 1 {
                            match parse_expr_spec(tokens, p1, sv) {
                                Err(_) => {},
                                Ok((t, p2)) => {
                                    lemma_parser_output_well_typed(tokens, p1, sv, t, p2);
                                    if p1 <= p2 < tokens.len() + 1 {
                                        match parse_expr_spec(tokens, p2, sv) {
                                            Err(_) => {},
                                            Ok((o, p3)) => {
                                                lemma_parser_output_well_typed(
                                                    tokens,
                                                    p2,
                                                    sv,
                                                    o,
                                                    p3,
                                                );
                                            },
                                        }
                                    }
                                },
                            }
                        }
                    },
                }
            },
            crate::semantics::TokenV::Lang(crate::scanner::PreToken::OP(op)) => {
                match parse_expr_spec(tokens, pos + 1, sv) {
                    Err(_) => {},
                    Ok((a1, p1)) => {
                        lemma_parser_output_well_typed(tokens, pos + 1, sv, a1, p1);
                        if op != Operator::Not && op != Operator::Floor && pos + 1 <= p1
                            < tokens.len() + 1 {
                            match parse_expr_spec(tokens, p1, sv) {
                                Err(_) => {},
                                Ok((a2, p2)) => {
                                    lemma_parser_output_well_typed(tokens, p1, sv, a2, p2);
                                },
                            }
                        }
                    },
                }
            },
            crate::semantics::TokenV::Lang(
                crate::scanner::PreToken::DEL(crate::scanner::Delimeter::LPar),
            ) => {
                match parse_expr_spec(tokens, pos + 1, sv) {
                    Err(_) => {},
                    Ok((inner, p1)) => {
                        lemma_parser_output_well_typed(tokens, pos + 1, sv, inner, p1);
                    },
                }
            },
            crate::semantics::TokenV::Symb(name) => {
                match sv_type_of(sv, name) {
                    None => {},
                    Some(_) => {
                        if sv.funcs.contains_key(name) {
                            match parse_args_spec(
                                tokens,
                                pos + 1,
                                sv,
                                param_types(func_params(sv.funcs[name])),
                            ) {
                                Err(_) => {},
                                Ok((args, p1)) => {
                                    lemma_parsed_args_well_typed(
                                        tokens,
                                        pos + 1,
                                        sv,
                                        param_types(func_params(sv.funcs[name])),
                                        args,
                                        p1,
                                    );
                                },
                            }
                        }
                    },
                }
            },
            _ => {},
        }
    }
}

/// Every argument list the parser accepts has exactly one argument per
/// expected parameter type, each argument's static type equal to its
/// parameter's type, and each argument itself well typed.
pub proof fn lemma_parsed_args_well_typed(
    tokens: Seq<crate::semantics::TokenV>,
    pos: int,
    sv: StateV,
    ptypes: Seq<Type>,
    args: Seq<ExprV>,
    p: int,
)
    requires
        parse_args_spec(tokens, pos, sv, ptypes) == Ok::<
            (Seq<ExprV>, int),
            crate::semantics::AstErrV,
        >((args, p)),
    ensures
        args.len() == ptypes.len(),
        forall|i: int| 0 <= i < args.len() ==> expr_type(#[trigger] args[i]) == ptypes[i],
        static_wt_list(args, sv),
    decreases tokens.len() - pos, ptypes.len() + 1,
{
    if ptypes.len() == 0 {
    } else if pos < 0 || pos > tokens.len() {
    } else {
        match parse_expr_spec(tokens, pos, sv) {
            Err(_) => {},
            Ok((a, p1)) => {
                if pos < p1 <= tokens.len() && expr_type(a) == ptypes[0] {
                    lemma_parser_output_well_typed(tokens, pos, sv, a, p1);
                    match parse_args_spec(tokens, p1, sv, ptypes.subrange(1, ptypes.len() as int)) {
                        Err(_) => {},
                        Ok((rest, p2)) => {
                            lemma_parsed_args_well_typed(
                                tokens,
                                p1,
                                sv,
                                ptypes.subrange(1, ptypes.len() as int),
                                rest,
                                p2,
                            );
                            assert(args == seq![a] + rest);
                            assert(args.drop_first() =~= rest);
                            assert(args[0] == a);
                        },
                    }
                }
            },
        }
    }
}

/// A primitive operation's runtime result carries exactly the type the
/// static operator table assigns to its operands' runtime types.
pub proof fn lemma_prim_op_type_sound(op: Operator, a: LitV, b: LitV, v: LitV)
    requires
        prim_op_result(op, a, b) == Ok::<LitV, EvalError>(v),
    ensures
        lit_type(v) == prim_op_type(op, lit_type(a), lit_type(b)),
{
}

/// Whether an expression mentions no name at all: only literals, operator
/// applications and conditionals.
pub open spec fn closed_expr(e: ExprV) -> bool
    decreases e,
{
    match e {
        ExprV::Lit(_) => true,
        ExprV::PrimOp { arg1, arg2, .. } => closed_expr(*arg1) && match arg2 {
            Some(a) => closed_expr(*a),
            None => true,
        },
        ExprV::Cond { cond, on_true, otherwise } => closed_expr(*cond) && closed_expr(*on_true)
            && closed_expr(*otherwise) && expr_type(*on_true) == expr_type(*otherwise),
        _ => false,
    }
}

/// Evaluation preserves static types on closed expressions: whenever a
/// closed expression with agreeing conditional branches evaluates to a
/// value, that value's type tag is the expression's static type.
pub proof fn lemma_eval_type_closed(e: ExprV, vars: EnvV, funcs: FuncsV, fuel: nat, v: LitV)
    requires
        closed_expr(e),
        eval_expr(e, vars, funcs, fuel) == Ok::<LitV, EvalError>(v),
    ensures
        lit_type(v) == expr_type(e),
    decreases fuel,
{
    if fuel == 0 {
    } else {
        match e {
            ExprV::Lit(_) => {},
            ExprV::PrimOp { op, arg1, arg2 } => {
                match eval_expr(*arg1, vars, funcs, (fuel - 1) as nat) {
                    Err(_) => {},
                    Ok(v1) => {
                        lemma_eval_type_closed(*arg1, vars, funcs, (fuel - 1) as nat, v1);
                        let r2 = match arg2 {
                            Some(a2) => eval_expr(*a2, vars, funcs, (fuel - 1) as nat),
                            None => Ok(LitV::Void),
                        };
                        match r2 {
                            Err(_) => {},
                            Ok(v2) => {
                                match arg2 {
                                    Some(a2) => {
                                        lemma_eval_type_closed(
                                            *a2,
                                            vars,
                                            funcs,
                                            (fuel - 1) as nat,
                                            v2,
                                        );
                                    },
                                    None => {},
                                }
                                lemma_prim_op_type_sound(op, v1, v2, v);
                            },
                        }
                    },
                }
            },
            ExprV::Cond { cond, on_true, otherwise } => {
                match eval_expr(*cond, vars, funcs, (fuel - 1) as nat) {
                    Err(_) => {},
                    Ok(LitV::Bool(b)) => {
                        if b {
                            lemma_eval_type_closed(*on_true, vars, funcs, (fuel - 1) as nat, v);
                        } else {
                            lemma_eval_type_closed(*otherwise, vars, funcs, (fuel - 1) as nat, v);
                        }
                    },
                    Ok(_) => {},
                }
            },
            _ => {},
        }
    }
}

/// After a well-typed variable declaration `T n := e` (with `n` not the
/// entry-point name and no override active for `n`), the declared name
/// statically resolves to `T`.
pub proof fn lemma_declared_variable_type(sv: StateV, n: Seq<char>, e: ExprV, t: Type, sv2: StateV)
    requires
        expr_type(e) == t,
        sv_add_variable(sv, n, e) == Ok::<StateV, Seq<char>>(sv2),
        n != "main"@,
        !sv2.overrides.contains_key(n),
    ensures
        sv_type_of(sv2, n) == Some(t),
{
}

/// Looking up a declared variable whose stored expression is closed and of
/// the declared type yields a value of that type.
pub proof fn lemma_variable_type_sound(
    n: Seq<char>,
    t: Type,
    vars: EnvV,
    funcs: FuncsV,
    fuel: nat,
    v: LitV,
)
    requires
        vars.contains_key(n),
        closed_expr(vars[n]),
        expr_type(vars[n]) == t,
        eval_expr(ExprV::Var { name: n, typ: t }, vars, funcs, fuel) == Ok::<LitV, EvalError>(v),
    ensures
        lit_type(v) == t,
{
    if fuel > 0 {
        lemma_eval_type_closed(vars[n], vars, funcs, (fuel - 1) as nat, v);
    }
}

/// A name contained in the namespace is still contained after another
/// name is registered, and the registered name is contained.
proof fn lemma_symbols_contain_push(s: Seq<Seq<char>>, a: Seq<char>, k: Seq<char>)
    requires
        symbols_contain(s, k) || k == a,
    ensures
        symbols_contain(s.push(a), k),
{
    if k == a {
        assert(s.push(a)[s.len() as int] == k);
    } else {
        let j = choose|j: int| 0 <= j < s.len() && s[j] == k;
        assert(s.push(a)[j] == k);
    }
}

/// A state with no variables and no functions is well formed.
pub proof fn lemma_empty_state_wf(sv: StateV)
    requires
        sv.vars == Map::<Seq<char>, ExprV>::empty(),
        sv.funcs == Map::<Seq<char>, FuncV>::empty(),
    ensures
        sv_wf(sv),
{
}

/// Declaring a variable keeps the state well formed: the new name is
/// registered, nothing else moves, and the entry-point name goes to the
/// entry expression, never into the variable mapping.
pub proof fn lemma_add_variable_preserves_wf(sv: StateV, k: Seq<char>, v: ExprV, sv2: StateV)
    requires
        sv_wf(sv),
        sv_add_variable(sv, k, v) == Ok::<StateV, Seq<char>>(sv2),
    ensures
        sv_wf(sv2),
{
    assert forall|k2: Seq<char>| #[trigger]
        sv2.vars.contains_key(k2) implies symbols_contain(sv2.symbols, k2) by {
        lemma_symbols_contain_push(sv.symbols, k, k2);
    }
    assert forall|k2: Seq<char>| #[trigger]
        sv2.funcs.contains_key(k2) implies symbols_contain(sv2.symbols, k2) by {
        lemma_symbols_contain_push(sv.symbols, k, k2);
    }
}

/// Declaring a function keeps the state well formed.
pub proof fn lemma_add_function_preserves_wf(sv: StateV, k: Seq<char>, f: FuncV, sv2: StateV)
    requires
        sv_wf(sv),
        crate::semantics::sv_add_function(sv, k, f) == Ok::<StateV, Seq<char>>(sv2),
    ensures
        sv_wf(sv2),
{
    assert forall|k2: Seq<char>| #[trigger]
        sv2.vars.contains_key(k2) implies symbols_contain(sv2.symbols, k2) by {
        lemma_symbols_contain_push(sv.symbols, k, k2);
    }
    assert forall|k2: Seq<char>| #[trigger]
        sv2.funcs.contains_key(k2) implies symbols_contain(sv2.symbols, k2) by {
        lemma_symbols_contain_push(sv.symbols, k, k2);
    }
}

/// Storing a function under an already registered name keeps the state
/// well formed; attaching a body or replacing a signature with a finished
/// Breakout function are both of this shape.
pub proof fn lemma_store_function_preserves_wf(sv: StateV, k: Seq<char>, f: FuncV)
    requires
        sv_wf(sv),
        symbols_contain(sv.symbols, k),
    ensures
        sv_wf(StateV { funcs: sv.funcs.insert(k, f), ..sv }),
{
}

/// After the entry point is declared, it is stored as the entry
/// expression and is not a variable.
pub proof fn lemma_entry_point_not_a_variable(sv: StateV, v: ExprV, sv2: StateV)
    requires
        sv_wf(sv),
        sv_add_variable(sv, "main"@, v) == Ok::<StateV, Seq<char>>(sv2),
    ensures
        sv_wf(sv2),
        !sv2.vars.contains_key("main"@),
        sv2.main_e == Some(v),
{
    lemma_add_variable_preserves_wf(sv, "main"@, v, sv2);
}

/// A parameter list changes nothing of the state but the transient type
/// overrides.
proof fn lemma_params_spec_keeps_decls(
    tokens: Seq<crate::semantics::TokenV>,
    pos: int,
    sv: StateV,
    params: Seq<(Seq<char>, Type)>,
    p: int,
    sv2: StateV,
    term: crate::scanner::Keyword,
)
    requires
        crate::ast_generator::params_spec(tokens, pos, sv) == Ok::<
            (Seq<(Seq<char>, Type)>, int, StateV, crate::scanner::Keyword),
            crate::semantics::AstErrV,
        >((params, p, sv2, term)),
    ensures
        sv2.symbols == sv.symbols,
        sv2.vars == sv.vars,
        sv2.funcs == sv.funcs,
        sv2.main_e == sv.main_e,
    decreases tokens.len() - pos,
{
    if pos < 0 || pos >= tokens.len() {
    } else {
        match tokens[pos] {
            crate::semantics::TokenV::Lang(crate::scanner::PreToken::KW(
                crate::scanner::Keyword::Kerchow,
            )) => {},
            crate::semantics::TokenV::Lang(crate::scanner::PreToken::KW(
                crate::scanner::Keyword::Bar,
            )) => {},
            crate::semantics::TokenV::Symb(pname) => {
                if pos + 1 < tokens.len() && tokens[pos + 1] == crate::semantics::TokenV::Lang(
                    crate::scanner::PreToken::DEL(crate::scanner::Delimeter::Colon),
                ) && pos + 2 < tokens.len() {
                    match tokens[pos + 2] {
                        crate::semantics::TokenV::Lang(crate::scanner::PreToken::TYPE(t)) => {
                            let sv1 = StateV { overrides: sv.overrides.insert(pname, t), ..sv };
                            match crate::ast_generator::params_spec(tokens, pos + 3, sv1) {
                                Err(_) => {},
                                Ok((rest, pr, svr, termr)) => {
                                    lemma_params_spec_keeps_decls(
                                        tokens,
                                        pos + 3,
                                        sv1,
                                        rest,
                                        pr,
                                        svr,
                                        termr,
                                    );
                                },
                            }
                        },
                        _ => {},
                    }
                }
            },
            _ => {
                match crate::ast_generator::params_spec(tokens, pos + 1, sv) {
                    Err(_) => {},
                    Ok((rest, pr, svr, termr)) => {
                        lemma_params_spec_keeps_decls(tokens, pos + 1, sv, rest, pr, svr, termr);
                    },
                }
            },
        }
    }
}

/// A stage changes nothing of the state but the transient type overrides.
proof fn lemma_stage_spec_keeps_decls(
    tokens: Seq<crate::semantics::TokenV>,
    pos: int,
    sv: StateV,
    assigns: Seq<AssignV>,
    p: int,
    sv2: StateV,
)
    requires
        crate::ast_generator::stage_spec(tokens, pos, sv) == Ok::<
            (Seq<AssignV>, int, StateV),
            crate::semantics::AstErrV,
        >((assigns, p, sv2)),
    ensures
        sv2.symbols == sv.symbols,
        sv2.vars == sv.vars,
        sv2.funcs == sv.funcs,
        sv2.main_e == sv.main_e,
    decreases tokens.len() - pos,
{
    if pos < 0 || pos >= tokens.len() {
    } else {
        match tokens[pos] {
            crate::semantics::TokenV::Lang(crate::scanner::PreToken::KW(
                crate::scanner::Keyword::Kerchow,
            )) => {},
            crate::semantics::TokenV::Lang(crate::scanner::PreToken::EOL) => {
                match crate::ast_generator::stage_spec(tokens, pos + 1, sv) {
                    Err(_) => {},
                    Ok((ar, pr, svr)) => {
                        lemma_stage_spec_keeps_decls(tokens, pos + 1, sv, ar, pr, svr);
                    },
                }
            },
            crate::semantics::TokenV::Lang(crate::scanner::PreToken::KW(
                crate::scanner::Keyword::Bar,
            )) => {
                match crate::ast_generator::stage_spec(tokens, pos + 1, sv) {
                    Err(_) => {},
                    Ok((ar, pr, svr)) => {
                        lemma_stage_spec_keeps_decls(tokens, pos + 1, sv, ar, pr, svr);
                    },
                }
            },
            crate::semantics::TokenV::Lang(crate::scanner::PreToken::TYPE(t)) => {
                if pos + 1 < tokens.len() {
                    match tokens[pos + 1] {
                        crate::semantics::TokenV::Symb(aname) => {
                            if pos + 2 < tokens.len() && tokens[pos + 2]
                                == crate::semantics::TokenV::Lang(
                                crate::scanner::PreToken::KW(crate::scanner::Keyword::Define),
                            ) {
                                match crate::ast_generator::consume_eval_spec(
                                    tokens,
                                    pos + 3,
                                    sv,
                                    t,
                                ) {
                                    Err(_) => {},
                                    Ok((body, p1)) => {
                                        if pos + 3 < p1 <= tokens.len() {
                                            let sv1 = StateV {
                                                overrides: sv.overrides.insert(aname, t),
                                                ..sv
                                            };
                                            if p1 < tokens.len() {
                                                if tokens[p1] == crate::semantics::TokenV::Lang(
                                                    crate::scanner::PreToken::KW(
                                                        crate::scanner::Keyword::Bar,
                                                    ),
                                                ) {
                                                    if p1 + 1 < tokens.len() && tokens[p1 + 1]
                                                        == crate::semantics::TokenV::Lang(
                                                        crate::scanner::PreToken::KW(
                                                            crate::scanner::Keyword::Kick,
                                                        ),
                                                    ) {
                                                        let p2 = if p1 + 3 <= tokens.len() {
                                                            p1 + 3
                                                        } else {
                                                            tokens.len() as int
                                                        };
                                                        match crate::ast_generator::stage_spec(
                                                            tokens,
                                                            p2,
                                                            sv1,
                                                        ) {
                                                            Err(_) => {},
                                                            Ok((ar, pr, svr)) => {
                                                                lemma_stage_spec_keeps_decls(
                                                                    tokens,
                                                                    p2,
                                                                    sv1,
                                                                    ar,
                                                                    pr,
                                                                    svr,
                                                                );
                                                            },
                                                        }
                                                    }
                                                } else {
                                                    match crate::ast_generator::stage_spec(
                                                        tokens,
                                                        p1,
                                                        sv1,
                                                    ) {
                                                        Err(_) => {},
                                                        Ok((ar, pr, svr)) => {
                                                            lemma_stage_spec_keeps_decls(
                                                                tokens,
                                                                p1,
                                                                sv1,
                                                                ar,
                                                                pr,
                                                                svr,
                                                            );
                                                        },
                                                    }
                                                }
                                            }
                                        }
                                    },
                                }
                            }
                        },
                        _ => {},
                    }
                }
            },
            _ => {},
        }
    }
}

/// Stage parsing touches only the overrides and, at its very end, stores
/// the finished Breakout function under the declared name.
proof fn lemma_stages_spec_keeps_decls(
    tokens: Seq<crate::semantics::TokenV>,
    pos: int,
    sv: StateV,
    name: Seq<char>,
    params: Seq<(Seq<char>, Type)>,
    desired: Type,
    acc: Seq<StageV>,
    sv2: StateV,
    p: int,
)
    requires
        crate::ast_generator::stages_spec(tokens, pos, sv, name, params, desired, acc) == Ok::<
            (StateV, int),
            crate::semantics::AstErrV,
        >((sv2, p)),
    ensures
        sv2.symbols == sv.symbols,
        sv2.vars == sv.vars,
        sv2.main_e == sv.main_e,
        forall|k: Seq<char>|
            #[trigger] sv2.funcs.contains_key(k) ==> sv.funcs.contains_key(k) || k == name,
    decreases tokens.len() - pos,
{
    match crate::ast_generator::stage_spec(tokens, pos, sv) {
        Err(_) => {},
        Ok((assigns, p1, sv1)) => {
            lemma_stage_spec_keeps_decls(tokens, pos, sv, assigns, p1, sv1);
            if pos <= p1 < tokens.len() {
                let stages2 = acc.push(StageV { assigns: threads_first(assigns) });
                let p2 = p1 + 1;
                if p2 < tokens.len() {
                    if tokens[p2] == crate::semantics::TokenV::Lang(
                        crate::scanner::PreToken::EOL,
                    ) {
                        match crate::ast_generator::stages_spec(
                            tokens,
                            p2,
                            sv1,
                            name,
                            params,
                            desired,
                            stages2,
                        ) {
                            Err(_) => {},
                            Ok((svr, pr)) => {
                                lemma_stages_spec_keeps_decls(
                                    tokens,
                                    p2,
                                    sv1,
                                    name,
                                    params,
                                    desired,
                                    stages2,
                                    svr,
                                    pr,
                                );
                            },
                        }
                    }
                }
            }
        },
    }
}

/// A function declaration keeps the state well formed: it registers the
/// one new name, touches no variable and no entry expression, and leaves
/// the overrides empty.
pub proof fn lemma_func_spec_wf(
    name: Seq<char>,
    tokens: Seq<crate::semantics::TokenV>,
    pos: int,
    sv: StateV,
    desired: Type,
    sv2: StateV,
    p: int,
)
    requires
        sv_wf(sv),
        crate::ast_generator::func_spec(name, tokens, pos, sv, desired) == Ok::<
            (StateV, int),
            crate::semantics::AstErrV,
        >((sv2, p)),
    ensures
        sv_wf(sv2),
        sv2.vars == sv.vars,
        sv2.main_e == sv.main_e,
        sv2.overrides == Map::<Seq<char>, Type>::empty(),
        sv2.symbols == sv.symbols.push(name),
{
    match crate::ast_generator::params_spec(tokens, pos, sv) {
        Err(_) => {},
        Ok((params, p1, sv1, term)) => {
            lemma_params_spec_keeps_decls(tokens, pos, sv, params, p1, sv1, term);
            assert(sv_wf(sv1));
            let simple = FuncV::Simple { name, params, body: None, ret: desired };
            match crate::semantics::sv_add_function(sv1, name, simple) {
                Err(_) => {},
                Ok(svr) => {
                    lemma_add_function_preserves_wf(sv1, name, simple, svr);
                    lemma_symbols_contain_push(sv1.symbols, name, name);
                    match term {
                        crate::scanner::Keyword::Kerchow => {
                            match crate::ast_generator::consume_eval_spec(
                                tokens,
                                p1,
                                svr,
                                desired,
                            ) {
                                Err(_) => {},
                                Ok((body, _p2)) => {
                                    let updated = FuncV::Simple {
                                        name,
                                        params,
                                        body: Some(Box::new(body)),
                                        ret: desired,
                                    };
                                    lemma_store_function_preserves_wf(svr, name, updated);
                                },
                            }
                        },
                        crate::scanner::Keyword::Bar => {
                            match crate::ast_generator::stages_spec(
                                tokens,
                                p1,
                                svr,
                                name,
                                params,
                                desired,
                                Seq::empty(),
                            ) {
                                Err(_) => {},
                                Ok((svs, _p2)) => {
                                    lemma_stages_spec_keeps_decls(
                                        tokens,
                                        p1,
                                        svr,
                                        name,
                                        params,
                                        desired,
                                        Seq::empty(),
                                        svs,
                                        _p2,
                                    );
                                    assert forall|k2: Seq<char>| #[trigger]
                                        svs.funcs.contains_key(k2) implies symbols_contain(
                                        svs.symbols,
                                        k2,
                                    ) by {
                                        if svr.funcs.contains_key(k2) {
                                        } else {
                                            assert(k2 == name);
                                        }
                                    }
                                    assert(sv_wf(svs));
                                },
                            }
                        },
                        _ => {},
                    }
                },
            }
        },
    }
}

/// A successful load keeps the state well formed, keeps every variable
/// already declared (with its stored expression unchanged), and leaves
/// the overrides empty if they started empty.
pub proof fn lemma_gen_spec_wf(
    tokens: Seq<crate::semantics::TokenV>,
    pos: int,
    sv: StateV,
    sv2: StateV,
)
    requires
        sv_wf(sv),
        crate::ast_generator::gen_spec(tokens, pos, sv) == Ok::<StateV, crate::semantics::AstErrV>(
            sv2,
        ),
    ensures
        sv_wf(sv2),
        forall|k: Seq<char>|
            #[trigger] sv.vars.contains_key(k) ==> sv2.vars.contains_key(k) && sv2.vars[k]
                == sv.vars[k],
        sv.overrides == Map::<Seq<char>, Type>::empty() ==> sv2.overrides == Map::<
            Seq<char>,
            Type,
        >::empty(),
    decreases tokens.len() - pos,
{
    if pos < 0 || pos >= tokens.len() {
    } else {
        match tokens[pos] {
            crate::semantics::TokenV::Lang(crate::scanner::PreToken::COMMENT) => {
                let q = crate::ast_generator::eol_from(tokens, pos + 1);
                if pos < q <= tokens.len() {
                    lemma_gen_spec_wf(tokens, q, sv, sv2);
                }
            },
            crate::semantics::TokenV::Lang(crate::scanner::PreToken::EOL) => {
                lemma_gen_spec_wf(tokens, pos + 1, sv, sv2);
            },
            crate::semantics::TokenV::Lang(crate::scanner::PreToken::TYPE(t)) => {
                if pos + 1 < tokens.len() {
                    match tokens[pos + 1] {
                        crate::semantics::TokenV::Symb(vname) => {
                            if pos + 2 < tokens.len() && tokens[pos + 2]
                                == crate::semantics::TokenV::Lang(
                                crate::scanner::PreToken::KW(crate::scanner::Keyword::Define),
                            ) {
                                match crate::ast_generator::consume_eval_spec(
                                    tokens,
                                    pos + 3,
                                    sv,
                                    t,
                                ) {
                                    Err(_) => {},
                                    Ok((expr, p1)) => {
                                        if pos + 3 < p1 <= tokens.len() {
                                            match sv_add_variable(sv, vname, expr) {
                                                Err(_) => {},
                                                Ok(sv1) => {
                                                    lemma_add_variable_preserves_wf(
                                                        sv,
                                                        vname,
                                                        expr,
                                                        sv1,
                                                    );
                                                    lemma_gen_spec_wf(tokens, p1, sv1, sv2);
                                                    assert forall|k: Seq<char>| #[trigger]
                                                        sv.vars.contains_key(
                                                            k,
                                                        ) implies sv2.vars.contains_key(k)
                                                        && sv2.vars[k] == sv.vars[k] by {
                                                        assert(k != vname);
                                                        assert(sv1.vars.contains_key(k)
                                                            && sv1.vars[k] == sv.vars[k]);
                                                    }
                                                },
                                            }
                                        }
                                    },
                                }
                            }
                        },
                        crate::semantics::TokenV::Lang(crate::scanner::PreToken::KW(
                            crate::scanner::Keyword::Func,
                        )) => {
                            if pos + 2 < tokens.len() {
                                match tokens[pos + 2] {
                                    crate::semantics::TokenV::Symb(fname) => {
                                        if pos + 3 < tokens.len() && tokens[pos + 3]
                                            == crate::semantics::TokenV::Lang(
                                            crate::scanner::PreToken::KW(
                                                crate::scanner::Keyword::Define,
                                            ),
                                        ) {
                                            match crate::ast_generator::func_spec(
                                                fname,
                                                tokens,
                                                pos + 4,
                                                sv,
                                                t,
                                            ) {
                                                Err(_) => {},
                                                Ok((sv1, p1)) => {
                                                    if pos < p1 <= tokens.len() {
                                                        lemma_func_spec_wf(
                                                            fname,
                                                            tokens,
                                                            pos + 4,
                                                            sv,
                                                            t,
                                                            sv1,
                                                            p1,
                                                        );
                                                        lemma_gen_spec_wf(tokens, p1, sv1, sv2);
                                                    }
                                                },
                                            }
                                        }
                                    },
                                    _ => {
                                        lemma_gen_spec_wf(tokens, pos + 3, sv, sv2);
                                    },
                                }
                            }
                        },
                        _ => {},
                    }
                }
            },
            _ => {},
        }
    }
}

/// For all well-typed variable declarations `T n := e` inside a program
/// whose load succeeds: the computed type of the parsed expression is `T`,
/// the loaded state still stores that very expression under `n`, and the
/// name statically resolves to `T`.
pub proof fn lemma_generated_variable_keeps_declared_type(
    tokens: Seq<crate::semantics::TokenV>,
    pos: int,
    sv: StateV,
    sv2: StateV,
    t: Type,
    vname: Seq<char>,
    e: ExprV,
    p1: int,
)
    requires
        sv_wf(sv),
        sv.overrides == Map::<Seq<char>, Type>::empty(),
        0 <= pos < tokens.len(),
        tokens[pos] == crate::semantics::TokenV::Lang(crate::scanner::PreToken::TYPE(t)),
        pos + 1 < tokens.len(),
        tokens[pos + 1] == crate::semantics::TokenV::Symb(vname),
        vname != "main"@,
        crate::ast_generator::consume_eval_spec(tokens, pos + 3, sv, t) == Ok::<
            (ExprV, int),
            crate::semantics::AstErrV,
        >((e, p1)),
        crate::ast_generator::gen_spec(tokens, pos, sv) == Ok::<StateV, crate::semantics::AstErrV>(
            sv2,
        ),
    ensures
        expr_type(e) == t,
        sv2.vars.contains_key(vname),
        sv2.vars[vname] == e,
        sv_type_of(sv2, vname) == Some(t),
{
    match sv_add_variable(sv, vname, e) {
        Err(_) => {},
        Ok(sv1) => {
            lemma_add_variable_preserves_wf(sv, vname, e, sv1);
            lemma_gen_spec_wf(tokens, p1, sv1, sv2);
            assert(sv1.vars.contains_key(vname) && sv1.vars[vname] == e);
            assert(!sv2.overrides.contains_key(vname));
        },
    }
}

/// A single ambient assignment of types to names: the hypothesis under
/// which evaluation preserves static types in full. A program whose
/// functions bind a local name against a declaration of the same name at a
/// different type falls outside it — and outside the preservation theorem,
/// since a callee's body can observe any caller-local name.
pub type NameTypes = Map<Seq<char>, Type>;

/// Whether an expression's annotations agree with the ambient types: every
/// variable reference carries the ambient type of its name, every call
/// matches a declared signature, and conditional branches agree.
pub open spec fn ann_ok(e: ExprV, g: NameTypes, funcs: FuncsV) -> bool
    decreases e, 1int,
{
    match e {
        ExprV::Lit(_) => true,
        ExprV::PrimOp { arg1, arg2, .. } => ann_ok(*arg1, g, funcs) && match arg2 {
            Some(a) => ann_ok(*a, g, funcs),
            None => true,
        },
        ExprV::Var { name, typ } => g.contains_key(name) && g[name] == typ,
        ExprV::Cond { cond, on_true, otherwise } => ann_ok(*cond, g, funcs) && ann_ok(
            *on_true,
            g,
            funcs,
        ) && ann_ok(*otherwise, g, funcs) && expr_type(*on_true) == expr_type(*otherwise),
        ExprV::Call { name, args, ret } => funcs.contains_key(name) && ret == crate::semantics::func_ret(
            funcs[name],
        ) && args.len() == func_params(funcs[name]).len() && (forall|i: int|
            0 <= i < args.len() ==> expr_type(#[trigger] args[i]) == param_types(
                func_params(funcs[name]),
            )[i]) && ann_ok_list(args, g, funcs),
    }
}

pub open spec fn ann_ok_list(s: Seq<ExprV>, g: NameTypes, funcs: FuncsV) -> bool
    decreases s, 2int,
{
    if s.len() == 0 {
        true
    } else {
        ann_ok(s[0], g, funcs) && ann_ok_list(s.drop_first(), g, funcs)
    }
}

/// Whether a variable mapping conforms to the ambient types: every stored
/// expression has its name's ambient type and agreeing annotations.
pub open spec fn env_conform(vars: EnvV, g: NameTypes, funcs: FuncsV) -> bool {
    forall|k: Seq<char>|
        vars.contains_key(k) ==> g.contains_key(k) && expr_type(#[trigger] vars[k]) == g[k]
            && ann_ok(vars[k], g, funcs)
}

pub open spec fn params_conform(params: Seq<(Seq<char>, Type)>, g: NameTypes) -> bool {
    forall|i: int|
        0 <= i < params.len() ==> g.contains_key((#[trigger] params[i]).0) && g[params[i].0]
            == params[i].1
}

pub open spec fn assigns_conform(s: Seq<AssignV>, g: NameTypes, funcs: FuncsV) -> bool {
    forall|i: int|
        0 <= i < s.len() ==> g.contains_key((#[trigger] s[i]).name) && g[s[i].name] == expr_type(
            s[i].expr,
        ) && ann_ok(s[i].expr, g, funcs)
}

/// Whether one declared function conforms to the ambient types: parameters
/// carry their ambient types, bodies are annotation-consistent, and body
/// and final-expression types equal the declared return type.
pub open spec fn func_conform(f: FuncV, g: NameTypes, funcs: FuncsV) -> bool {
    params_conform(func_params(f), g) && match f {
        FuncV::Simple { body, ret, .. } => match body {
            None => true,
            Some(b) => expr_type(*b) == ret && ann_ok(*b, g, funcs),
        },
        FuncV::Breakout { stages, final_expr, ret, .. } => expr_type(*final_expr) == ret && ann_ok(
            *final_expr,
            g,
            funcs,
        ) && (forall|i: int|
            0 <= i < stages.len() ==> assigns_conform((#[trigger] stages[i]).assigns, g, funcs)),
    }
}

pub open spec fn funcs_conform(funcs: FuncsV, g: NameTypes) -> bool {
    forall|k: Seq<char>|
        funcs.contains_key(k) ==> func_conform(#[trigger] funcs[k], g, funcs)
}

/// Evaluation preserves static types: in a conformant state, whenever an
/// annotation-consistent expression evaluates to a value, that value's
/// type tag is the expression's static type.
pub proof fn lemma_eval_preserves_types(
    e: ExprV,
    vars: EnvV,
    funcs: FuncsV,
    g: NameTypes,
    fuel: nat,
    v: LitV,
)
    requires
        ann_ok(e, g, funcs),
        env_conform(vars, g, funcs),
        funcs_conform(funcs, g),
        eval_expr(e, vars, funcs, fuel) == Ok::<LitV, EvalError>(v),
    ensures
        lit_type(v) == expr_type(e),
    decreases fuel,
{
    if fuel == 0 {
    } else {
        match e {
            ExprV::Lit(_) => {},
            ExprV::Var { name, .. } => {
                lemma_eval_preserves_types(vars[name], vars, funcs, g, (fuel - 1) as nat, v);
            },
            ExprV::PrimOp { op, arg1, arg2 } => {
                match eval_expr(*arg1, vars, funcs, (fuel - 1) as nat) {
                    Err(_) => {},
                    Ok(v1) => {
                        lemma_eval_preserves_types(*arg1, vars, funcs, g, (fuel - 1) as nat, v1);
                        let r2 = match arg2 {
                            Some(a2) => eval_expr(*a2, vars, funcs, (fuel - 1) as nat),
                            None => Ok(LitV::Void),
                        };
                        match r2 {
                            Err(_) => {},
                            Ok(v2) => {
                                match arg2 {
                                    Some(a2) => {
                                        lemma_eval_preserves_types(
                                            *a2,
                                            vars,
                                            funcs,
                                            g,
                                            (fuel - 1) as nat,
                                            v2,
                                        );
                                    },
                                    None => {},
                                }
                                lemma_prim_op_type_sound(op, v1, v2, v);
                            },
                        }
                    },
                }
            },
            ExprV::Cond { cond, on_true, otherwise } => {
                match eval_expr(*cond, vars, funcs, (fuel - 1) as nat) {
                    Err(_) => {},
                    Ok(LitV::Bool(b)) => {
                        if b {
                            lemma_eval_preserves_types(
                                *on_true,
                                vars,
                                funcs,
                                g,
                                (fuel - 1) as nat,
                                v,
                            );
                        } else {
                            lemma_eval_preserves_types(
                                *otherwise,
                                vars,
                                funcs,
                                g,
                                (fuel - 1) as nat,
                                v,
                            );
                        }
                    },
                    Ok(_) => {},
                }
            },
            ExprV::Call { name, args, .. } => {
                let f = funcs[name];
                match crate::semantics::bind_args(
                    func_params(f),
                    args,
                    vars,
                    funcs,
                    (fuel - 1) as nat,
                ) {
                    Err(_) => {},
                    Ok(env2) => {
                        lemma_bind_args_conform(
                            func_params(f),
                            args,
                            vars,
                            funcs,
                            g,
                            (fuel - 1) as nat,
                            env2,
                        );
                        lemma_func_preserves_types(f, env2, funcs, g, (fuel - 1) as nat, v);
                    },
                }
            },
        }
    }
}

/// Binding annotation-consistent, type-matching arguments keeps the
/// mapping conformant.
pub proof fn lemma_bind_args_conform(
    params: Seq<(Seq<char>, Type)>,
    args: Seq<ExprV>,
    env: EnvV,
    funcs: FuncsV,
    g: NameTypes,
    fuel: nat,
    env2: EnvV,
)
    requires
        params_conform(params, g),
        args.len() == params.len(),
        forall|i: int|
            0 <= i < args.len() ==> expr_type(#[trigger] args[i]) == param_types(params)[i],
        ann_ok_list(args, g, funcs),
        env_conform(env, g, funcs),
        funcs_conform(funcs, g),
        crate::semantics::bind_args(params, args, env, funcs, fuel) == Ok::<EnvV, EvalError>(env2),
    ensures
        env_conform(env2, g, funcs),
    decreases fuel,
{
    if fuel == 0 {
    } else if params.len() == 0 || args.len() == 0 {
    } else {
        match eval_expr(args[0], env, funcs, (fuel - 1) as nat) {
            Err(_) => {},
            Ok(v) => {
                lemma_eval_preserves_types(args[0], env, funcs, g, (fuel - 1) as nat, v);
                let envn = env.insert(params[0].0, ExprV::Lit(v));
                assert(param_types(params)[0] == params[0].1);
                assert(env_conform(envn, g, funcs));
                let params1 = params.subrange(1, params.len() as int);
                let args1 = args.subrange(1, args.len() as int);
                assert(args.drop_first() =~= args1);
                assert forall|i: int|
                    0 <= i < args1.len() implies expr_type(#[trigger] args1[i]) == param_types(
                    params1,
                )[i] by {
                    assert(args1[i] == args[i + 1]);
                    assert(param_types(params1)[i] == param_types(params)[i + 1]);
                }
                lemma_bind_args_conform(params1, args1, envn, funcs, g, (fuel - 1) as nat, env2);
            },
        }
    }
}

/// A conformant function body evaluates, in a conformant mapping, to a
/// value of the declared return type.
pub proof fn lemma_func_preserves_types(
    f: FuncV,
    env: EnvV,
    funcs: FuncsV,
    g: NameTypes,
    fuel: nat,
    v: LitV,
)
    requires
        func_conform(f, g, funcs),
        env_conform(env, g, funcs),
        funcs_conform(funcs, g),
        crate::semantics::eval_func(f, env, funcs, fuel) == Ok::<LitV, EvalError>(v),
    ensures
        lit_type(v) == crate::semantics::func_ret(f),
    decreases fuel,
{
    if fuel == 0 {
    } else {
        match f {
            FuncV::Simple { body, .. } => match body {
                None => {},
                Some(b) => {
                    lemma_eval_preserves_types(*b, env, funcs, g, (fuel - 1) as nat, v);
                },
            },
            FuncV::Breakout { stages, final_expr, .. } => {
                match crate::semantics::eval_stages(stages, env, funcs, (fuel - 1) as nat) {
                    Err(_) => {},
                    Ok(env2) => {
                        lemma_stages_conform(stages, env, funcs, g, (fuel - 1) as nat, env2);
                        lemma_eval_preserves_types(
                            *final_expr,
                            env2,
                            funcs,
                            g,
                            (fuel - 1) as nat,
                            v,
                        );
                    },
                }
            },
        }
    }
}

/// Running conformant stages keeps the mapping conformant.
pub proof fn lemma_stages_conform(
    stages: Seq<StageV>,
    env: EnvV,
    funcs: FuncsV,
    g: NameTypes,
    fuel: nat,
    env2: EnvV,
)
    requires
        forall|i: int| 0 <= i < stages.len() ==> assigns_conform((#[trigger] stages[i]).assigns, g, funcs),
        env_conform(env, g, funcs),
        funcs_conform(funcs, g),
        crate::semantics::eval_stages(stages, env, funcs, fuel) == Ok::<EnvV, EvalError>(env2),
    ensures
        env_conform(env2, g, funcs),
    decreases fuel,
{
    if fuel == 0 {
    } else if stages.len() == 0 {
    } else {
        match crate::semantics::eval_stage(stages[0].assigns, env, funcs, (fuel - 1) as nat) {
            Err(_) => {},
            Ok(envm) => {
                lemma_stage_conform(stages[0].assigns, env, funcs, g, (fuel - 1) as nat, envm);
                lemma_stages_conform(
                    stages.subrange(1, stages.len() as int),
                    envm,
                    funcs,
                    g,
                    (fuel - 1) as nat,
                    env2,
                );
            },
        }
    }
}

/// Running one conformant stage keeps the mapping conformant.
pub proof fn lemma_stage_conform(
    assigns: Seq<AssignV>,
    env: EnvV,
    funcs: FuncsV,
    g: NameTypes,
    fuel: nat,
    env2: EnvV,
)
    requires
        assigns_conform(assigns, g, funcs),
        env_conform(env, g, funcs),
        funcs_conform(funcs, g),
        eval_stage(assigns, env, funcs, fuel) == Ok::<EnvV, EvalError>(env2),
    ensures
        env_conform(env2, g, funcs),
    decreases fuel,
{
    if fuel == 0 {
    } else {
        match eval_regulars(assigns, 0, env, funcs, (fuel - 1) as nat) {
            Err(_) => {},
            Ok(live) => {
                lemma_regulars_conform(assigns, 0, env, funcs, g, (fuel - 1) as nat, live);
                lemma_threads_conform(assigns, 0, env, live, funcs, g, (fuel - 1) as nat, env2);
            },
        }
    }
}

pub proof fn lemma_regulars_conform(
    assigns: Seq<AssignV>,
    i: int,
    live: EnvV,
    funcs: FuncsV,
    g: NameTypes,
    fuel: nat,
    env2: EnvV,
)
    requires
        assigns_conform(assigns, g, funcs),
        env_conform(live, g, funcs),
        funcs_conform(funcs, g),
        eval_regulars(assigns, i, live, funcs, fuel) == Ok::<EnvV, EvalError>(env2),
    ensures
        env_conform(env2, g, funcs),
    decreases fuel,
{
    if fuel == 0 {
    } else if i < 0 || i >= assigns.len() {
    } else if crate::semantics::assign_is_regular(assigns[i]) {
        match eval_expr(assigns[i].expr, live, funcs, (fuel - 1) as nat) {
            Err(_) => {},
            Ok(v) => {
                lemma_eval_preserves_types(assigns[i].expr, live, funcs, g, (fuel - 1) as nat, v);
                lemma_regulars_conform(
                    assigns,
                    i + 1,
                    live.insert(assigns[i].name, ExprV::Lit(v)),
                    funcs,
                    g,
                    (fuel - 1) as nat,
                    env2,
                );
            },
        }
    } else {
        lemma_regulars_conform(assigns, i + 1, live, funcs, g, (fuel - 1) as nat, env2);
    }
}

pub proof fn lemma_threads_conform(
    assigns: Seq<AssignV>,
    i: int,
    snap: EnvV,
    acc: EnvV,
    funcs: FuncsV,
    g: NameTypes,
    fuel: nat,
    env2: EnvV,
)
    requires
        assigns_conform(assigns, g, funcs),
        env_conform(snap, g, funcs),
        env_conform(acc, g, funcs),
        funcs_conform(funcs, g),
        eval_threads(assigns, i, snap, acc, funcs, fuel) == Ok::<EnvV, EvalError>(env2),
    ensures
        env_conform(env2, g, funcs),
    decreases fuel,
{
    if fuel == 0 {
    } else if i < 0 || i >= assigns.len() {
    } else if crate::semantics::assign_is_thread(assigns[i]) {
        match eval_expr(assigns[i].expr, snap, funcs, (fuel - 1) as nat) {
            Err(_) => {},
            Ok(v) => {
                lemma_eval_preserves_types(assigns[i].expr, snap, funcs, g, (fuel - 1) as nat, v);
                lemma_threads_conform(
                    assigns,
                    i + 1,
                    snap,
                    acc.insert(assigns[i].name, ExprV::Lit(v)),
                    funcs,
                    g,
                    (fuel - 1) as nat,
                    env2,
                );
            },
        }
    } else {
        lemma_threads_conform(assigns, i + 1, snap, acc, funcs, g, (fuel - 1) as nat, env2);
    }
}

/// In a conformant program state, looking a declared name up yields a
/// value of that name's ambient type: the declared type of a well-typed
/// variable declaration is also the type tag of its evaluated value.
pub proof fn lemma_variable_value_has_declared_type(
    n: Seq<char>,
    g: NameTypes,
    vars: EnvV,
    funcs: FuncsV,
    fuel: nat,
    v: LitV,
)
    requires
        env_conform(vars, g, funcs),
        funcs_conform(funcs, g),
        g.contains_key(n),
        eval_expr(ExprV::Var { name: n, typ: g[n] }, vars, funcs, fuel) == Ok::<LitV, EvalError>(v),
    ensures
        lit_type(v) == g[n],
{
    lemma_eval_preserves_types(ExprV::Var { name: n, typ: g[n] }, vars, funcs, g, fuel, v);
}

/// A conditional with a literal true condition evaluates exactly as its
/// first branch; with a literal false condition, exactly as its second.
pub proof fn lemma_conditional_selects(
    c: bool,
    a: ExprV,
    b: ExprV,
    vars: EnvV,
    funcs: FuncsV,
    fuel: nat,
)
    requires
        fuel >= 2,
    ensures
        eval_expr(
            ExprV::Cond {
                cond: Box::new(ExprV::Lit(LitV::Bool(c))),
                on_true: Box::new(a),
                otherwise: Box::new(b),
            },
            vars,
            funcs,
            fuel,
        ) == (if c {
            eval_expr(a, vars, funcs, (fuel - 1) as nat)
        } else {
            eval_expr(b, vars, funcs, (fuel - 1) as nat)
        }),
{
    assert(eval_expr(ExprV::Lit(LitV::Bool(c)), vars, funcs, (fuel - 1) as nat) == Ok::<
        LitV,
        EvalError,
    >(LitV::Bool(c)));
}

pub open spec fn str_lit(s: Seq<char>) -> ExprV {
    ExprV::Lit(LitV::Str(s))
}

pub open spec fn concat_of(x: ExprV, y: ExprV) -> ExprV {
    ExprV::PrimOp { op: Operator::Concat, arg1: Box::new(x), arg2: Some(Box::new(y)) }
}

/// String concatenation is associative on result values: for literal
/// strings, both groupings evaluate to the same string.
pub proof fn lemma_concat_associative(
    a: Seq<char>,
    b: Seq<char>,
    c: Seq<char>,
    vars: EnvV,
    funcs: FuncsV,
    fuel: nat,
)
    requires
        fuel >= 3,
    ensures
        eval_expr(concat_of(concat_of(str_lit(a), str_lit(b)), str_lit(c)), vars, funcs, fuel)
            == eval_expr(
            concat_of(str_lit(a), concat_of(str_lit(b), str_lit(c))),
            vars,
            funcs,
            fuel,
        ),
        eval_expr(concat_of(concat_of(str_lit(a), str_lit(b)), str_lit(c)), vars, funcs, fuel)
            == Ok::<LitV, EvalError>(LitV::Str(a + b + c)),
{
    assert(eval_expr(str_lit(a), vars, funcs, (fuel - 2) as nat) == Ok::<LitV, EvalError>(
        LitV::Str(a),
    ));
    assert(eval_expr(str_lit(b), vars, funcs, (fuel - 2) as nat) == Ok::<LitV, EvalError>(
        LitV::Str(b),
    ));
    assert(eval_expr(str_lit(c), vars, funcs, (fuel - 1) as nat) == Ok::<LitV, EvalError>(
        LitV::Str(c),
    ));
    assert(eval_expr(str_lit(c), vars, funcs, (fuel - 2) as nat) == Ok::<LitV, EvalError>(
        LitV::Str(c),
    ));
    assert(eval_expr(concat_of(str_lit(a), str_lit(b)), vars, funcs, (fuel - 1) as nat) == Ok::<
        LitV,
        EvalError,
    >(LitV::Str(a + b)));
    assert(eval_expr(concat_of(str_lit(b), str_lit(c)), vars, funcs, (fuel - 1) as nat) == Ok::<
        LitV,
        EvalError,
    >(LitV::Str(b + c)));
    assert(eval_expr(str_lit(a), vars, funcs, (fuel - 1) as nat) == Ok::<LitV, EvalError>(
        LitV::Str(a),
    ));
    assert(eval_expr(
        concat_of(concat_of(str_lit(a), str_lit(b)), str_lit(c)),
        vars,
        funcs,
        fuel,
    ) == Ok::<LitV, EvalError>(LitV::Str((a + b) + c)));
    assert(eval_expr(
        concat_of(str_lit(a), concat_of(str_lit(b), str_lit(c))),
        vars,
        funcs,
        fuel,
    ) == Ok::<LitV, EvalError>(LitV::Str(a + (b + c))));
    assert((a + b) + c =~= a + (b + c));
}

/// Two mutually referencing top-level variables with no literal base case
/// exhaust any evaluation budget: looking either name up never yields a
/// value, whatever the budget.
pub proof fn lemma_mutual_reference_diverges(
    x: Seq<char>,
    y: Seq<char>,
    tx: Type,
    ty: Type,
    vars: EnvV,
    funcs: FuncsV,
    fuel: nat,
)
    requires
        vars.contains_key(x),
        vars[x] == (ExprV::Var { name: y, typ: ty }),
        vars.contains_key(y),
        vars[y] == (ExprV::Var { name: x, typ: tx }),
    ensures
        eval_expr(ExprV::Var { name: x, typ: tx }, vars, funcs, fuel) == Err::<LitV, EvalError>(
            EvalError::OutOfFuel,
        ),
    decreases fuel,
{
    if fuel > 0 {
        lemma_mutual_reference_diverges(y, x, ty, tx, vars, funcs, (fuel - 1) as nat);
    }
}

/// Stage isolation: in a stage holding one thread-tagged assignment
/// `x := ex` and one regular assignment `v := er`, in either declaration
/// order, the thread-tagged name is bound to its expression's value
/// against the mapping as it stood at stage entry — never against the
/// regular assignment's result.
pub proof fn lemma_stage_isolation(
    x: Seq<char>,
    ex: ExprV,
    v: Seq<char>,
    er: ExprV,
    vr: LitV,
    vx: LitV,
    env0: EnvV,
    funcs: FuncsV,
    fuel: nat,
)
    requires
        x != v,
        fuel >= 4,
        eval_expr(er, env0, funcs, (fuel - 3) as nat) == Ok::<LitV, EvalError>(vr),
        eval_expr(ex, env0, funcs, (fuel - 2) as nat) == Ok::<LitV, EvalError>(vx),
    ensures
        threads_first(
            seq![
                AssignV { name: x, expr: ex, tag: RunType::Thread },
                AssignV { name: v, expr: er, tag: RunType::Regular },
            ],
        ) == threads_first(
            seq![
                AssignV { name: v, expr: er, tag: RunType::Regular },
                AssignV { name: x, expr: ex, tag: RunType::Thread },
            ],
        ),
        eval_stage(
            threads_first(
                seq![
                    AssignV { name: x, expr: ex, tag: RunType::Thread },
                    AssignV { name: v, expr: er, tag: RunType::Regular },
                ],
            ),
            env0,
            funcs,
            fuel,
        ) == Ok::<EnvV, EvalError>(
            env0.insert(v, ExprV::Lit(vr)).insert(x, ExprV::Lit(vx)),
        ),
{
    let ta = AssignV { name: x, expr: ex, tag: RunType::Thread };
    let ra = AssignV { name: v, expr: er, tag: RunType::Regular };
    let s1 = seq![ta, ra];
    let s2 = seq![ra, ta];
    reveal_with_fuel(Seq::filter, 4);
    assert(s1.drop_last() =~= seq![ta]);
    assert(s2.drop_last() =~= seq![ra]);
    assert(seq![ta].drop_last() =~= Seq::<AssignV>::empty());
    assert(seq![ra].drop_last() =~= Seq::<AssignV>::empty());
    assert(thread_part(Seq::<AssignV>::empty()) =~= Seq::<AssignV>::empty());
    assert(regular_part(Seq::<AssignV>::empty()) =~= Seq::<AssignV>::empty());
    assert(thread_part(seq![ta]) =~= seq![ta]);
    assert(thread_part(seq![ra]) =~= Seq::<AssignV>::empty());
    assert(regular_part(seq![ta]) =~= Seq::<AssignV>::empty());
    assert(regular_part(seq![ra]) =~= seq![ra]);
    assert(thread_part(s1) =~= seq![ta]);
    assert(thread_part(s2) =~= seq![ta]);
    assert(regular_part(s1) =~= seq![ra]);
    assert(regular_part(s2) =~= seq![ra]);
    assert(threads_first(s1) =~= threads_first(s2));
    let sorted = threads_first(s1);
    assert(sorted =~= seq![ta, ra]);
    assert(sorted.len() == 2 && sorted[0] == ta && sorted[1] == ra);
    let live = env0.insert(v, ExprV::Lit(vr));
    let f1 = (fuel - 1) as nat;
    let f2 = (fuel - 2) as nat;
    let f3 = (fuel - 3) as nat;
    assert((f1 - 1) as nat == f2 && (f2 - 1) as nat == f3);
    assert(eval_regulars(sorted, 0, env0, funcs, f1) == eval_regulars(sorted, 1, env0, funcs, f2));
    assert(eval_regulars(sorted, 1, env0, funcs, f2) == eval_regulars(sorted, 2, live, funcs, f3));
    assert(eval_regulars(sorted, 2, live, funcs, f3) == Ok::<EnvV, EvalError>(live));
    let acc2 = live.insert(x, ExprV::Lit(vx));
    assert(eval_threads(sorted, 0, env0, live, funcs, f1) == eval_threads(
        sorted,
        1,
        env0,
        acc2,
        funcs,
        f2,
    ));
    assert(eval_threads(sorted, 1, env0, acc2, funcs, f2) == eval_threads(
        sorted,
        2,
        env0,
        acc2,
        funcs,
        f3,
    ));
    assert(eval_threads(sorted, 2, env0, acc2, funcs, f3) == Ok::<EnvV, EvalError>(acc2));
    assert(eval_stage(sorted, env0, funcs, fuel) == Ok::<EnvV, EvalError>(acc2));
}

} // verus!
