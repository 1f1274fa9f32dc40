//! The recursive expression representation and its evaluator.
use vstd::prelude::*;
use vstd::string::StringExecFns;
use crate::env::{Env, FuncMap};
use crate::errors::{AstError, EvalError, ProgramError, TypeError};
use crate::functions::Function;
use crate::globalstate::GlobalState;
use crate::parser::{Literal, Symbol, Token};
use crate::scanner::{Delimeter, Operator, PreToken, Type};
use crate::semantics::{bind_args, eval_expr, expr_view, res_lit_view, tokens_view, ExprV};

verus! {

/// An expression tree node. Each node exclusively owns its sub-nodes.
#[derive(Debug)]
pub enum Evaluation {
    Literal(Literal),
    PrimOp { op: Operator, arg1: Box<Evaluation>, arg2: Option<Box<Evaluation>> },
    Variable(Symbol, Type),
    Conditional { cond: Box<Evaluation>, on_true: Box<Evaluation>, otherwise: Box<Evaluation> },
    FuncCall { name: Symbol, args: Vec<Evaluation>, return_type: Type },
}

impl View for Evaluation {
    type V = ExprV;

    open spec fn view(&self) -> ExprV {
        expr_view(*self)
    }
}

impl Clone for Evaluation {
    /// A clone denotes the same expression: its view is unchanged.
    #[verifier::loop_isolation(false)]
    fn clone(&self) -> (r: Self)
        ensures
            r@ == self@,
        decreases *self,
    {
        match self {
            Evaluation::Literal(l) => Evaluation::Literal(l.clone()),
            Evaluation::PrimOp { op, arg1, arg2 } => Evaluation::PrimOp {
                op: *op,
                arg1: Box::new((**arg1).clone()),
                arg2: match arg2 {
                    Some(a) => Some(Box::new((**a).clone())),
                    None => None,
                },
            },
            Evaluation::Variable(s, t) => Evaluation::Variable(s.clone(), *t),
            Evaluation::Conditional { cond, on_true, otherwise } => Evaluation::Conditional {
                cond: Box::new((**cond).clone()),
                on_true: Box::new((**on_true).clone()),
                otherwise: Box::new((**otherwise).clone()),
            },
            Evaluation::FuncCall { name, args, return_type } => {
                let mut cloned_args: Vec<Evaluation> = Vec::new();
                let n = args.len();
                let mut i: usize = 0;
                while i < n
                    invariant
                        n == args.len(),
                        i <= n,
                        cloned_args.len() == i,
                        forall|j: int| 0 <= j < i ==> (#[trigger] cloned_args@[j])@ == args@[j]@,
                    decreases n - i,
                {
                    proof {
                        assert(*self == Evaluation::FuncCall {
                            name: *name,
                            args: *args,
                            return_type: *return_type,
                        });
                        assert(decreases_to!(*self => (*self)->args));
                        assert(decreases_to!((*self)->args => args@[i as int]));
                        assert(decreases_to!(*self => args@[i as int]));
                    }
                    cloned_args.push(args[i].clone());
                    i += 1;
                }
                let out = Evaluation::FuncCall {
                    name: name.clone(),
                    args: cloned_args,
                    return_type: *return_type,
                };
                proof {
                    crate::semantics::lemma_exprs_view(cloned_args@);
                    crate::semantics::lemma_exprs_view(args@);
                    assert(crate::semantics::exprs_view(cloned_args@) =~= crate::semantics::exprs_view(args@));
                    assert(out@ =~= self@);
                }
                out
            },
        }
    }
}

impl Evaluation {
    /// Evaluates this expression against shared variable and function
    /// mappings, spending one unit of `fuel` at every recursive step.
    #[verifier::loop_isolation(false)]
    pub fn evaluate(&self, variables: &Env, functions: &FuncMap, fuel: u64) -> (r: Result<
        Literal,
        EvalError,
    >)
        ensures
            res_lit_view(r) == eval_expr(self@, variables@, functions@, fuel as nat),
        decreases fuel,
    {
        if fuel == 0 {
            return Err(EvalError::OutOfFuel);
        }
        match self {
            Evaluation::Literal(literal) => Ok(literal.clone()),
            Evaluation::Variable(symbol, _) => match variables.get(symbol) {
                Some(stored) => stored.evaluate(variables, functions, fuel - 1),
                None => Err(EvalError::UnknownSymbol),
            },
            Evaluation::Conditional { cond, on_true, otherwise } => {
                match cond.evaluate(variables, functions, fuel - 1) {
                    Err(err) => Err(err),
                    Ok(Literal::Bool(b)) => {
                        if b.get() {
                            on_true.evaluate(variables, functions, fuel - 1)
                        } else {
                            otherwise.evaluate(variables, functions, fuel - 1)
                        }
                    },
                    Ok(_) => Err(EvalError::CondNotBool),
                }
            },
            Evaluation::PrimOp { op, arg1, arg2 } => {
                match arg1.evaluate(variables, functions, fuel - 1) {
                    Err(err) => Err(err),
                    Ok(v1) => {
                        let r2 = match arg2 {
                            Some(a2) => a2.evaluate(variables, functions, fuel - 1),
                            None => Ok(Literal::Void),
                        };
                        match r2 {
                            Err(err) => Err(err),
                            Ok(v2) => crate::primitives::exec_prim_op(*op, v1, v2),
                        }
                    },
                }
            },
            Evaluation::FuncCall { name, args, .. } => {
                match functions.get(name) {
                    None => Err(EvalError::UnknownFunction),
                    Some(func) => {
                        let params = match func {
                            Function::Simple { args: fargs, .. } => fargs,
                            Function::Breakout { args: fargs, .. } => fargs,
                        };
                        let ghost pv = crate::semantics::func_params(func@);
                        let ghost av = crate::semantics::exprs_view(args@);
                        proof {
                            crate::semantics::lemma_exprs_view(args@);
                        }
                        let mut give_vars = variables.clone_env();
                        let mut bf: u64 = fuel - 1;
                        let mut i: usize = 0;
                        proof {
                            assert(pv.subrange(0, pv.len() as int) =~= pv);
                            assert(av.subrange(0, av.len() as int) =~= av);
                        }
                        loop
                            invariant
                                bf <= fuel - 1,
                                i <= params.len(),
                                i <= args.len(),
                                pv.len() == params.len(),
                                av.len() == args.len(),
                                bind_args(
                                    pv.subrange(i as int, pv.len() as int),
                                    av.subrange(i as int, av.len() as int),
                                    give_vars@,
                                    functions@,
                                    bf as nat,
                                ) == bind_args(pv, av, variables@, functions@, (fuel - 1) as nat),
                            decreases params.len() - i,
                        {
                            if bf == 0 {
                                return Err(EvalError::OutOfFuel);
                            }
                            if i >= params.len() || i >= args.len() {
                                proof {
                                    assert(pv.subrange(i as int, pv.len() as int).len() == 0
                                        || av.subrange(i as int, av.len() as int).len() == 0);
                                }
                                break ;
                            }
                            proof {
                                assert(pv.subrange(i as int, pv.len() as int)[0] == pv[i as int]);
                                assert(av.subrange(i as int, av.len() as int)[0] == av[i as int]);
                                assert(pv.subrange(i as int, pv.len() as int).subrange(
                                    1,
                                    pv.len() - i,
                                ) =~= pv.subrange(i + 1, pv.len() as int));
                                assert(av.subrange(i as int, av.len() as int).subrange(
                                    1,
                                    av.len() - i,
                                ) =~= av.subrange(i + 1, av.len() as int));
                            }
                            match args[i].evaluate(&give_vars, functions, bf - 1) {
                                Err(err) => {
                                    return Err(err);
                                },
                                Ok(v) => {
                                    give_vars.insert(params[i].0.clone(), Evaluation::Literal(v));
                                },
                            }
                            bf = bf - 1;
                            i = i + 1;
                        }
                        func.evaluate(&mut give_vars, functions, fuel - 1)
                    },
                }
            },
        }
    }

    /// Parses one prefix-notation expression from the token stream,
    /// starting at `pos`, resolving names against the global state.
    pub fn from_tokens(tokens: &Vec<Token>, pos: usize, global_state: &GlobalState) -> (r: Result<
        (Evaluation, usize),
        AstError,
    >)
        ensures
            match crate::ast_generator::parse_expr_spec(
                tokens_view(tokens@),
                pos as int,
                global_state@,
            ) {
                Ok((ev, p)) => (match r {
                    Ok(pr) => pr.0@ == ev && pr.1 == p && pos < pr.1 <= tokens.len(),
                    Err(_) => false,
                }),
                Err(e) => (match r {
                    Err(re) => re@ == e,
                    Ok(_) => false,
                }),
            },
        decreases tokens.len() - pos, 0int,
    {
        if pos >= tokens.len() {
            return Err(
                AstError::Program(
                    ProgramError { message: String::from_str("unexpected end of tokens") },
                ),
            );
        }
        match &tokens[pos] {
            Token::Lit(literal) => Ok((Evaluation::Literal(literal.clone()), pos + 1)),
            Token::Lang(PreToken::OP(Operator::Cond)) => {
                let (c, p1) = match Self::from_tokens(tokens, pos + 1, global_state) {
                    Ok(x) => x,
                    Err(e) => {
                        return Err(e);
                    },
                };
                let (tb, p2) = match Self::from_tokens(tokens, p1, global_state) {
                    Ok(x) => x,
                    Err(e) => {
                        return Err(e);
                    },
                };
                let (ob, p3) = match Self::from_tokens(tokens, p2, global_state) {
                    Ok(x) => x,
                    Err(e) => {
                        return Err(e);
                    },
                };
                let ct = c.get_type();
                if ct != Type::Bool {
                    return Err(
                        AstError::Type(
                            TypeError {
                                message: String::from_str("Type mismatch"),
                                expected: Type::Bool,
                                found: ct,
                            },
                        ),
                    );
                }
                let tt = tb.get_type();
                let ot = ob.get_type();
                if tt != ot {
                    return Err(
                        AstError::Type(
                            TypeError {
                                message: String::from_str("Type mismatch"),
                                expected: tt,
                                found: ot,
                            },
                        ),
                    );
                }
                Ok(
                    (
                        Evaluation::Conditional {
                            cond: Box::new(c),
                            on_true: Box::new(tb),
                            otherwise: Box::new(ob),
                        },
                        p3,
                    ),
                )
            },
            Token::Lang(PreToken::OP(Operator::Not)) => {
                let (a1, p1) = match Self::from_tokens(tokens, pos + 1, global_state) {
                    Ok(x) => x,
                    Err(e) => {
                        return Err(e);
                    },
                };
                Ok((Evaluation::PrimOp { op: Operator::Not, arg1: Box::new(a1), arg2: None }, p1))
            },
            Token::Lang(PreToken::OP(Operator::Floor)) => {
                let (a1, p1) = match Self::from_tokens(tokens, pos + 1, global_state) {
                    Ok(x) => x,
                    Err(e) => {
                        return Err(e);
                    },
                };
                Ok((Evaluation::PrimOp { op: Operator::Floor, arg1: Box::new(a1), arg2: None }, p1))
            },
            Token::Lang(PreToken::OP(op)) => {
                let (a1, p1) = match Self::from_tokens(tokens, pos + 1, global_state) {
                    Ok(x) => x,
                    Err(e) => {
                        return Err(e);
                    },
                };
                let (a2, p2) = match Self::from_tokens(tokens, p1, global_state) {
                    Ok(x) => x,
                    Err(e) => {
                        return Err(e);
                    },
                };
                Ok(
                    (
                        Evaluation::PrimOp {
                            op: *op,
                            arg1: Box::new(a1),
                            arg2: Some(Box::new(a2)),
                        },
                        p2,
                    ),
                )
            },
            Token::Lang(PreToken::DEL(Delimeter::LPar)) => {
                let (inner, p1) = match Self::from_tokens(tokens, pos + 1, global_state) {
                    Ok(x) => x,
                    Err(e) => {
                        return Err(e);
                    },
                };
                if p1 >= tokens.len() {
                    return Err(
                        AstError::Program(
                            ProgramError {
                                message: String::from_str("expected closing parenthesis"),
                            },
                        ),
                    );
                }
                match &tokens[p1] {
                    Token::Lang(PreToken::DEL(Delimeter::RPar)) => Ok((inner, p1 + 1)),
                    _ => Err(
                        AstError::Program(
                            ProgramError {
                                message: String::from_str("expected closing parenthesis"),
                            },
                        ),
                    ),
                }
            },
            Token::Symb(symbol) => {
                match global_state.get_type(symbol) {
                    None => Err(
                        AstError::Program(
                            ProgramError {
                                message: String::from_str("type not found: ").concat(
                                    symbol.name().as_str(),
                                ),
                            },
                        ),
                    ),
                    Some(t) => {
                        if global_state.is_function(symbol) {
                            let needed = global_state.get_args(symbol);
                            proof {
                                assert(needed@.subrange(0, needed@.len() as int) =~= needed@);
                            }
                            match Self::parse_call_args(tokens, pos + 1, global_state, &needed, 0) {
                                Err(e) => Err(e),
                                Ok((call_args, p1)) => Ok(
                                    (
                                        Evaluation::FuncCall {
                                            name: symbol.clone(),
                                            args: call_args,
                                            return_type: t,
                                        },
                                        p1,
                                    ),
                                ),
                            }
                        } else {
                            Ok((Evaluation::Variable(symbol.clone(), t), pos + 1))
                        }
                    },
                }
            },
            Token::Lang(PreToken::EOL) => Err(
                AstError::Program(
                    ProgramError {
                        message: String::from_str("unexpected end of line in expression"),
                    },
                ),
            ),
            _ => Err(
                AstError::Program(
                    ProgramError { message: String::from_str("unexpected token in expression") },
                ),
            ),
        }
    }

    /// Parses one argument expression for each expected parameter type from
    /// `idx` on, checking each against its parameter's declared type.
    fn parse_call_args(
        tokens: &Vec<Token>,
        pos: usize,
        global_state: &GlobalState,
        ptypes: &Vec<Type>,
        idx: usize,
    ) -> (r: Result<(Vec<Evaluation>, usize), AstError>)
        requires
            idx <= ptypes.len(),
            pos <= tokens.len(),
        ensures
            match crate::ast_generator::parse_args_spec(
                tokens_view(tokens@),
                pos as int,
                global_state@,
                ptypes@.subrange(idx as int, ptypes.len() as int),
            ) {
                Ok((spec_args, p)) => (match r {
                    Ok(pr) => crate::semantics::exprs_view(pr.0@) == spec_args && pr.1 == p && pos
                        <= pr.1 <= tokens.len(),
                    Err(_) => false,
                }),
                Err(e) => (match r {
                    Err(re) => re@ == e,
                    Ok(_) => false,
                }),
            },
        decreases tokens.len() - pos, ptypes.len() - idx + 1,
    {
        if idx >= ptypes.len() {
            let out: Vec<Evaluation> = Vec::new();
            proof {
                assert(crate::semantics::exprs_view(out@) =~= Seq::<ExprV>::empty());
            }
            return Ok((out, pos));
        }
        proof {
            assert(ptypes@.subrange(idx as int, ptypes@.len() as int)[0] == ptypes@[idx as int]);
        }
        match Self::from_tokens(tokens, pos, global_state) {
            Err(e) => Err(e),
            Ok((a, p1)) => {
                let ty = a.get_type();
                if ty != ptypes[idx] {
                    return Err(
                        AstError::Type(
                            TypeError {
                                message: String::from_str("Type mismatch"),
                                expected: ptypes[idx],
                                found: ty,
                            },
                        ),
                    );
                }
                proof {
                    assert(ptypes@.subrange(idx as int, ptypes@.len() as int).subrange(
                        1,
                        ptypes@.len() - idx,
                    ) =~= ptypes@.subrange(idx + 1, ptypes@.len() as int));
                }
                match Self::parse_call_args(tokens, p1, global_state, ptypes, idx + 1) {
                    Err(e) => Err(e),
                    Ok((rest, p2)) => {
                        let mut out = rest;
                        let ghost restv = out@;
                        out.insert(0, a);
                        proof {
                            crate::semantics::lemma_exprs_view(out@);
                            crate::semantics::lemma_exprs_view(restv);
                            assert(crate::semantics::exprs_view(out@) =~= seq![a@]
                                + crate::semantics::exprs_view(restv));
                        }
                        Ok((out, p2))
                    },
                }
            },
        }
    }

    /// The static type of this expression, computed structurally.
    pub fn get_type(&self) -> (r: Type)
        ensures
            r == crate::semantics::expr_type(self@),
        decreases *self,
    {
        match self {
            Evaluation::Literal(lit) => lit.get_type(),
            Evaluation::PrimOp { op, arg1, arg2 } => {
                let t1 = arg1.get_type();
                let t2 = match arg2 {
                    Some(a) => a.get_type(),
                    None => Type::NoType,
                };
                crate::primitives::get_prim_op_type(*op, t1, t2)
            },
            Evaluation::FuncCall { return_type, .. } => *return_type,
            Evaluation::Variable(_, t) => *t,
            Evaluation::Conditional { on_true, .. } => on_true.get_type(),
        }
    }
}

} // verus!
