//! The mathematical model of the language: ghost mirrors of the literal,
//! token and expression types, and the specification-level evaluator that
//! the executable evaluator is proved against.
use vstd::prelude::*;
use crate::errors::EvalError;
use crate::expressions::Evaluation;
use crate::functions::{Function, FunctionStage, RunType};
use crate::parser::{Literal, Symbol, Token};
use crate::primitives::{
    float_add_bits, float_div_bits, float_eq_bits, float_gt_bits, float_lt_bits, float_mul_bits,
    float_of_int, float_sub_bits, int_div, int_of_float, int_rem,
};
use crate::scanner::{Operator, PreToken, Type};

verus! {

/// The model of a literal value.
pub ghost enum LitV {
    Int(i64),
    /// The bit pattern of an IEEE double.
    Float(u64),
    Str(Seq<char>),
    Bool(bool),
    Void,
}

/// The model of one token of the input stream.
pub ghost enum TokenV {
    Lang(PreToken),
    Symb(Seq<char>),
    Lit(LitV),
}

pub open spec fn lit_view(l: Literal) -> LitV {
    match l {
        Literal::Integer(n) => LitV::Int(n@),
        Literal::Float(x) => LitV::Float(x@),
        Literal::String(s) => LitV::Str(s@),
        Literal::Bool(b) => LitV::Bool(b@),
        Literal::Void => LitV::Void,
    }
}

pub open spec fn token_view(t: Token) -> TokenV {
    match t {
        Token::Lang(p) => TokenV::Lang(p),
        Token::Symb(s) => TokenV::Symb(s@),
        Token::Lit(l) => TokenV::Lit(lit_view(l)),
    }
}

/// The type tag of a literal value.
pub open spec fn lit_type(l: LitV) -> Type {
    match l {
        LitV::Int(_) => Type::Int,
        LitV::Float(_) => Type::Float,
        LitV::Str(_) => Type::Str,
        LitV::Bool(_) => Type::Bool,
        LitV::Void => Type::NoType,
    }
}

/// The model of an expression tree.
#[verifier::ext_equal]
pub ghost enum ExprV {
    Lit(LitV),
    PrimOp { op: Operator, arg1: Box<ExprV>, arg2: Option<Box<ExprV>> },
    Var { name: Seq<char>, typ: Type },
    Cond { cond: Box<ExprV>, on_true: Box<ExprV>, otherwise: Box<ExprV> },
    Call { name: Seq<char>, args: Seq<ExprV>, ret: Type },
}

/// The model of one stage assignment: a name, the assigned expression, and
/// its concurrency tag.
#[verifier::ext_equal]
pub ghost struct AssignV {
    pub name: Seq<char>,
    pub expr: ExprV,
    pub tag: crate::functions::RunType,
}

/// The model of one barrier-synchronized stage.
#[verifier::ext_equal]
pub ghost struct StageV {
    pub assigns: Seq<AssignV>,
}

/// The model of a declared function.
#[verifier::ext_equal]
pub ghost enum FuncV {
    Simple { name: Seq<char>, params: Seq<(Seq<char>, Type)>, body: Option<Box<ExprV>>, ret: Type },
    Breakout {
        name: Seq<char>,
        params: Seq<(Seq<char>, Type)>,
        stages: Seq<StageV>,
        final_expr: Box<ExprV>,
        ret: Type,
    },
}

/// The model of a variable mapping: name to stored expression.
pub type EnvV = Map<Seq<char>, ExprV>;

/// The model of the function mapping: name to declared function.
pub type FuncsV = Map<Seq<char>, FuncV>;

pub open spec fn func_params(f: FuncV) -> Seq<(Seq<char>, Type)> {
    match f {
        FuncV::Simple { params, .. } => params,
        FuncV::Breakout { params, .. } => params,
    }
}

pub open spec fn func_ret(f: FuncV) -> Type {
    match f {
        FuncV::Simple { ret, .. } => ret,
        FuncV::Breakout { ret, .. } => ret,
    }
}

/// The static type of an expression, computed structurally from its
/// annotations and the operator table.
pub open spec fn expr_type(e: ExprV) -> Type
    decreases e,
{
    match e {
        ExprV::Lit(l) => lit_type(l),
        ExprV::PrimOp { op, arg1, arg2 } => crate::primitives::prim_op_type(
            op,
            expr_type(*arg1),
            match arg2 {
                Some(a) => expr_type(*a),
                None => Type::NoType,
            },
        ),
        ExprV::Var { typ, .. } => typ,
        ExprV::Cond { on_true, .. } => expr_type(*on_true),
        ExprV::Call { ret, .. } => ret,
    }
}

pub open spec fn expr_view(e: Evaluation) -> ExprV
    decreases e,
{
    match e {
        Evaluation::Literal(l) => ExprV::Lit(lit_view(l)),
        Evaluation::PrimOp { op, arg1, arg2 } => ExprV::PrimOp {
            op,
            arg1: Box::new(expr_view(*arg1)),
            arg2: match arg2 {
                Some(a) => Some(Box::new(expr_view(*a))),
                None => None,
            },
        },
        Evaluation::Variable(s, t) => ExprV::Var { name: s@, typ: t },
        Evaluation::Conditional { cond, on_true, otherwise } => ExprV::Cond {
            cond: Box::new(expr_view(*cond)),
            on_true: Box::new(expr_view(*on_true)),
            otherwise: Box::new(expr_view(*otherwise)),
        },
        Evaluation::FuncCall { name, return_type, .. } => ExprV::Call {
            name: name@,
            args: exprs_view(e->args@),
            ret: return_type,
        },
    }
}

/// The views of a sequence of expressions, elementwise.
pub open spec fn exprs_view(s: Seq<Evaluation>) -> Seq<ExprV>
    decreases s,
{
    if s.len() == 0 {
        Seq::empty()
    } else {
        exprs_view(s.drop_last()).push(expr_view(s.last()))
    }
}

/// The view of a sequence of expressions is the sequence of their views.
pub broadcast proof fn lemma_exprs_view(s: Seq<Evaluation>)
    ensures
        (#[trigger] exprs_view(s)).len() == s.len(),
        forall|i: int| 0 <= i < s.len() ==> exprs_view(s)[i] == expr_view(s[i]),
    decreases s.len(),
{
    if s.len() > 0 {
        lemma_exprs_view(s.drop_last());
    }
}

pub open spec fn assign_view(a: (Symbol, Box<Evaluation>, RunType)) -> AssignV {
    AssignV { name: a.0@, expr: expr_view(*a.1), tag: a.2 }
}

pub open spec fn assigns_view(s: Seq<(Symbol, Box<Evaluation>, RunType)>) -> Seq<AssignV> {
    Seq::new(s.len(), |i: int| assign_view(s[i]))
}

pub open spec fn assign_is_thread(a: AssignV) -> bool {
    a.tag is Thread
}

pub open spec fn assign_is_regular(a: AssignV) -> bool {
    a.tag is Regular
}

/// The thread-tagged assignments of a stage, in declaration order.
pub open spec fn thread_part(s: Seq<AssignV>) -> Seq<AssignV> {
    s.filter(|x: AssignV| assign_is_thread(x))
}

/// The regular-tagged assignments of a stage, in declaration order.
pub open spec fn regular_part(s: Seq<AssignV>) -> Seq<AssignV> {
    s.filter(|x: AssignV| assign_is_regular(x))
}

/// A stage's storage order: every thread-tagged assignment before every
/// regular-tagged one, each group keeping declaration order.
pub open spec fn threads_first(s: Seq<AssignV>) -> Seq<AssignV> {
    thread_part(s) + regular_part(s)
}

pub open spec fn params_view(s: Seq<(Symbol, Type)>) -> Seq<(Seq<char>, Type)> {
    Seq::new(s.len(), |i: int| (s[i].0@, s[i].1))
}

pub open spec fn opt_body_view(b: Option<Box<Evaluation>>) -> Option<Box<ExprV>> {
    match b {
        Some(e) => Some(Box::new(expr_view(*e))),
        None => None,
    }
}

/// The views of a stage list, elementwise.
pub open spec fn stages_view(s: Seq<FunctionStage>) -> Seq<StageV> {
    Seq::new(s.len(), |i: int| s[i]@)
}

pub open spec fn func_view(f: Function) -> FuncV {
    match f {
        Function::Simple { name, args, body, return_type } => FuncV::Simple {
            name: name@,
            params: params_view(args@),
            body: opt_body_view(body),
            ret: return_type,
        },
        Function::Breakout { name, args, stages, final_eval, return_type } => FuncV::Breakout {
            name: name@,
            params: params_view(args@),
            stages: stages_view(stages@),
            final_expr: Box::new(expr_view(*final_eval)),
            ret: return_type,
        },
    }
}

/// The views of a token sequence, elementwise.
pub open spec fn tokens_view(s: Seq<Token>) -> Seq<TokenV> {
    Seq::new(s.len(), |i: int| token_view(s[i]))
}

/// The model of a declaration-time error.
pub ghost enum AstErrV {
    Program(Seq<char>),
    Type { message: Seq<char>, expected: Type, found: Type },
}

pub open spec fn ast_err_view(e: crate::errors::AstError) -> AstErrV {
    match e {
        crate::errors::AstError::Program(p) => AstErrV::Program(p.message@),
        crate::errors::AstError::Type(t) => AstErrV::Type {
            message: t.message@,
            expected: t.expected,
            found: t.found,
        },
    }
}

/// The declared parameter types of a function, in order.
pub open spec fn param_types(params: Seq<(Seq<char>, Type)>) -> Seq<Type> {
    Seq::new(params.len(), |i: int| params[i].1)
}

/// The model of the global program state.
#[verifier::ext_equal]
pub ghost struct StateV {
    /// Every declared name, in declaration order; ids count from one.
    pub symbols: Seq<Seq<char>>,
    /// The top-level variables: name to declared expression.
    pub vars: EnvV,
    /// The transient parse-time type overrides.
    pub overrides: Map<Seq<char>, Type>,
    /// The declared functions.
    pub funcs: FuncsV,
    /// The entry-point expression, declared under the name `main`.
    pub main_e: Option<ExprV>,
}

pub open spec fn symbols_contain(symbols: Seq<Seq<char>>, k: Seq<char>) -> bool {
    exists|j: int| 0 <= j < symbols.len() && symbols[j] == k
}

/// Well-formedness of the program state: every variable and function key
/// was registered in the shared namespace, and the entry-point name is
/// never stored as a variable. The fresh state is well formed, and every
/// declaration operation preserves it (proved in the laws).
pub open spec fn sv_wf(sv: StateV) -> bool {
    &&& forall|k: Seq<char>|
        #[trigger] sv.vars.contains_key(k) ==> symbols_contain(sv.symbols, k)
    &&& forall|k: Seq<char>|
        #[trigger] sv.funcs.contains_key(k) ==> symbols_contain(sv.symbols, k)
    &&& !sv.vars.contains_key("main"@)
}

/// Declaring a variable: the name joins the shared namespace once; the
/// entry-point name stores the program's entry expression instead of a
/// variable.
pub open spec fn sv_add_variable(sv: StateV, k: Seq<char>, v: ExprV) -> Result<StateV, Seq<char>> {
    if symbols_contain(sv.symbols, k) {
        Err(k + " already exists"@)
    } else if k == "main"@ {
        Ok(StateV { symbols: sv.symbols.push(k), main_e: Some(v), ..sv })
    } else {
        Ok(StateV { symbols: sv.symbols.push(k), vars: sv.vars.insert(k, v), ..sv })
    }
}

/// Declaring a function: the name joins the same shared namespace.
pub open spec fn sv_add_function(sv: StateV, k: Seq<char>, f: FuncV) -> Result<StateV, Seq<char>> {
    if symbols_contain(sv.symbols, k) {
        Err(k + " already exists"@)
    } else {
        Ok(StateV { symbols: sv.symbols.push(k), funcs: sv.funcs.insert(k, f), ..sv })
    }
}

/// Static name resolution: an active override wins, a declared variable's
/// expression type comes next, a declared function's return type last.
pub open spec fn sv_type_of(sv: StateV, k: Seq<char>) -> Option<Type> {
    if sv.overrides.contains_key(k) {
        Some(sv.overrides[k])
    } else if sv.vars.contains_key(k) {
        Some(expr_type(sv.vars[k]))
    } else if sv.funcs.contains_key(k) {
        Some(func_ret(sv.funcs[k]))
    } else {
        None
    }
}

/// The numeric promotion rule: an integer operand paired with a float
/// operand is converted to the nearest float.
pub open spec fn promote2(a: LitV, b: LitV) -> (LitV, LitV) {
    match (a, b) {
        (LitV::Int(x), LitV::Float(_)) => (LitV::Float(float_of_int(x)), b),
        (LitV::Float(_), LitV::Int(y)) => (a, LitV::Float(float_of_int(y))),
        _ => (a, b),
    }
}

/// The view of an evaluation result.
pub open spec fn res_lit_view(r: Result<Literal, EvalError>) -> Result<LitV, EvalError> {
    match r {
        Ok(l) => Ok(l@),
        Err(e) => Err(e),
    }
}

/// The result of one primitive operator on two evaluated operands (the
/// second is void for unary operators), after numeric promotion: the fixed
/// operator/type table of the language. A combination outside the table is
/// a fatal evaluation error.
pub open spec fn prim_op_result(op: Operator, a0: LitV, b0: LitV) -> Result<LitV, EvalError> {
    let (a, b) = promote2(a0, b0);
    match op {
        Operator::Eq => match (a, b) {
            (LitV::Int(x), LitV::Int(y)) => Ok(LitV::Bool(x == y)),
            (LitV::Float(x), LitV::Float(y)) => Ok(LitV::Bool(float_eq_bits(x, y))),
            (LitV::Bool(x), LitV::Bool(y)) => Ok(LitV::Bool(x == y)),
            (LitV::Str(x), LitV::Str(y)) => Ok(LitV::Bool(x == y)),
            _ => Err(EvalError::BadOperands),
        },
        Operator::Gt => match (a, b) {
            (LitV::Int(x), LitV::Int(y)) => Ok(LitV::Bool(x > y)),
            (LitV::Float(x), LitV::Float(y)) => Ok(LitV::Bool(float_gt_bits(x, y))),
            _ => Err(EvalError::BadOperands),
        },
        Operator::Lt => match (a, b) {
            (LitV::Int(x), LitV::Int(y)) => Ok(LitV::Bool(x < y)),
            (LitV::Float(x), LitV::Float(y)) => Ok(LitV::Bool(float_lt_bits(x, y))),
            _ => Err(EvalError::BadOperands),
        },
        Operator::Geq => match (a, b) {
            (LitV::Int(x), LitV::Int(y)) => Ok(LitV::Bool(x >= y)),
            (LitV::Float(x), LitV::Float(y)) => Ok(
                LitV::Bool(float_gt_bits(x, y) || float_eq_bits(x, y)),
            ),
            _ => Err(EvalError::BadOperands),
        },
        Operator::Leq => match (a, b) {
            (LitV::Int(x), LitV::Int(y)) => Ok(LitV::Bool(x <= y)),
            (LitV::Float(x), LitV::Float(y)) => Ok(
                LitV::Bool(float_lt_bits(x, y) || float_eq_bits(x, y)),
            ),
            _ => Err(EvalError::BadOperands),
        },
        Operator::Neq => match (a, b) {
            (LitV::Int(x), LitV::Int(y)) => Ok(LitV::Bool(x != y)),
            (LitV::Float(x), LitV::Float(y)) => Ok(LitV::Bool(!float_eq_bits(x, y))),
            (LitV::Bool(x), LitV::Bool(y)) => Ok(LitV::Bool(x != y)),
            (LitV::Str(x), LitV::Str(y)) => Ok(LitV::Bool(x != y)),
            _ => Err(EvalError::BadOperands),
        },
        Operator::Or => match (a, b) {
            (LitV::Bool(x), LitV::Bool(y)) => Ok(LitV::Bool(x || y)),
            _ => Err(EvalError::BadOperands),
        },
        Operator::And => match (a, b) {
            (LitV::Bool(x), LitV::Bool(y)) => Ok(LitV::Bool(x && y)),
            _ => Err(EvalError::BadOperands),
        },
        Operator::Not => match a {
            LitV::Bool(x) => Ok(LitV::Bool(!x)),
            _ => Err(EvalError::BadOperands),
        },
        Operator::Nand => match (a, b) {
            (LitV::Bool(x), LitV::Bool(y)) => Ok(LitV::Bool(!(x && y))),
            _ => Err(EvalError::BadOperands),
        },
        Operator::Mod => match (a, b) {
            (LitV::Int(x), LitV::Int(y)) => if y == 0 {
                Err(EvalError::DivisionByZero)
            } else {
                Ok(LitV::Int(int_rem(x, y)))
            },
            _ => Err(EvalError::BadOperands),
        },
        Operator::Plus => match (a, b) {
            (LitV::Int(x), LitV::Int(y)) => Ok(
                LitV::Int(vstd::wrapping::i64_specs::wrapping_add(x, y)),
            ),
            (LitV::Float(x), LitV::Float(y)) => Ok(LitV::Float(float_add_bits(x, y))),
            _ => Err(EvalError::BadOperands),
        },
        Operator::Minus => match (a, b) {
            (LitV::Int(x), LitV::Int(y)) => Ok(
                LitV::Int(vstd::wrapping::i64_specs::wrapping_sub(x, y)),
            ),
            (LitV::Float(x), LitV::Float(y)) => Ok(LitV::Float(float_sub_bits(x, y))),
            _ => Err(EvalError::BadOperands),
        },
        Operator::Mult => match (a, b) {
            (LitV::Int(x), LitV::Int(y)) => Ok(
                LitV::Int(vstd::wrapping::i64_specs::wrapping_mul(x, y)),
            ),
            (LitV::Float(x), LitV::Float(y)) => Ok(LitV::Float(float_mul_bits(x, y))),
            _ => Err(EvalError::BadOperands),
        },
        Operator::Div => match (a, b) {
            (LitV::Int(x), LitV::Int(y)) => if y == 0 {
                Err(EvalError::DivisionByZero)
            } else {
                Ok(LitV::Int(int_div(x, y)))
            },
            (LitV::Float(x), LitV::Float(y)) => Ok(LitV::Float(float_div_bits(x, y))),
            _ => Err(EvalError::BadOperands),
        },
        Operator::Concat => match (a, b) {
            (LitV::Str(x), LitV::Str(y)) => Ok(LitV::Str(x + y)),
            _ => Err(EvalError::BadOperands),
        },
        Operator::Floor => match a {
            LitV::Float(x) => Ok(LitV::Int(int_of_float(x))),
            _ => Err(EvalError::BadOperands),
        },
        Operator::Cond => Err(EvalError::BadOperands),
    }
}

/// Evaluates one expression against a variable and a function mapping.
///
/// One unit of evaluation budget is spent at every recursive step, so the
/// definition is finite everywhere; a program whose evaluation would never
/// finish instead exhausts any budget it is given.
pub open spec fn eval_expr(e: ExprV, vars: EnvV, funcs: FuncsV, fuel: nat) -> Result<
    LitV,
    EvalError,
>
    decreases fuel,
{
    if fuel == 0 {
        Err(EvalError::OutOfFuel)
    } else {
        match e {
            ExprV::Lit(l) => Ok(l),
            ExprV::Var { name, .. } => if vars.contains_key(name) {
                eval_expr(vars[name], vars, funcs, (fuel - 1) as nat)
            } else {
                Err(EvalError::UnknownSymbol)
            },
            ExprV::PrimOp { op, arg1, arg2 } => match eval_expr(
                *arg1,
                vars,
                funcs,
                (fuel - 1) as nat,
            ) {
                Err(err) => Err(err),
                Ok(v1) => {
                    let r2 = match arg2 {
                        Some(a2) => eval_expr(*a2, vars, funcs, (fuel - 1) as nat),
                        None => Ok(LitV::Void),
                    };
                    match r2 {
                        Err(err) => Err(err),
                        Ok(v2) => prim_op_result(op, v1, v2),
                    }
                },
            },
            ExprV::Cond { cond, on_true, otherwise } => match eval_expr(
                *cond,
                vars,
                funcs,
                (fuel - 1) as nat,
            ) {
                Err(err) => Err(err),
                Ok(LitV::Bool(b)) => if b {
                    eval_expr(*on_true, vars, funcs, (fuel - 1) as nat)
                } else {
                    eval_expr(*otherwise, vars, funcs, (fuel - 1) as nat)
                },
                Ok(_) => Err(EvalError::CondNotBool),
            },
            ExprV::Call { name, args, .. } => if funcs.contains_key(name) {
                let f = funcs[name];
                match bind_args(func_params(f), args, vars, funcs, (fuel - 1) as nat) {
                    Err(err) => Err(err),
                    Ok(env2) => eval_func(f, env2, funcs, (fuel - 1) as nat),
                }
            } else {
                Err(EvalError::UnknownFunction)
            },
        }
    }
}

/// Builds a callee's variable mapping: starting from a copy of the whole
/// caller mapping, each parameter in turn is bound to its evaluated
/// argument; arguments are evaluated against the growing mapping, and a
/// surplus of parameters or of arguments is ignored.
pub open spec fn bind_args(
    params: Seq<(Seq<char>, Type)>,
    args: Seq<ExprV>,
    env: EnvV,
    funcs: FuncsV,
    fuel: nat,
) -> Result<EnvV, EvalError>
    decreases fuel,
{
    if fuel == 0 {
        Err(EvalError::OutOfFuel)
    } else if params.len() == 0 || args.len() == 0 {
        Ok(env)
    } else {
        match eval_expr(args[0], env, funcs, (fuel - 1) as nat) {
            Err(err) => Err(err),
            Ok(v) => bind_args(
                params.subrange(1, params.len() as int),
                args.subrange(1, args.len() as int),
                env.insert(params[0].0, ExprV::Lit(v)),
                funcs,
                (fuel - 1) as nat,
            ),
        }
    }
}

/// Evaluates a function body against an already-bound variable mapping: a
/// Simple function's attached expression, or a Breakout function's stages
/// in declaration order followed by its final expression.
pub open spec fn eval_func(f: FuncV, env: EnvV, funcs: FuncsV, fuel: nat) -> Result<
    LitV,
    EvalError,
>
    decreases fuel,
{
    if fuel == 0 {
        Err(EvalError::OutOfFuel)
    } else {
        match f {
            FuncV::Simple { body, .. } => match body {
                None => Err(EvalError::MissingBody),
                Some(b) => eval_expr(*b, env, funcs, (fuel - 1) as nat),
            },
            FuncV::Breakout { stages, final_expr, .. } => match eval_stages(
                stages,
                env,
                funcs,
                (fuel - 1) as nat,
            ) {
                Err(err) => Err(err),
                Ok(env2) => eval_expr(*final_expr, env2, funcs, (fuel - 1) as nat),
            },
        }
    }
}

/// Runs a Breakout function's stages in order, each against the mapping the
/// previous stage left behind.
pub open spec fn eval_stages(stages: Seq<StageV>, env: EnvV, funcs: FuncsV, fuel: nat) -> Result<
    EnvV,
    EvalError,
>
    decreases fuel,
{
    if fuel == 0 {
        Err(EvalError::OutOfFuel)
    } else if stages.len() == 0 {
        Ok(env)
    } else {
        match eval_stage(stages[0].assigns, env, funcs, (fuel - 1) as nat) {
            Err(err) => Err(err),
            Ok(env2) => eval_stages(
                stages.subrange(1, stages.len() as int),
                env2,
                funcs,
                (fuel - 1) as nat,
            ),
        }
    }
}

/// Runs one stage. Regular-tagged assignments run in order against the
/// live mapping, each result immediately visible to the next. Every
/// thread-tagged assignment is evaluated against a snapshot of the mapping
/// as it stood at stage entry — never against another assignment's result
/// from the same stage — and its result is inserted after every regular
/// assignment has run.
pub open spec fn eval_stage(assigns: Seq<AssignV>, env: EnvV, funcs: FuncsV, fuel: nat) -> Result<
    EnvV,
    EvalError,
>
    decreases fuel,
{
    if fuel == 0 {
        Err(EvalError::OutOfFuel)
    } else {
        match eval_regulars(assigns, 0, env, funcs, (fuel - 1) as nat) {
            Err(err) => Err(err),
            Ok(live) => eval_threads(assigns, 0, env, live, funcs, (fuel - 1) as nat),
        }
    }
}

/// Runs the regular-tagged assignments of a stage from index `i` on, in
/// order, against the live mapping.
pub open spec fn eval_regulars(
    assigns: Seq<AssignV>,
    i: int,
    live: EnvV,
    funcs: FuncsV,
    fuel: nat,
) -> Result<EnvV, EvalError>
    decreases fuel,
{
    if fuel == 0 {
        Err(EvalError::OutOfFuel)
    } else if i < 0 || i >= assigns.len() {
        Ok(live)
    } else if assign_is_regular(assigns[i]) {
        match eval_expr(assigns[i].expr, live, funcs, (fuel - 1) as nat) {
            Err(err) => Err(err),
            Ok(v) => eval_regulars(
                assigns,
                i + 1,
                live.insert(assigns[i].name, ExprV::Lit(v)),
                funcs,
                (fuel - 1) as nat,
            ),
        }
    } else {
        eval_regulars(assigns, i + 1, live, funcs, (fuel - 1) as nat)
    }
}

/// Joins the thread-tagged assignments of a stage from index `i` on, in
/// order: each is evaluated against the stage-entry snapshot `snap` and its
/// result inserted into the accumulated mapping.
pub open spec fn eval_threads(
    assigns: Seq<AssignV>,
    i: int,
    snap: EnvV,
    acc: EnvV,
    funcs: FuncsV,
    fuel: nat,
) -> Result<EnvV, EvalError>
    decreases fuel,
{
    if fuel == 0 {
        Err(EvalError::OutOfFuel)
    } else if i < 0 || i >= assigns.len() {
        Ok(acc)
    } else if assign_is_thread(assigns[i]) {
        match eval_expr(assigns[i].expr, snap, funcs, (fuel - 1) as nat) {
            Err(err) => Err(err),
            Ok(v) => eval_threads(
                assigns,
                i + 1,
                snap,
                acc.insert(assigns[i].name, ExprV::Lit(v)),
                funcs,
                (fuel - 1) as nat,
            ),
        }
    } else {
        eval_threads(assigns, i + 1, snap, acc, funcs, (fuel - 1) as nat)
    }
}

} // verus!
