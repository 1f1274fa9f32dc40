//! Functions and their staged bodies: a Simple function holds a single
//! expression; a Breakout function holds barrier-synchronized stages of
//! assignments followed by a final expression.
use vstd::prelude::*;
use crate::env::{Env, FuncMap};
use crate::errors::EvalError;
use crate::expressions::Evaluation;
use crate::parser::{Literal, Symbol};
use crate::scanner::Type;
use crate::semantics::{
    assign_view, assigns_view, eval_func, eval_regulars, eval_stage, eval_stages, eval_threads,
    func_view, opt_body_view, res_lit_view, thread_part, threads_first, regular_part, FuncV,
    StageV,
};

verus! {

/// The concurrency tag of one stage assignment.
#[derive(Debug, PartialEq, Eq, Structural, Clone, Copy)]
pub enum RunType {
    Regular,
    Thread,
}

/// An ordered, barrier-synchronized group of named assignments inside a
/// Breakout function body. The assignments are stored with every
/// thread-tagged entry before every regular-tagged entry, each group in
/// declaration order.
#[derive(Debug)]
pub struct FunctionStage {
    assignments: Vec<(Symbol, Box<Evaluation>, RunType)>,
}

impl View for FunctionStage {
    type V = StageV;

    closed spec fn view(&self) -> StageV {
        StageV { assigns: assigns_view(self.assignments@) }
    }
}

impl FunctionStage {
    /// Orders the assignments so that every thread-tagged assignment
    /// precedes every regular-tagged one, keeping declaration order inside
    /// each group.
    pub fn new(a: Vec<(Symbol, Box<Evaluation>, RunType)>) -> (r: Self)
        ensures
            r@.assigns == threads_first(assigns_view(a@)),
    {
        let ghost a0: Seq<crate::semantics::AssignV> = assigns_view(a@);
        let mut thr: Vec<(Symbol, Box<Evaluation>, RunType)> = Vec::new();
        let mut reg: Vec<(Symbol, Box<Evaluation>, RunType)> = Vec::new();
        let n = a.len();
        let mut i: usize = 0;
        while i < n
            invariant
                n == a.len(),
                i <= n,
                a0 == assigns_view(a@),
                assigns_view(thr@) =~= thread_part(a0.subrange(0, i as int)),
                assigns_view(reg@) =~= regular_part(a0.subrange(0, i as int)),
            decreases n - i,
        {
            let (sym, e, tag) = &a[i];
            let x = (sym.clone(), Box::new((**e).clone()), *tag);
            proof {
                assert(assign_view(x) == a0[i as int]);
                assert(a0.subrange(0, i + 1).drop_last() =~= a0.subrange(0, i as int));
                assert(a0.subrange(0, i + 1).last() == a0[i as int]);
                reveal(Seq::filter);
            }
            match x.2 {
                RunType::Thread => {
                    thr.push(x);
                    proof {
                        assert(assigns_view(thr@) =~= thread_part(a0.subrange(0, i as int)).push(
                            a0[i as int],
                        ));
                        assert(thread_part(a0.subrange(0, i + 1)) =~= thread_part(
                            a0.subrange(0, i as int),
                        ).push(a0[i as int]));
                        assert(regular_part(a0.subrange(0, i + 1)) =~= regular_part(
                            a0.subrange(0, i as int),
                        ));
                    }
                },
                RunType::Regular => {
                    reg.push(x);
                    proof {
                        assert(assigns_view(reg@) =~= regular_part(a0.subrange(0, i as int)).push(
                            a0[i as int],
                        ));
                        assert(regular_part(a0.subrange(0, i + 1)) =~= regular_part(
                            a0.subrange(0, i as int),
                        ).push(a0[i as int]));
                        assert(thread_part(a0.subrange(0, i + 1)) =~= thread_part(
                            a0.subrange(0, i as int),
                        ));
                    }
                },
            }
            i += 1;
        }
        proof {
            assert(a0.subrange(0, n as int) =~= a0);
        }
        thr.append(&mut reg);
        proof {
            assert(assigns_view(thr@) =~= thread_part(a0) + regular_part(a0));
        }
        FunctionStage { assignments: thr }
    }
}

impl FunctionStage {
    /// Runs this stage against the live mapping. Regular assignments run
    /// in order against the live mapping; every thread-tagged assignment
    /// sees only a snapshot of the mapping as it stood at stage entry, and
    /// its result lands after all regular assignments have run.
    #[verifier::loop_isolation(false)]
    pub fn evaluate(&self, vars: &mut Env, funcs: &FuncMap, fuel: u64) -> (r: Result<
        (),
        EvalError,
    >)
        ensures
            match eval_stage(self@.assigns, old(vars)@, funcs@, fuel as nat) {
                Ok(m) => r is Ok && final(vars)@ == m,
                Err(e) => r == Err::<(), EvalError>(e),
            },
        decreases fuel,
    {
        if fuel == 0 {
            return Err(EvalError::OutOfFuel);
        }
        let ghost aseq = self@.assigns;
        let ghost env0 = vars@;
        let snapshot = vars.clone_env();
        let n = self.assignments.len();
        let mut rf: u64 = fuel - 1;
        let mut i: usize = 0;
        loop
            invariant
                rf <= fuel - 1,
                i <= n,
                eval_regulars(aseq, i as int, vars@, funcs@, rf as nat) == eval_regulars(
                    aseq,
                    0,
                    env0,
                    funcs@,
                    (fuel - 1) as nat,
                ),
            decreases n - i,
        {
            if rf == 0 {
                return Err(EvalError::OutOfFuel);
            }
            if i >= n {
                break ;
            }
            let (sym, e, tag) = &self.assignments[i];
            match tag {
                RunType::Regular => {
                    match (**e).evaluate(vars, funcs, rf - 1) {
                        Err(err) => {
                            return Err(err);
                        },
                        Ok(v) => {
                            vars.insert(sym.clone(), Evaluation::Literal(v));
                        },
                    }
                },
                RunType::Thread => {},
            }
            rf = rf - 1;
            i = i + 1;
        }
        let mut tf: u64 = fuel - 1;
        let mut k: usize = 0;
        let ghost live = vars@;
        loop
            invariant
                tf <= fuel - 1,
                k <= n,
                eval_threads(aseq, k as int, env0, vars@, funcs@, tf as nat) == eval_threads(
                    aseq,
                    0,
                    env0,
                    live,
                    funcs@,
                    (fuel - 1) as nat,
                ),
            decreases n - k,
        {
            if tf == 0 {
                return Err(EvalError::OutOfFuel);
            }
            if k >= n {
                break ;
            }
            let (sym, e, tag) = &self.assignments[k];
            match tag {
                RunType::Thread => {
                    match (**e).evaluate(&snapshot, funcs, tf - 1) {
                        Err(err) => {
                            return Err(err);
                        },
                        Ok(v) => {
                            vars.insert(sym.clone(), Evaluation::Literal(v));
                        },
                    }
                },
                RunType::Regular => {},
            }
            tf = tf - 1;
            k = k + 1;
        }
        Ok(())
    }
}

/// A declared function: Simple (one body expression, attached after the
/// signature is registered) or Breakout (staged assignments, a final
/// expression).
#[derive(Debug)]
pub enum Function {
    Simple {
        name: Symbol,
        args: Vec<(Symbol, Type)>,
        body: Option<Box<Evaluation>>,
        return_type: Type,
    },
    Breakout {
        name: Symbol,
        args: Vec<(Symbol, Type)>,
        stages: Vec<FunctionStage>,
        final_eval: Box<Evaluation>,
        return_type: Type,
    },
}

impl View for Function {
    type V = FuncV;

    open spec fn view(&self) -> FuncV {
        func_view(*self)
    }
}

impl Function {
    /// Attaches the body of a Simple function, replacing whatever was
    /// stored.
    pub fn set_body(&mut self, b: Option<Box<Evaluation>>)
        requires
            *old(self) is Simple,
        ensures
            match old(self)@ {
                FuncV::Simple { name, params, ret, .. } => final(self)@ == (FuncV::Simple {
                    name,
                    params,
                    body: opt_body_view(b),
                    ret,
                }),
                _ => false,
            },
    {
        match self {
            Function::Simple { body, .. } => {
                *body = b;
            },
            _ => {
                proof {
                    assert(false);
                }
            },
        }
    }

    /// The declared return type.
    pub fn get_type(&self) -> (r: Type)
        ensures
            r == crate::semantics::func_ret(self@),
    {
        match self {
            Function::Simple { return_type, .. } => *return_type,
            Function::Breakout { return_type, .. } => *return_type,
        }
    }

    /// Evaluates this function's body against an already-bound variable
    /// mapping: a Simple function's attached expression, or a Breakout
    /// function's stages in order followed by its final expression. A
    /// Simple body leaves the mapping untouched; a successful Breakout
    /// leaves behind exactly the mapping its stages produced.
    #[verifier::loop_isolation(false)]
    pub fn evaluate(&self, vars: &mut Env, funcs: &FuncMap, fuel: u64) -> (r: Result<
        Literal,
        EvalError,
    >)
        ensures
            res_lit_view(r) == eval_func(self@, old(vars)@, funcs@, fuel as nat),
            self@ is Simple ==> final(vars)@ == old(vars)@,
            fuel == 0 ==> final(vars)@ == old(vars)@,
            fuel > 0 && self@ is Breakout ==> (match eval_stages(
                self@->stages,
                old(vars)@,
                funcs@,
                (fuel - 1) as nat,
            ) {
                Ok(m) => final(vars)@ == m,
                Err(_) => true,
            }),
        decreases fuel,
    {
        if fuel == 0 {
            return Err(EvalError::OutOfFuel);
        }
        match self {
            Function::Simple { body, .. } => match body {
                None => Err(EvalError::MissingBody),
                Some(b) => b.evaluate(vars, funcs, fuel - 1),
            },
            Function::Breakout { stages, final_eval, .. } => {
                let ghost sseq = (match self@ {
                    FuncV::Breakout { stages: sv, .. } => sv,
                    _ => Seq::empty(),
                });
                let ghost env0 = vars@;
                let n = stages.len();
                let mut sf: u64 = fuel - 1;
                let mut i: usize = 0;
                proof {
                    assert(sseq.subrange(0, n as int) =~= sseq);
                }
                loop
                    invariant
                        sf <= fuel - 1,
                        i <= n,
                        sseq.len() == n,
                        forall|j: int| 0 <= j < n ==> sseq[j] == stages@[j]@,
                        eval_stages(
                            sseq.subrange(i as int, n as int),
                            vars@,
                            funcs@,
                            sf as nat,
                        ) == eval_stages(sseq, env0, funcs@, (fuel - 1) as nat),
                    decreases n - i,
                {
                    if sf == 0 {
                        return Err(EvalError::OutOfFuel);
                    }
                    if i >= n {
                        break ;
                    }
                    proof {
                        assert(sseq.subrange(i as int, n as int)[0] == sseq[i as int]);
                        assert(sseq.subrange(i as int, n as int).subrange(1, n - i)
                            =~= sseq.subrange(i + 1, n as int));
                    }
                    match stages[i].evaluate(vars, funcs, sf - 1) {
                        Err(err) => {
                            return Err(err);
                        },
                        Ok(()) => {},
                    }
                    sf = sf - 1;
                    i = i + 1;
                }
                final_eval.evaluate(vars, funcs, fuel - 1)
            },
        }
    }

    /// The declared parameter types, in declaration order.
    pub fn get_arg_types(&self) -> (r: Vec<Type>)
        ensures
            r@ == crate::semantics::param_types(crate::semantics::func_params(self@)),
    {
        let args = match self {
            Function::Simple { args, .. } => args,
            Function::Breakout { args, .. } => args,
        };
        let mut out: Vec<Type> = Vec::new();
        let n = args.len();
        let mut i: usize = 0;
        while i < n
            invariant
                n == args.len(),
                i <= n,
                out@.len() == i as int,
                forall|j: int| 0 <= j < i ==> out@[j] == args@[j].1,
            decreases n - i,
        {
            out.push(args[i].1);
            i += 1;
        }
        proof {
            assert(out@ =~= crate::semantics::param_types(crate::semantics::func_params(self@)));
        }
        out
    }
}

} // verus!
