//! The global program state: the shared symbol namespace, the top-level
//! variables, the declared functions, the transient parse-time type
//! overrides, and the entry-point expression.
use vstd::prelude::*;
use vstd::pervasive::unreached;
use vstd::string::StringExecFns;
use crate::env::{Env, FuncMap, TypeOverrides};
use crate::errors::{EvalError, ProgramError};
use crate::expressions::Evaluation;
use crate::functions::Function;
use crate::parser::{Literal, Symbol};
use crate::scanner::Type;
use crate::semantics::{
    eval_expr, func_params, param_types, res_lit_view, sv_add_function, sv_add_variable,
    sv_type_of, symbols_contain, ExprV, FuncV, StateV,
};

verus! {

pub open spec fn symbols_view(s: Seq<Symbol>) -> Seq<Seq<char>> {
    Seq::new(s.len(), |i: int| s[i]@)
}

/// The shared namespace of declared names. A name, once added, is never
/// removed or redefined; ids count from one in declaration order.
#[derive(Debug)]
pub struct SymbolTable {
    names: Vec<Symbol>,
}

impl View for SymbolTable {
    type V = Seq<Seq<char>>;

    closed spec fn view(&self) -> Seq<Seq<char>> {
        symbols_view(self.names@)
    }
}

impl SymbolTable {
    /// No name is stored twice.
    pub open spec fn wf(&self) -> bool {
        forall|i: int, j: int| 0 <= i < j < self@.len() ==> self@[i] != self@[j]
    }

    pub fn new() -> (r: Self)
        ensures
            r@ == Seq::<Seq<char>>::empty(),
            r.wf(),
    {
        let r = SymbolTable { names: Vec::new() };
        proof {
            assert(r@ =~= Seq::<Seq<char>>::empty());
        }
        r
    }

    /// Registers a new name and hands back its id; a name already present
    /// is refused.
    pub fn add(&mut self, symbol: Symbol) -> (r: Result<usize, ProgramError>)
        ensures
            match r {
                Ok(id) => !symbols_contain(old(self)@, symbol@) && final(self)@ == old(self)@.push(
                    symbol@,
                ) && id == old(self)@.len() + 1,
                Err(e) => symbols_contain(old(self)@, symbol@) && final(self)@ == old(self)@
                    && e.message@ == symbol@ + " already exists"@,
            },
            old(self).wf() ==> final(self).wf(),
    {
        let n = self.names.len();
        let mut i: usize = 0;
        while i < n
            invariant
                n == self.names.len(),
                i <= n,
                self@ == old(self)@,
                self.names@ == old(self).names@,
                forall|j: int| 0 <= j < i ==> self@[j] != symbol@,
            decreases n - i,
        {
            if self.names[i].same_name(&symbol) {
                proof {
                    assert(self@[i as int] == symbol@);
                    assert(symbols_contain(old(self)@, symbol@));
                }
                return Err(ProgramError { message: symbol.name().concat(" already exists") });
            }
            i += 1;
        }
        self.names.push(symbol);
        proof {
            assert(final(self)@ =~= old(self)@.push(symbol@));
        }
        Ok(self.names.len())
    }

    /// The id under which a name was registered.
    pub fn get_id(&self, symbol: Symbol) -> (r: Option<usize>)
        ensures
            match r {
                Some(id) => 1 <= id <= self@.len() && self@[id - 1] == symbol@ && forall|j: int|
                    0 <= j < id - 1 ==> self@[j] != symbol@,
                None => !symbols_contain(self@, symbol@),
            },
    {
        let n = self.names.len();
        let mut i: usize = 0;
        while i < n
            invariant
                n == self.names.len(),
                i <= n,
                forall|j: int| 0 <= j < i ==> self@[j] != symbol@,
            decreases n - i,
        {
            if self.names[i].same_name(&symbol) {
                return Some(i + 1);
            }
            i += 1;
        }
        None
    }

    /// The name registered under an id.
    pub fn get_symbol(&self, id: usize) -> (r: Option<Symbol>)
        ensures
            match r {
                Some(s) => 1 <= id <= self@.len() && s@ == self@[id - 1],
                None => !(1 <= id <= self@.len()),
            },
    {
        if 1 <= id && id <= self.names.len() {
            Some(self.names[id - 1].clone())
        } else {
            None
        }
    }

    pub fn symbol_exists(&self, symbol: Symbol) -> (r: bool)
        ensures
            r == symbols_contain(self@, symbol@),
    {
        self.get_id(symbol).is_some()
    }

    pub fn id_exists(&self, id: usize) -> (r: bool)
        ensures
            r == (1 <= id <= self@.len()),
    {
        1 <= id && id <= self.names.len()
    }
}

/// The global program state, filled during program construction and read
/// during evaluation.
#[derive(Debug)]
pub struct GlobalState {
    symbol_table: SymbolTable,
    variables: Env,
    variable_override: TypeOverrides,
    func_table: FuncMap,
    main_evaluation: Option<Evaluation>,
}

impl View for GlobalState {
    type V = StateV;

    closed spec fn view(&self) -> StateV {
        StateV {
            symbols: self.symbol_table@,
            vars: self.variables@,
            overrides: self.variable_override@,
            funcs: self.func_table@,
            main_e: match self.main_evaluation {
                Some(e) => Some(e@),
                None => None,
            },
        }
    }
}

impl GlobalState {
    pub fn new() -> (r: Self)
        ensures
            r@ == (StateV {
                symbols: Seq::<Seq<char>>::empty(),
                vars: Map::<Seq<char>, ExprV>::empty(),
                overrides: Map::<Seq<char>, Type>::empty(),
                funcs: Map::<Seq<char>, FuncV>::empty(),
                main_e: None,
            }),
            crate::semantics::sv_wf(r@),
    {
        let r = GlobalState {
            symbol_table: SymbolTable::new(),
            variables: Env::new(),
            variable_override: TypeOverrides::new(),
            func_table: FuncMap::new(),
            main_evaluation: None,
        };
        proof {
            assert(r@ =~= (StateV {
                symbols: Seq::<Seq<char>>::empty(),
                vars: Map::<Seq<char>, ExprV>::empty(),
                overrides: Map::<Seq<char>, Type>::empty(),
                funcs: Map::<Seq<char>, FuncV>::empty(),
                main_e: None,
            }));
        }
        r
    }

    /// Declares a top-level variable. The entry-point name stores the
    /// program's entry expression instead.
    pub fn add_variable(&mut self, name: Symbol, value: Evaluation) -> (r: Result<
        (),
        ProgramError,
    >)
        ensures
            match sv_add_variable(old(self)@, name@, value@) {
                Ok(sv) => r is Ok && final(self)@ == sv,
                Err(m) => final(self)@ == old(self)@ && (match r {
                    Err(pe) => pe.message@ == m,
                    Ok(_) => false,
                }),
            },
    {
        match self.symbol_table.add(name.clone()) {
            Err(e) => {
                proof {
                    assert(final(self)@ =~= old(self)@);
                }
                return Err(e);
            },
            Ok(_) => {},
        }
        let is_main = name.name() == String::from_str("main");
        if is_main {
            self.main_evaluation = Some(value);
            proof {
                assert(final(self)@ =~= (match sv_add_variable(old(self)@, name@, value@) {
                    Ok(sv) => sv,
                    Err(_) => final(self)@,
                }));
            }
            Ok(())
        } else {
            self.variables.insert(name, value);
            proof {
                assert(final(self)@ =~= (match sv_add_variable(old(self)@, name@, value@) {
                    Ok(sv) => sv,
                    Err(_) => final(self)@,
                }));
            }
            Ok(())
        }
    }

    /// Declares a function under the shared namespace.
    pub fn add_function(&mut self, name: Symbol, function: Function) -> (r: Result<
        (),
        ProgramError,
    >)
        ensures
            match sv_add_function(old(self)@, name@, function@) {
                Ok(sv) => r is Ok && final(self)@ == sv,
                Err(m) => final(self)@ == old(self)@ && (match r {
                    Err(pe) => pe.message@ == m,
                    Ok(_) => false,
                }),
            },
    {
        match self.symbol_table.add(name.clone()) {
            Err(e) => {
                proof {
                    assert(final(self)@ =~= old(self)@);
                }
                return Err(e);
            },
            Ok(_) => {},
        }
        self.func_table.insert(name, function);
        proof {
            assert(final(self)@ =~= (match sv_add_function(old(self)@, name@, function@) {
                Ok(sv) => sv,
                Err(_) => final(self)@,
            }));
        }
        Ok(())
    }

    /// Attaches the parsed body of a declared Simple function.
    pub fn set_function_body(&mut self, name: Symbol, body: Evaluation)
        requires
            old(self)@.funcs.contains_key(name@),
            old(self)@.funcs[name@] is Simple,
        ensures
            match old(self)@.funcs[name@] {
                FuncV::Simple { name: fname, params, ret, .. } => final(self)@ == (StateV {
                    funcs: old(self)@.funcs.insert(
                        name@,
                        FuncV::Simple { name: fname, params, body: Some(Box::new(body@)), ret },
                    ),
                    ..old(self)@
                }),
                _ => false,
            },
    {
        self.func_table.set_body(&name, Some(Box::new(body)));
        proof {
            assert(final(self)@ =~= (match old(self)@.funcs[name@] {
                FuncV::Simple { name: fname, params, ret, .. } => (StateV {
                    funcs: old(self)@.funcs.insert(
                        name@,
                        FuncV::Simple { name: fname, params, body: Some(Box::new(body@)), ret },
                    ),
                    ..old(self)@
                }),
                _ => final(self)@,
            }));
        }
    }

    /// Replaces the stored function under `name` with a fully built
    /// Breakout function.
    pub fn set_function_body_breakout(&mut self, name: Symbol, body: Function)
        ensures
            final(self)@ == (StateV { funcs: old(self)@.funcs.insert(name@, body@), ..old(self)@ }),
    {
        self.func_table.insert(name, body);
        proof {
            assert(final(self)@ =~= (StateV {
                funcs: old(self)@.funcs.insert(name@, body@),
                ..old(self)@
            }));
        }
    }

    /// The declared parameter types of a declared function.
    pub fn get_args(&self, symbol: &Symbol) -> (r: Vec<Type>)
        requires
            self@.funcs.contains_key(symbol@),
        ensures
            r@ == param_types(func_params(self@.funcs[symbol@])),
    {
        match self.func_table.get(symbol) {
            Some(f) => f.get_arg_types(),
            None => unreached(),
        }
    }

    pub fn is_function(&self, symbol: &Symbol) -> (r: bool)
        ensures
            r == self@.funcs.contains_key(symbol@),
    {
        self.func_table.get(symbol).is_some()
    }

    pub fn is_variables(&self, symbol: &Symbol) -> (r: bool)
        ensures
            r == self@.vars.contains_key(symbol@),
    {
        self.variables.get(symbol).is_some()
    }

    /// Installs a transient type override for one name.
    pub fn override_variables(&mut self, symbol: Symbol, value: Type)
        ensures
            final(self)@ == (StateV {
                overrides: old(self)@.overrides.insert(symbol@, value),
                ..old(self)@
            }),
    {
        self.variable_override.insert(symbol, value);
        proof {
            assert(final(self)@ =~= (StateV {
                overrides: old(self)@.overrides.insert(symbol@, value),
                ..old(self)@
            }));
        }
    }

    /// Drops every transient type override.
    pub fn clear_overrides(&mut self)
        ensures
            final(self)@ == (StateV { overrides: Map::<Seq<char>, Type>::empty(), ..old(self)@ }),
    {
        self.variable_override.clear();
        proof {
            assert(final(self)@ =~= (StateV {
                overrides: Map::<Seq<char>, Type>::empty(),
                ..old(self)@
            }));
        }
    }

    /// Statically resolves a name's type: an active override first, a
    /// declared variable's expression type next, a declared function's
    /// return type last.
    pub fn get_type(&self, symbol: &Symbol) -> (r: Option<Type>)
        ensures
            r == sv_type_of(self@, symbol@),
    {
        if let Some(t) = self.variable_override.get(symbol) {
            return Some(t);
        }
        if let Some(e) = self.variables.get(symbol) {
            return Some(e.get_type());
        }
        if let Some(f) = self.func_table.get(symbol) {
            return Some(f.get_type());
        }
        None
    }

    /// Evaluates the entry-point expression against the full variable and
    /// function mappings, within the given evaluation budget.
    pub fn eval_main(self, fuel: u64) -> (r: Result<Literal, EvalError>)
        ensures
            match self@.main_e {
                None => r == Err::<Literal, EvalError>(EvalError::NoEntryPoint),
                Some(me) => res_lit_view(r) == eval_expr(me, self@.vars, self@.funcs, fuel as nat),
            },
    {
        let eval = match self.main_evaluation {
            Some(e) => e,
            None => {
                return Err(EvalError::NoEntryPoint);
            },
        };
        eval.evaluate(&self.variables, &self.func_table, fuel)
    }
}

} // verus!
