//! The mapping types the evaluator and the program state are built on:
//! variable mappings (name to stored expression), the function table, and
//! the transient parse-time type overrides. Each is an association list
//! whose view is a map; a later entry for a name shadows an earlier one.
use vstd::prelude::*;
use crate::expressions::Evaluation;
use crate::functions::Function;
use crate::parser::Symbol;
use crate::scanner::Type;
use crate::semantics::{opt_body_view, params_view, EnvV, ExprV, FuncsV, FuncV};

verus! {

pub open spec fn env_pairs_view(s: Seq<(Symbol, Evaluation)>) -> EnvV
    decreases s.len(),
{
    if s.len() == 0 {
        Map::empty()
    } else {
        env_pairs_view(s.drop_last()).insert(s.last().0@, s.last().1@)
    }
}

pub open spec fn func_pairs_view(s: Seq<(Symbol, Function)>) -> FuncsV
    decreases s.len(),
{
    if s.len() == 0 {
        Map::empty()
    } else {
        func_pairs_view(s.drop_last()).insert(s.last().0@, s.last().1@)
    }
}

pub open spec fn type_pairs_view(s: Seq<(Symbol, Type)>) -> Map<Seq<char>, Type>
    decreases s.len(),
{
    if s.len() == 0 {
        Map::empty()
    } else {
        type_pairs_view(s.drop_last()).insert(s.last().0@, s.last().1)
    }
}

/// Entries at positions `i` and beyond never name `k`, so the view at `k`
/// is decided by the prefix before `i`.
proof fn lemma_env_suffix_free(s: Seq<(Symbol, Evaluation)>, i: int, k: Seq<char>)
    requires
        0 <= i <= s.len(),
        forall|j: int| i <= j < s.len() ==> (#[trigger] s[j]).0@ != k,
    ensures
        env_pairs_view(s).contains_key(k) == env_pairs_view(s.subrange(0, i)).contains_key(k),
        env_pairs_view(s).contains_key(k) ==> env_pairs_view(s)[k] == env_pairs_view(
            s.subrange(0, i),
        )[k],
    decreases s.len() - i,
{
    if i < s.len() {
        let s1 = s.drop_last();
        assert(s1.subrange(0, i) =~= s.subrange(0, i));
        lemma_env_suffix_free(s1, i, k);
    } else {
        assert(s.subrange(0, i) =~= s);
    }
}

proof fn lemma_func_suffix_free(s: Seq<(Symbol, Function)>, i: int, k: Seq<char>)
    requires
        0 <= i <= s.len(),
        forall|j: int| i <= j < s.len() ==> (#[trigger] s[j]).0@ != k,
    ensures
        func_pairs_view(s).contains_key(k) == func_pairs_view(s.subrange(0, i)).contains_key(k),
        func_pairs_view(s).contains_key(k) ==> func_pairs_view(s)[k] == func_pairs_view(
            s.subrange(0, i),
        )[k],
    decreases s.len() - i,
{
    if i < s.len() {
        let s1 = s.drop_last();
        assert(s1.subrange(0, i) =~= s.subrange(0, i));
        lemma_func_suffix_free(s1, i, k);
    } else {
        assert(s.subrange(0, i) =~= s);
    }
}

proof fn lemma_type_suffix_free(s: Seq<(Symbol, Type)>, i: int, k: Seq<char>)
    requires
        0 <= i <= s.len(),
        forall|j: int| i <= j < s.len() ==> (#[trigger] s[j]).0@ != k,
    ensures
        type_pairs_view(s).contains_key(k) == type_pairs_view(s.subrange(0, i)).contains_key(k),
        type_pairs_view(s).contains_key(k) ==> type_pairs_view(s)[k] == type_pairs_view(
            s.subrange(0, i),
        )[k],
    decreases s.len() - i,
{
    if i < s.len() {
        let s1 = s.drop_last();
        assert(s1.subrange(0, i) =~= s.subrange(0, i));
        lemma_type_suffix_free(s1, i, k);
    } else {
        assert(s.subrange(0, i) =~= s);
    }
}

/// Two pair sequences with the same names and equal stored views denote the
/// same mapping.
proof fn lemma_env_congruent(s1: Seq<(Symbol, Evaluation)>, s2: Seq<(Symbol, Evaluation)>)
    requires
        s1.len() == s2.len(),
        forall|j: int|
            0 <= j < s1.len() ==> (#[trigger] s1[j]).0@ == s2[j].0@ && s1[j].1@ == s2[j].1@,
    ensures
        env_pairs_view(s1) == env_pairs_view(s2),
    decreases s1.len(),
{
    if s1.len() > 0 {
        lemma_env_congruent(s1.drop_last(), s2.drop_last());
        assert(env_pairs_view(s1) =~= env_pairs_view(s2));
    } else {
        assert(env_pairs_view(s1) =~= env_pairs_view(s2));
    }
}

/// A mapping from names to stored expressions.
#[derive(Debug)]
pub struct Env {
    pairs: Vec<(Symbol, Evaluation)>,
}

impl View for Env {
    type V = EnvV;

    closed spec fn view(&self) -> EnvV {
        env_pairs_view(self.pairs@)
    }
}

impl Env {
    pub fn new() -> (r: Env)
        ensures
            r@ == Map::<Seq<char>, ExprV>::empty(),
    {
        Env { pairs: Vec::new() }
    }

    pub fn insert(&mut self, name: Symbol, value: Evaluation)
        ensures
            final(self)@ == old(self)@.insert(name@, value@),
    {
        self.pairs.push((name, value));
        proof {
            assert(self.pairs@.drop_last() =~= old(self).pairs@);
        }
    }

    /// Looks a name up: the entry stored last under that name decides.
    pub fn get(&self, name: &Symbol) -> (r: Option<&Evaluation>)
        ensures
            match r {
                Some(e) => self@.contains_key(name@) && e@ == self@[name@],
                None => !self@.contains_key(name@),
            },
    {
        let n = self.pairs.len();
        let mut i: usize = n;
        while i > 0
            invariant
                i <= n,
                n == self.pairs.len(),
                forall|j: int| i <= j < n ==> (#[trigger] self.pairs@[j]).0@ != name@,
            decreases i,
        {
            i -= 1;
            if self.pairs[i].0.same_name(name) {
                proof {
                    lemma_env_suffix_free(self.pairs@, i + 1, name@);
                    assert(self.pairs@.subrange(0, i + 1).drop_last() =~= self.pairs@.subrange(
                        0,
                        i as int,
                    ));
                    assert(self.pairs@.subrange(0, i + 1).last() == self.pairs@[i as int]);
                }
                return Some(&self.pairs[i].1);
            }
        }
        proof {
            lemma_env_suffix_free(self.pairs@, 0, name@);
            assert(self.pairs@.subrange(0, 0) =~= Seq::<(Symbol, Evaluation)>::empty());
        }
        None
    }

    /// An independent copy denoting the same mapping.
    pub fn clone_env(&self) -> (r: Env)
        ensures
            r@ == self@,
    {
        let mut out: Vec<(Symbol, Evaluation)> = Vec::new();
        let n = self.pairs.len();
        let mut i: usize = 0;
        while i < n
            invariant
                i <= n,
                n == self.pairs.len(),
                out@.len() == i as int,
                forall|j: int|
                    0 <= j < i ==> (#[trigger] out@[j]).0@ == self.pairs@[j].0@ && out@[j].1@
                        == self.pairs@[j].1@,
            decreases n - i,
        {
            let (s, e) = &self.pairs[i];
            out.push((s.clone(), e.clone()));
            i += 1;
        }
        proof {
            lemma_env_congruent(out@, self.pairs@);
        }
        Env { pairs: out }
    }
}

/// The function table: a mapping from names to declared functions.
#[derive(Debug)]
pub struct FuncMap {
    pairs: Vec<(Symbol, Function)>,
}

impl View for FuncMap {
    type V = FuncsV;

    closed spec fn view(&self) -> FuncsV {
        func_pairs_view(self.pairs@)
    }
}

impl FuncMap {
    pub fn new() -> (r: FuncMap)
        ensures
            r@ == Map::<Seq<char>, FuncV>::empty(),
    {
        FuncMap { pairs: Vec::new() }
    }

    pub fn insert(&mut self, name: Symbol, value: Function)
        ensures
            final(self)@ == old(self)@.insert(name@, value@),
    {
        self.pairs.push((name, value));
        proof {
            assert(self.pairs@.drop_last() =~= old(self).pairs@);
        }
    }

    pub fn get(&self, name: &Symbol) -> (r: Option<&Function>)
        ensures
            match r {
                Some(f) => self@.contains_key(name@) && f@ == self@[name@],
                None => !self@.contains_key(name@),
            },
    {
        let n = self.pairs.len();
        let mut i: usize = n;
        while i > 0
            invariant
                i <= n,
                n == self.pairs.len(),
                forall|j: int| i <= j < n ==> (#[trigger] self.pairs@[j]).0@ != name@,
            decreases i,
        {
            i -= 1;
            if self.pairs[i].0.same_name(name) {
                proof {
                    lemma_func_suffix_free(self.pairs@, i + 1, name@);
                    assert(self.pairs@.subrange(0, i + 1).drop_last() =~= self.pairs@.subrange(
                        0,
                        i as int,
                    ));
                    assert(self.pairs@.subrange(0, i + 1).last() == self.pairs@[i as int]);
                }
                return Some(&self.pairs[i].1);
            }
        }
        proof {
            lemma_func_suffix_free(self.pairs@, 0, name@);
            assert(self.pairs@.subrange(0, 0) =~= Seq::<(Symbol, Function)>::empty());
        }
        None
    }

    /// Attaches a body to the Simple function stored under `name`.
    pub fn set_body(&mut self, name: &Symbol, b: Option<Box<Evaluation>>)
        requires
            old(self)@.contains_key(name@),
            old(self)@[name@] is Simple,
        ensures
            match old(self)@[name@] {
                FuncV::Simple { name: fname, params, ret, .. } => final(self)@ == old(
                    self,
                )@.insert(name@, FuncV::Simple { name: fname, params, body: opt_body_view(b), ret }),
                _ => false,
            },
    {
        let n = self.pairs.len();
        let mut i: usize = n;
        while i > 0
            invariant
                i <= n,
                n == self.pairs.len(),
                self@ == old(self)@,
                self.pairs@ == old(self).pairs@,
                self@.contains_key(name@),
                self@[name@] is Simple,
                forall|j: int| i <= j < n ==> (#[trigger] self.pairs@[j]).0@ != name@,
            decreases i,
        {
            i -= 1;
            if self.pairs[i].0.same_name(name) {
                proof {
                    lemma_func_suffix_free(self.pairs@, i + 1, name@);
                    assert(self.pairs@.subrange(0, i + 1).drop_last() =~= self.pairs@.subrange(
                        0,
                        i as int,
                    ));
                    assert(self.pairs@.subrange(0, i + 1).last() == self.pairs@[i as int]);
                    assert(self.pairs@[i as int].1@ == self@[name@]);
                }
                match &self.pairs[i].1 {
                    Function::Simple { name: fname, args, return_type, .. } => {
                        let nf = Function::Simple {
                            name: fname.clone(),
                            args: clone_params(args),
                            body: b,
                            return_type: *return_type,
                        };
                        proof {
                            assert(params_view(nf->Simple_args@) =~= params_view(
                                self.pairs@[i as int].1->Simple_args@,
                            ));
                        }
                        self.pairs.push((name.clone(), nf));
                        proof {
                            assert(self.pairs@.drop_last() =~= old(self).pairs@);
                        }
                        return ;
                    },
                    _ => {
                        proof {
                            assert(false);
                        }
                    },
                }
            }
        }
        proof {
            lemma_func_suffix_free(self.pairs@, 0, name@);
            assert(self.pairs@.subrange(0, 0) =~= Seq::<(Symbol, Function)>::empty());
            assert(false);
        }
    }
}

/// Copies a parameter list, entry for entry.
pub(crate) fn clone_params(args: &Vec<(Symbol, Type)>) -> (r: Vec<(Symbol, Type)>)
    ensures
        params_view(r@) == params_view(args@),
{
    let mut out: Vec<(Symbol, Type)> = Vec::new();
    let n = args.len();
    let mut i: usize = 0;
    while i < n
        invariant
            i <= n,
            n == args.len(),
            out@.len() == i as int,
            forall|j: int|
                0 <= j < i ==> (#[trigger] out@[j]).0@ == args@[j].0@ && out@[j].1 == args@[j].1,
        decreases n - i,
    {
        let (s, t) = &args[i];
        out.push((s.clone(), *t));
        i += 1;
    }
    proof {
        assert(params_view(out@) =~= params_view(args@));
    }
    out
}

/// The transient parse-time type overrides.
#[derive(Debug)]
pub struct TypeOverrides {
    pairs: Vec<(Symbol, Type)>,
}

impl View for TypeOverrides {
    type V = Map<Seq<char>, Type>;

    closed spec fn view(&self) -> Map<Seq<char>, Type> {
        type_pairs_view(self.pairs@)
    }
}

impl TypeOverrides {
    pub fn new() -> (r: TypeOverrides)
        ensures
            r@ == Map::<Seq<char>, Type>::empty(),
    {
        TypeOverrides { pairs: Vec::new() }
    }

    pub fn insert(&mut self, name: Symbol, value: Type)
        ensures
            final(self)@ == old(self)@.insert(name@, value),
    {
        self.pairs.push((name, value));
        proof {
            assert(self.pairs@.drop_last() =~= old(self).pairs@);
        }
    }

    pub fn get(&self, name: &Symbol) -> (r: Option<Type>)
        ensures
            match r {
                Some(t) => self@.contains_key(name@) && t == self@[name@],
                None => !self@.contains_key(name@),
            },
    {
        let n = self.pairs.len();
        let mut i: usize = n;
        while i > 0
            invariant
                i <= n,
                n == self.pairs.len(),
                forall|j: int| i <= j < n ==> (#[trigger] self.pairs@[j]).0@ != name@,
            decreases i,
        {
            i -= 1;
            if self.pairs[i].0.same_name(name) {
                proof {
                    lemma_type_suffix_free(self.pairs@, i + 1, name@);
                    assert(self.pairs@.subrange(0, i + 1).drop_last() =~= self.pairs@.subrange(
                        0,
                        i as int,
                    ));
                    assert(self.pairs@.subrange(0, i + 1).last() == self.pairs@[i as int]);
                }
                return Some(self.pairs[i].1);
            }
        }
        proof {
            lemma_type_suffix_free(self.pairs@, 0, name@);
            assert(self.pairs@.subrange(0, 0) =~= Seq::<(Symbol, Type)>::empty());
        }
        None
    }

    /// Drops every override.
    pub fn clear(&mut self)
        ensures
            final(self)@ == Map::<Seq<char>, Type>::empty(),
    {
        self.pairs.clear();
    }
}

} // verus!
