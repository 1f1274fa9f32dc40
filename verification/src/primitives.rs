//! The primitive value types of the language — integers, floats, booleans,
//! strings — their arithmetic and comparison operations, and the dispatch
//! table that applies one primitive operator to evaluated operands.
//!
//! Integer arithmetic wraps around on overflow. Float values are carried as
//! the bit pattern of an IEEE double; their arithmetic is delegated to the
//! rustc_apfloat software implementation of IEEE-754.
use vstd::prelude::*;
use vstd::string::StringExecFns;
use crate::errors::EvalError;
use crate::parser::Literal;
use crate::scanner::{Operator, Type};
use crate::semantics::{prim_op_result, promote2, res_lit_view, LitV};

verus! {

/// A machine integer value of the language.
#[derive(Debug, Clone, Copy, PartialEq, Eq, Structural)]
pub struct Int {
    pub value: i64,
}

/// Truncating division of two machine integers; the one overflowing case
/// wraps around, as the wrapping operations of the machine do.
pub open spec fn int_div(a: i64, b: i64) -> i64
    recommends
        b != 0,
{
    let x = a as int;
    let d = b as int;
    let q = if x == 0 {
        0int
    } else if x > 0 && d > 0 {
        x / d
    } else if x < 0 && d < 0 {
        (x * -1) / (d * -1)
    } else if x < 0 {
        ((x * -1) / d) * -1
    } else {
        (x / (d * -1)) * -1
    };
    if q < i64::MIN || q > i64::MAX {
        i64::MIN
    } else {
        q as i64
    }
}

/// Truncating remainder of two machine integers; the one overflowing case
/// yields zero, as the wrapping operations of the machine do.
pub open spec fn int_rem(a: i64, b: i64) -> i64
    recommends
        b != 0,
{
    if a == i64::MIN && b == -1 {
        0
    } else {
        let x = a as int;
        let d = b as int;
        let m = if x == 0 {
            0int
        } else if x > 0 && d > 0 {
            x % d
        } else if x < 0 && d < 0 {
            ((x * -1) % (d * -1)) * -1
        } else if x < 0 {
            ((x * -1) % d) * -1
        } else {
            x % (d * -1)
        };
        m as i64
    }
}

impl View for Int {
    type V = i64;

    open spec fn view(&self) -> i64 {
        self.value
    }
}

impl Int {
    pub fn new(value: i64) -> (r: Int)
        ensures
            r@ == value,
    {
        Int { value }
    }

    pub fn get(&self) -> (r: i64)
        ensures
            r == self@,
    {
        self.value
    }

    /// Relies on rustc_apfloat's conversion of an IEEE double to an integer,
    /// rounding toward zero and saturating; the result is a function of the
    /// bit pattern alone.
    #[verifier::external_body]
    pub fn from_float(value: Float) -> (r: Int)
        ensures
            r@ == int_of_float(value@),
    {
        let x = <rustc_apfloat::ieee::Double as rustc_apfloat::Float>::from_bits(
            value.bits as u128,
        );
        Int { value: rustc_apfloat::Float::to_i128(x, 64).value as i64 }
    }

    pub fn add(a: Int, b: Int) -> (r: Int)
        ensures
            r@ == vstd::wrapping::i64_specs::wrapping_add(a@, b@),
    {
        Int { value: a.value.wrapping_add(b.value) }
    }

    pub fn sub(a: Int, b: Int) -> (r: Int)
        ensures
            r@ == vstd::wrapping::i64_specs::wrapping_sub(a@, b@),
    {
        Int { value: a.value.wrapping_sub(b.value) }
    }

    pub fn mul(a: Int, b: Int) -> (r: Int)
        ensures
            r@ == vstd::wrapping::i64_specs::wrapping_mul(a@, b@),
    {
        Int { value: a.value.wrapping_mul(b.value) }
    }

    pub fn div(a: Int, b: Int) -> (r: Int)
        requires
            b@ != 0,
        ensures
            r@ == int_div(a@, b@),
    {
        match a.value.checked_div(b.value) {
            Some(v) => Int { value: v },
            None => Int { value: i64::MIN },
        }
    }

    pub fn rem(a: Int, b: Int) -> (r: Int)
        requires
            b@ != 0,
        ensures
            r@ == int_rem(a@, b@),
    {
        match a.value.checked_rem(b.value) {
            Some(v) => Int { value: v },
            None => Int { value: 0 },
        }
    }

    pub fn gt(a: Int, b: Int) -> (r: Bool)
        ensures
            r@ == (a@ > b@),
    {
        Bool { value: a.value > b.value }
    }

    pub fn lt(a: Int, b: Int) -> (r: Bool)
        ensures
            r@ == (a@ < b@),
    {
        Bool { value: a.value < b.value }
    }

    pub fn geq(a: Int, b: Int) -> (r: Bool)
        ensures
            r@ == (a@ >= b@),
    {
        Bool { value: a.value >= b.value }
    }

    pub fn leq(a: Int, b: Int) -> (r: Bool)
        ensures
            r@ == (a@ <= b@),
    {
        Bool { value: a.value <= b.value }
    }

    pub fn eq(a: Int, b: Int) -> (r: Bool)
        ensures
            r@ == (a@ == b@),
    {
        Bool { value: a.value == b.value }
    }

    pub fn neq(a: Int, b: Int) -> (r: Bool)
        ensures
            r@ == (a@ != b@),
    {
        Bool { value: a.value != b.value }
    }
}

/// A float value of the language, carried as the bit pattern of an IEEE
/// double-precision float.
#[derive(Debug, Clone, Copy, PartialEq, Eq, Structural)]
pub struct Float {
    pub bits: u64,
}

/// The bit pattern of the IEEE sum of the doubles with bit patterns `a`, `b`.
pub uninterp spec fn float_add_bits(a: u64, b: u64) -> u64;

/// The bit pattern of the IEEE difference of two doubles.
pub uninterp spec fn float_sub_bits(a: u64, b: u64) -> u64;

/// The bit pattern of the IEEE product of two doubles.
pub uninterp spec fn float_mul_bits(a: u64, b: u64) -> u64;

/// The bit pattern of the IEEE quotient of two doubles.
pub uninterp spec fn float_div_bits(a: u64, b: u64) -> u64;

/// IEEE equality of two doubles given by bit pattern.
pub uninterp spec fn float_eq_bits(a: u64, b: u64) -> bool;

/// IEEE strict ordering (greater) of two doubles given by bit pattern.
pub uninterp spec fn float_gt_bits(a: u64, b: u64) -> bool;

/// IEEE strict ordering (less) of two doubles given by bit pattern.
pub uninterp spec fn float_lt_bits(a: u64, b: u64) -> bool;

/// The bit pattern of the IEEE double nearest to a machine integer.
pub uninterp spec fn float_of_int(value: i64) -> u64;

/// The machine integer a double converts to, rounding toward zero.
pub uninterp spec fn int_of_float(bits: u64) -> i64;

impl View for Float {
    type V = u64;

    open spec fn view(&self) -> u64 {
        self.bits
    }
}

impl Float {
    pub fn from_bits(bits: u64) -> (r: Float)
        ensures
            r@ == bits,
    {
        Float { bits }
    }

    pub fn bits(&self) -> (r: u64)
        ensures
            r == self@,
    {
        self.bits
    }

    /// Relies on rustc_apfloat's integer-to-double conversion, rounding to
    /// nearest, ties to even; the result is a function of the integer alone.
    #[verifier::external_body]
    pub fn from_int(value: i64) -> (r: Float)
        ensures
            r@ == float_of_int(value),
    {
        let x = <rustc_apfloat::ieee::Double as rustc_apfloat::Float>::from_i128(value as i128);
        Float { bits: rustc_apfloat::Float::to_bits(x.value) as u64 }
    }

    /// Relies on rustc_apfloat's IEEE double addition; the sum is a function
    /// of the operands' bit patterns alone.
    #[verifier::external_body]
    pub fn add(a: Float, b: Float) -> (r: Float)
        ensures
            r@ == float_add_bits(a@, b@),
    {
        let x = <rustc_apfloat::ieee::Double as rustc_apfloat::Float>::from_bits(a.bits as u128);
        let y = <rustc_apfloat::ieee::Double as rustc_apfloat::Float>::from_bits(b.bits as u128);
        Float { bits: rustc_apfloat::Float::to_bits((x + y).value) as u64 }
    }

    /// Relies on rustc_apfloat's IEEE double subtraction.
    #[verifier::external_body]
    pub fn sub(a: Float, b: Float) -> (r: Float)
        ensures
            r@ == float_sub_bits(a@, b@),
    {
        let x = <rustc_apfloat::ieee::Double as rustc_apfloat::Float>::from_bits(a.bits as u128);
        let y = <rustc_apfloat::ieee::Double as rustc_apfloat::Float>::from_bits(b.bits as u128);
        Float { bits: rustc_apfloat::Float::to_bits((x - y).value) as u64 }
    }

    /// Relies on rustc_apfloat's IEEE double multiplication.
    #[verifier::external_body]
    pub fn mul(a: Float, b: Float) -> (r: Float)
        ensures
            r@ == float_mul_bits(a@, b@),
    {
        let x = <rustc_apfloat::ieee::Double as rustc_apfloat::Float>::from_bits(a.bits as u128);
        let y = <rustc_apfloat::ieee::Double as rustc_apfloat::Float>::from_bits(b.bits as u128);
        Float { bits: rustc_apfloat::Float::to_bits((x * y).value) as u64 }
    }

    /// Relies on rustc_apfloat's IEEE double division.
    #[verifier::external_body]
    pub fn div(a: Float, b: Float) -> (r: Float)
        ensures
            r@ == float_div_bits(a@, b@),
    {
        let x = <rustc_apfloat::ieee::Double as rustc_apfloat::Float>::from_bits(a.bits as u128);
        let y = <rustc_apfloat::ieee::Double as rustc_apfloat::Float>::from_bits(b.bits as u128);
        Float { bits: rustc_apfloat::Float::to_bits((x / y).value) as u64 }
    }

    /// Relies on rustc_apfloat's IEEE double comparison: its `==` returns
    /// IEEE equality (no NaN is equal to anything, zero equals negative zero).
    #[verifier::external_body]
    pub fn eq(a: Float, b: Float) -> (r: Bool)
        ensures
            r@ == float_eq_bits(a@, b@),
    {
        let x = <rustc_apfloat::ieee::Double as rustc_apfloat::Float>::from_bits(a.bits as u128);
        let y = <rustc_apfloat::ieee::Double as rustc_apfloat::Float>::from_bits(b.bits as u128);
        Bool { value: x == y }
    }

    /// Relies on rustc_apfloat's IEEE double comparison: `!=` is the
    /// negation of IEEE equality.
    #[verifier::external_body]
    pub fn neq(a: Float, b: Float) -> (r: Bool)
        ensures
            r@ == !float_eq_bits(a@, b@),
    {
        let x = <rustc_apfloat::ieee::Double as rustc_apfloat::Float>::from_bits(a.bits as u128);
        let y = <rustc_apfloat::ieee::Double as rustc_apfloat::Float>::from_bits(b.bits as u128);
        Bool { value: x != y }
    }

    /// Relies on rustc_apfloat's IEEE partial order on doubles.
    #[verifier::external_body]
    pub fn gt(a: Float, b: Float) -> (r: Bool)
        ensures
            r@ == float_gt_bits(a@, b@),
    {
        let x = <rustc_apfloat::ieee::Double as rustc_apfloat::Float>::from_bits(a.bits as u128);
        let y = <rustc_apfloat::ieee::Double as rustc_apfloat::Float>::from_bits(b.bits as u128);
        Bool { value: matches!(x.partial_cmp(&y), Some(core::cmp::Ordering::Greater)) }
    }

    /// Relies on rustc_apfloat's IEEE partial order on doubles.
    #[verifier::external_body]
    pub fn lt(a: Float, b: Float) -> (r: Bool)
        ensures
            r@ == float_lt_bits(a@, b@),
    {
        let x = <rustc_apfloat::ieee::Double as rustc_apfloat::Float>::from_bits(a.bits as u128);
        let y = <rustc_apfloat::ieee::Double as rustc_apfloat::Float>::from_bits(b.bits as u128);
        Bool { value: matches!(x.partial_cmp(&y), Some(core::cmp::Ordering::Less)) }
    }

    /// Relies on rustc_apfloat's IEEE partial order on doubles: greater or
    /// equal holds exactly when greater holds or IEEE equality holds.
    #[verifier::external_body]
    pub fn geq(a: Float, b: Float) -> (r: Bool)
        ensures
            r@ == (float_gt_bits(a@, b@) || float_eq_bits(a@, b@)),
    {
        let x = <rustc_apfloat::ieee::Double as rustc_apfloat::Float>::from_bits(a.bits as u128);
        let y = <rustc_apfloat::ieee::Double as rustc_apfloat::Float>::from_bits(b.bits as u128);
        Bool {
            value: matches!(
                x.partial_cmp(&y),
                Some(core::cmp::Ordering::Greater) | Some(core::cmp::Ordering::Equal)
            ),
        }
    }

    /// Relies on rustc_apfloat's IEEE partial order on doubles: less or
    /// equal holds exactly when less holds or IEEE equality holds.
    #[verifier::external_body]
    pub fn leq(a: Float, b: Float) -> (r: Bool)
        ensures
            r@ == (float_lt_bits(a@, b@) || float_eq_bits(a@, b@)),
    {
        let x = <rustc_apfloat::ieee::Double as rustc_apfloat::Float>::from_bits(a.bits as u128);
        let y = <rustc_apfloat::ieee::Double as rustc_apfloat::Float>::from_bits(b.bits as u128);
        Bool {
            value: matches!(
                x.partial_cmp(&y),
                Some(core::cmp::Ordering::Less) | Some(core::cmp::Ordering::Equal)
            ),
        }
    }
}

/// A boolean value of the language.
#[derive(Debug, Clone, Copy, PartialEq, Eq, Structural)]
pub struct Bool {
    pub value: bool,
}

impl View for Bool {
    type V = bool;

    open spec fn view(&self) -> bool {
        self.value
    }
}

impl Bool {
    pub fn new(value: bool) -> (r: Bool)
        ensures
            r@ == value,
    {
        Bool { value }
    }

    pub fn get(&self) -> (r: bool)
        ensures
            r == self@,
    {
        self.value
    }

    pub fn or(a: Bool, b: Bool) -> (r: Bool)
        ensures
            r@ == (a@ || b@),
    {
        Bool { value: a.value || b.value }
    }

    pub fn and(a: Bool, b: Bool) -> (r: Bool)
        ensures
            r@ == (a@ && b@),
    {
        Bool { value: a.value && b.value }
    }

    pub fn not(a: Bool) -> (r: Bool)
        ensures
            r@ == !a@,
    {
        Bool { value: !a.value }
    }

    pub fn nand(a: Bool, b: Bool) -> (r: Bool)
        ensures
            r@ == !(a@ && b@),
    {
        Bool { value: !(a.value && b.value) }
    }

    pub fn eq(a: Bool, b: Bool) -> (r: Bool)
        ensures
            r@ == (a@ == b@),
    {
        Bool { value: a.value == b.value }
    }

    pub fn neq(a: Bool, b: Bool) -> (r: Bool)
        ensures
            r@ == (a@ != b@),
    {
        Bool { value: a.value != b.value }
    }
}

/// A string value of the language.
#[derive(Debug, PartialEq, Eq)]
pub struct Str {
    pub value: String,
}

impl View for Str {
    type V = Seq<char>;

    open spec fn view(&self) -> Seq<char> {
        self.value@
    }
}

impl Clone for Str {
    fn clone(&self) -> (r: Self)
        ensures
            r == *self,
    {
        Str { value: self.value.clone() }
    }
}

impl Str {
    pub fn new(value: String) -> (r: Str)
        ensures
            r@ == value@,
    {
        Str { value }
    }

    pub fn get(&self) -> (r: String)
        ensures
            r@ == self@,
    {
        self.value.clone()
    }

    pub fn concat(a: Str, b: Str) -> (r: Str)
        ensures
            r@ == a@ + b@,
    {
        Str { value: a.value.concat(b.value.as_str()) }
    }

    pub fn eq(a: Str, b: Str) -> (r: Bool)
        ensures
            r@ == (a@ == b@),
    {
        Bool { value: a.value == b.value }
    }

    pub fn neq(a: Str, b: Str) -> (r: Bool)
        ensures
            r@ == (a@ != b@),
    {
        Bool { value: a.value != b.value }
    }
}

/// The promoted numeric type of a binary arithmetic operation.
pub open spec fn promoted_num_type(type1: Type, type2: Type) -> Type {
    if type1 == Type::Float || type2 == Type::Float {
        Type::Float
    } else {
        Type::Int
    }
}

pub fn go_to_float(type1: Type, type2: Type) -> (r: Type)
    ensures
        r == promoted_num_type(type1, type2),
{
    if type1 == Type::Float || type2 == Type::Float {
        Type::Float
    } else {
        Type::Int
    }
}

/// The static result type of one primitive operator applied to operands of
/// the given static types. The conditional pseudo-operator is handled
/// structurally by the expression tree and has no entry of its own.
pub open spec fn prim_op_type(op: Operator, type1: Type, type2: Type) -> Type {
    match op {
        Operator::Eq => Type::Bool,
        Operator::Gt => Type::Bool,
        Operator::Lt => Type::Bool,
        Operator::Geq => Type::Bool,
        Operator::Leq => Type::Bool,
        Operator::Neq => Type::Bool,
        Operator::Or => Type::Bool,
        Operator::And => Type::Bool,
        Operator::Nand => Type::Bool,
        Operator::Not => Type::Bool,
        Operator::Mod => Type::Int,
        Operator::Plus => promoted_num_type(type1, type2),
        Operator::Minus => promoted_num_type(type1, type2),
        Operator::Mult => promoted_num_type(type1, type2),
        Operator::Div => promoted_num_type(type1, type2),
        Operator::Concat => Type::Str,
        Operator::Cond => Type::NoType,
        Operator::Floor => Type::Int,
    }
}

pub fn get_prim_op_type(op: Operator, type1: Type, type2: Type) -> (r: Type)
    ensures
        r == prim_op_type(op, type1, type2),
{
    match op {
        Operator::Eq => Type::Bool,
        Operator::Gt => Type::Bool,
        Operator::Lt => Type::Bool,
        Operator::Geq => Type::Bool,
        Operator::Leq => Type::Bool,
        Operator::Neq => Type::Bool,
        Operator::Or => Type::Bool,
        Operator::And => Type::Bool,
        Operator::Nand => Type::Bool,
        Operator::Not => Type::Bool,
        Operator::Mod => Type::Int,
        Operator::Plus => go_to_float(type1, type2),
        Operator::Minus => go_to_float(type1, type2),
        Operator::Mult => go_to_float(type1, type2),
        Operator::Div => go_to_float(type1, type2),
        Operator::Concat => Type::Str,
        Operator::Cond => Type::NoType,
        Operator::Floor => Type::Int,
    }
}

/// Applies the numeric promotion rule to a pair of evaluated operands: if
/// one is a float and the other an integer, the integer is converted.
fn promote_pair(eval1: Literal, eval2: Literal) -> (r: (Literal, Literal))
    ensures
        (r.0@, r.1@) == promote2(eval1@, eval2@),
{
    match (&eval1, &eval2) {
        (Literal::Integer(a), Literal::Float(_)) => {
            let p = Literal::Float(Float::from_int(a.get()));
            (p, eval2)
        },
        (Literal::Float(_), Literal::Integer(b)) => {
            let p = Literal::Float(Float::from_int(b.get()));
            (eval1, p)
        },
        _ => (eval1, eval2),
    }
}

/// Applies one primitive operator to two evaluated operands (the second is
/// the void literal for unary operators), after numeric promotion, per the
/// fixed operator/type table.
pub fn exec_prim_op(op: Operator, eval1: Literal, eval2: Literal) -> (r: Result<Literal, EvalError>)
    ensures
        res_lit_view(r) == prim_op_result(op, eval1@, eval2@),
{
    let (v1, v2) = promote_pair(eval1, eval2);
    match op {
        Operator::Eq => match (v1, v2) {
            (Literal::Integer(a), Literal::Integer(b)) => Ok(Literal::Bool(Int::eq(a, b))),
            (Literal::Float(a), Literal::Float(b)) => Ok(Literal::Bool(Float::eq(a, b))),
            (Literal::Bool(a), Literal::Bool(b)) => Ok(Literal::Bool(Bool::eq(a, b))),
            (Literal::String(a), Literal::String(b)) => Ok(Literal::Bool(Str::eq(a, b))),
            _ => Err(EvalError::BadOperands),
        },
        Operator::Gt => match (v1, v2) {
            (Literal::Integer(a), Literal::Integer(b)) => Ok(Literal::Bool(Int::gt(a, b))),
            (Literal::Float(a), Literal::Float(b)) => Ok(Literal::Bool(Float::gt(a, b))),
            _ => Err(EvalError::BadOperands),
        },
        Operator::Lt => match (v1, v2) {
            (Literal::Integer(a), Literal::Integer(b)) => Ok(Literal::Bool(Int::lt(a, b))),
            (Literal::Float(a), Literal::Float(b)) => Ok(Literal::Bool(Float::lt(a, b))),
            _ => Err(EvalError::BadOperands),
        },
        Operator::Geq => match (v1, v2) {
            (Literal::Integer(a), Literal::Integer(b)) => Ok(Literal::Bool(Int::geq(a, b))),
            (Literal::Float(a), Literal::Float(b)) => Ok(Literal::Bool(Float::geq(a, b))),
            _ => Err(EvalError::BadOperands),
        },
        Operator::Leq => match (v1, v2) {
            (Literal::Integer(a), Literal::Integer(b)) => Ok(Literal::Bool(Int::leq(a, b))),
            (Literal::Float(a), Literal::Float(b)) => Ok(Literal::Bool(Float::leq(a, b))),
            _ => Err(EvalError::BadOperands),
        },
        Operator::Neq => match (v1, v2) {
            (Literal::Integer(a), Literal::Integer(b)) => Ok(Literal::Bool(Int::neq(a, b))),
            (Literal::Float(a), Literal::Float(b)) => Ok(Literal::Bool(Float::neq(a, b))),
            (Literal::Bool(a), Literal::Bool(b)) => Ok(Literal::Bool(Bool::neq(a, b))),
            (Literal::String(a), Literal::String(b)) => Ok(Literal::Bool(Str::neq(a, b))),
            _ => Err(EvalError::BadOperands),
        },
        Operator::Or => match (v1, v2) {
            (Literal::Bool(a), Literal::Bool(b)) => Ok(Literal::Bool(Bool::or(a, b))),
            _ => Err(EvalError::BadOperands),
        },
        Operator::And => match (v1, v2) {
            (Literal::Bool(a), Literal::Bool(b)) => Ok(Literal::Bool(Bool::and(a, b))),
            _ => Err(EvalError::BadOperands),
        },
        Operator::Not => match v1 {
            Literal::Bool(a) => Ok(Literal::Bool(Bool::not(a))),
            _ => Err(EvalError::BadOperands),
        },
        Operator::Nand => match (v1, v2) {
            (Literal::Bool(a), Literal::Bool(b)) => Ok(Literal::Bool(Bool::nand(a, b))),
            _ => Err(EvalError::BadOperands),
        },
        Operator::Mod => match (v1, v2) {
            (Literal::Integer(a), Literal::Integer(b)) => {
                if b.get() == 0 {
                    Err(EvalError::DivisionByZero)
                } else {
                    Ok(Literal::Integer(Int::rem(a, b)))
                }
            },
            _ => Err(EvalError::BadOperands),
        },
        Operator::Plus => match (v1, v2) {
            (Literal::Integer(a), Literal::Integer(b)) => Ok(Literal::Integer(Int::add(a, b))),
            (Literal::Float(a), Literal::Float(b)) => Ok(Literal::Float(Float::add(a, b))),
            _ => Err(EvalError::BadOperands),
        },
        Operator::Minus => match (v1, v2) {
            (Literal::Integer(a), Literal::Integer(b)) => Ok(Literal::Integer(Int::sub(a, b))),
            (Literal::Float(a), Literal::Float(b)) => Ok(Literal::Float(Float::sub(a, b))),
            _ => Err(EvalError::BadOperands),
        },
        Operator::Mult => match (v1, v2) {
            (Literal::Integer(a), Literal::Integer(b)) => Ok(Literal::Integer(Int::mul(a, b))),
            (Literal::Float(a), Literal::Float(b)) => Ok(Literal::Float(Float::mul(a, b))),
            _ => Err(EvalError::BadOperands),
        },
        Operator::Div => match (v1, v2) {
            (Literal::Integer(a), Literal::Integer(b)) => {
                if b.get() == 0 {
                    Err(EvalError::DivisionByZero)
                } else {
                    Ok(Literal::Integer(Int::div(a, b)))
                }
            },
            (Literal::Float(a), Literal::Float(b)) => Ok(Literal::Float(Float::div(a, b))),
            _ => Err(EvalError::BadOperands),
        },
        Operator::Concat => match (v1, v2) {
            (Literal::String(a), Literal::String(b)) => Ok(Literal::String(Str::concat(a, b))),
            _ => Err(EvalError::BadOperands),
        },
        Operator::Floor => match v1 {
            Literal::Float(a) => Ok(Literal::Integer(Int::from_float(a))),
            _ => Err(EvalError::BadOperands),
        },
        Operator::Cond => Err(EvalError::BadOperands),
    }
}

} // verus!
