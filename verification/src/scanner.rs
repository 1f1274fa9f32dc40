//! The token vocabulary of the language, and the line source that feeds the
//! tokenizer. Splitting raw text into words is left to the caller; this
//! module classifies one word as a language token or a free-form string.
use vstd::prelude::*;
use vstd::string::StringExecFns;

verus! {

#[derive(Debug, Copy, Clone, PartialEq, Eq, Structural)]
pub enum Delimeter {
    Comma,
    LPar,
    RPar,
    Dot,
    Colon,
    Semicolon,
}

#[derive(Debug, Copy, Clone, PartialEq, Eq, Structural)]
pub enum Keyword {
    Func,
    Kerchow,
    Bar,
    Define,
    Punch,
    Kick,
}

/// The declarable types of the language, plus `NoType` for the void literal.
#[derive(Debug, Copy, Clone, PartialEq, Eq, Structural)]
pub enum Type {
    Int,
    Float,
    Str,
    Bool,
    NoType,
}

#[derive(Debug, Copy, Clone, PartialEq, Eq, Structural)]
pub enum Operator {
    Plus,
    Minus,
    Mult,
    Div,
    Mod,
    Eq,
    Neq,
    Geq,
    Gt,
    Leq,
    Lt,
    And,
    Or,
    Not,
    Nand,
    Concat,
    Cond,
    Floor,
}

#[derive(Debug, Copy, Clone, PartialEq, Eq, Structural)]
pub enum PreToken {
    DEL(Delimeter),
    KW(Keyword),
    OP(Operator),
    TYPE(Type),
    EOL,
    COMMENT,
}

/// One word of a source line: either a recognized language token or a
/// free-form string (a symbol name or a literal, classified later).
#[derive(Debug, PartialEq, Eq)]
pub enum PreTokenized {
    T(PreToken),
    S(String),
}

/// The fixed word-to-token table of the language.
pub open spec fn spec_lang_token(s: Seq<char>) -> Option<PreToken> {
    if s == ","@ {
        Some(PreToken::DEL(Delimeter::Comma))
    } else if s == "("@ {
        Some(PreToken::DEL(Delimeter::LPar))
    } else if s == ")"@ {
        Some(PreToken::DEL(Delimeter::RPar))
    } else if s == "."@ {
        Some(PreToken::DEL(Delimeter::Dot))
    } else if s == ":"@ {
        Some(PreToken::DEL(Delimeter::Colon))
    } else if s == ";"@ {
        Some(PreToken::DEL(Delimeter::Semicolon))
    } else if s == "+"@ {
        Some(PreToken::OP(Operator::Plus))
    } else if s == "-"@ {
        Some(PreToken::OP(Operator::Minus))
    } else if s == "*"@ {
        Some(PreToken::OP(Operator::Mult))
    } else if s == "/"@ {
        Some(PreToken::OP(Operator::Div))
    } else if s == "%"@ {
        Some(PreToken::OP(Operator::Mod))
    } else if s == "=="@ {
        Some(PreToken::OP(Operator::Eq))
    } else if s == "!="@ {
        Some(PreToken::OP(Operator::Neq))
    } else if s == ">="@ {
        Some(PreToken::OP(Operator::Geq))
    } else if s == ">"@ {
        Some(PreToken::OP(Operator::Gt))
    } else if s == "<="@ {
        Some(PreToken::OP(Operator::Leq))
    } else if s == "<"@ {
        Some(PreToken::OP(Operator::Lt))
    } else if s == "&&"@ {
        Some(PreToken::OP(Operator::And))
    } else if s == "||"@ {
        Some(PreToken::OP(Operator::Or))
    } else if s == "!"@ {
        Some(PreToken::OP(Operator::Not))
    } else if s == "!&&"@ {
        Some(PreToken::OP(Operator::Nand))
    } else if s == "concat"@ {
        Some(PreToken::OP(Operator::Concat))
    } else if s == "cond"@ {
        Some(PreToken::OP(Operator::Cond))
    } else if s == "floor"@ {
        Some(PreToken::OP(Operator::Floor))
    } else if s == "|"@ {
        Some(PreToken::KW(Keyword::Bar))
    } else if s == "punch"@ {
        Some(PreToken::KW(Keyword::Punch))
    } else if s == "kick"@ {
        Some(PreToken::KW(Keyword::Kick))
    } else if s == "=>"@ {
        Some(PreToken::KW(Keyword::Kerchow))
    } else if s == ":="@ {
        Some(PreToken::KW(Keyword::Define))
    } else if s == "func"@ {
        Some(PreToken::KW(Keyword::Func))
    } else if s == "int"@ {
        Some(PreToken::TYPE(Type::Int))
    } else if s == "float"@ {
        Some(PreToken::TYPE(Type::Float))
    } else if s == "str"@ {
        Some(PreToken::TYPE(Type::Str))
    } else if s == "bool"@ {
        Some(PreToken::TYPE(Type::Bool))
    } else if s == "#"@ {
        Some(PreToken::COMMENT)
    } else {
        None
    }
}

/// Classifies one word: a word in the fixed table becomes its language
/// token; any other word is kept as a free-form string.
pub fn string_to_tokenize(s: &str) -> (r: PreTokenized)
    ensures
        match spec_lang_token(s@) {
            Some(t) => r == PreTokenized::T(t),
            None => match r {
                PreTokenized::S(x) => x@ == s@,
                _ => false,
            },
        },
{
    let w = String::from_str(s);
    if w == String::from_str(",") {
        PreTokenized::T(PreToken::DEL(Delimeter::Comma))
    } else if w == String::from_str("(") {
        PreTokenized::T(PreToken::DEL(Delimeter::LPar))
    } else if w == String::from_str(")") {
        PreTokenized::T(PreToken::DEL(Delimeter::RPar))
    } else if w == String::from_str(".") {
        PreTokenized::T(PreToken::DEL(Delimeter::Dot))
    } else if w == String::from_str(":") {
        PreTokenized::T(PreToken::DEL(Delimeter::Colon))
    } else if w == String::from_str(";") {
        PreTokenized::T(PreToken::DEL(Delimeter::Semicolon))
    } else if w == String::from_str("+") {
        PreTokenized::T(PreToken::OP(Operator::Plus))
    } else if w == String::from_str("-") {
        PreTokenized::T(PreToken::OP(Operator::Minus))
    } else if w == String::from_str("*") {
        PreTokenized::T(PreToken::OP(Operator::Mult))
    } else if w == String::from_str("/") {
        PreTokenized::T(PreToken::OP(Operator::Div))
    } else if w == String::from_str("%") {
        PreTokenized::T(PreToken::OP(Operator::Mod))
    } else if w == String::from_str("==") {
        PreTokenized::T(PreToken::OP(Operator::Eq))
    } else if w == String::from_str("!=") {
        PreTokenized::T(PreToken::OP(Operator::Neq))
    } else if w == String::from_str(">=") {
        PreTokenized::T(PreToken::OP(Operator::Geq))
    } else if w == String::from_str(">") {
        PreTokenized::T(PreToken::OP(Operator::Gt))
    } else if w == String::from_str("<=") {
        PreTokenized::T(PreToken::OP(Operator::Leq))
    } else if w == String::from_str("<") {
        PreTokenized::T(PreToken::OP(Operator::Lt))
    } else if w == String::from_str("&&") {
        PreTokenized::T(PreToken::OP(Operator::And))
    } else if w == String::from_str("||") {
        PreTokenized::T(PreToken::OP(Operator::Or))
    } else if w == String::from_str("!") {
        PreTokenized::T(PreToken::OP(Operator::Not))
    } else if w == String::from_str("!&&") {
        PreTokenized::T(PreToken::OP(Operator::Nand))
    } else if w == String::from_str("concat") {
        PreTokenized::T(PreToken::OP(Operator::Concat))
    } else if w == String::from_str("cond") {
        PreTokenized::T(PreToken::OP(Operator::Cond))
    } else if w == String::from_str("floor") {
        PreTokenized::T(PreToken::OP(Operator::Floor))
    } else if w == String::from_str("|") {
        PreTokenized::T(PreToken::KW(Keyword::Bar))
    } else if w == String::from_str("punch") {
        PreTokenized::T(PreToken::KW(Keyword::Punch))
    } else if w == String::from_str("kick") {
        PreTokenized::T(PreToken::KW(Keyword::Kick))
    } else if w == String::from_str("=>") {
        PreTokenized::T(PreToken::KW(Keyword::Kerchow))
    } else if w == String::from_str(":=") {
        PreTokenized::T(PreToken::KW(Keyword::Define))
    } else if w == String::from_str("func") {
        PreTokenized::T(PreToken::KW(Keyword::Func))
    } else if w == String::from_str("int") {
        PreTokenized::T(PreToken::TYPE(Type::Int))
    } else if w == String::from_str("float") {
        PreTokenized::T(PreToken::TYPE(Type::Float))
    } else if w == String::from_str("str") {
        PreTokenized::T(PreToken::TYPE(Type::Str))
    } else if w == String::from_str("bool") {
        PreTokenized::T(PreToken::TYPE(Type::Bool))
    } else if w == String::from_str("#") {
        PreTokenized::T(PreToken::COMMENT)
    } else {
        PreTokenized::S(w)
    }
}

/// A stack of pending source lines, popped front-to-back in source order.
/// Reading files and splitting text is the caller's business; the caller
/// pushes lines in reverse so the first line is popped first.
pub struct Scanner {
    lines_stack: Vec<String>,
}

impl View for Scanner {
    type V = Seq<String>;

    closed spec fn view(&self) -> Seq<String> {
        self.lines_stack@
    }
}

impl Scanner {
    pub fn new() -> (r: Scanner)
        ensures
            r@ == Seq::<String>::empty(),
    {
        Scanner { lines_stack: Vec::new() }
    }

    pub fn push_line(&mut self, line: String) -> (r: ())
        ensures
            final(self)@ == old(self)@.push(line),
    {
        self.lines_stack.push(line);
    }

    pub fn get_next_line(&mut self) -> (r: Option<String>)
        ensures
            old(self)@.len() == 0 ==> r is None && final(self)@ == old(self)@,
            old(self)@.len() > 0 ==> r == Some(old(self)@.last()) && final(self)@ == old(self)@.drop_last(),
    {
        self.lines_stack.pop()
    }
}

} // verus!
