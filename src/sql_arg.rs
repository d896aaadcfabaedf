//! The shape of a table function's argument, as far as resolution reads it.
//!
//! The SQL parser's expression tree has many variants; resolution only asks
//! whether an argument is a positional single-quoted string literal. The
//! types here keep exactly the variants that question and the tests name,
//! fold the rest into `Other`, and keep the argument's SQL rendering beside
//! it for error messages.
use vstd::prelude::*;

verus! {

/// A literal value.
pub enum SqlValue {
    /// `'text'`: the string as the parser resolved it, quotes removed.
    SingleQuotedString(String),
    /// A numeric literal, as written.
    Number(String),
    /// Any other literal (double-quoted string, boolean, `NULL`, ...).
    Other,
}

/// An expression.
pub enum SqlExpr {
    /// A literal value.
    Value(SqlValue),
    /// Any other expression (column reference, function call, ...).
    Other,
}

/// The expression part of a function argument.
pub enum FunctionArgExpr {
    /// An ordinary expression.
    Expr(SqlExpr),
    /// A qualified wildcard such as `t.*`.
    QualifiedWildcard,
    /// An unqualified `*`.
    Wildcard,
}

/// A function argument: positional, or named as in `name => expr`.
pub enum FunctionArg {
    /// A named argument.
    Named { name: String, arg: FunctionArgExpr },
    /// A positional argument.
    Unnamed(FunctionArgExpr),
}

/// One argument of a table function call, with its SQL rendering.
pub struct TableArg {
    /// The argument's shape.
    pub arg: FunctionArg,
    /// The argument as SQL text, used to report a rejected argument.
    pub sql: String,
}

/// The path that an argument supplies: the string of a positional
/// single-quoted literal, and nothing for any other shape.
pub open spec fn path_literal(arg: FunctionArg) -> Option<Seq<char>> {
    match arg {
        FunctionArg::Unnamed(FunctionArgExpr::Expr(SqlExpr::Value(SqlValue::SingleQuotedString(s)))) => Some(s@),
        _ => None,
    }
}

impl TableArg {
    /// Builds an argument from its shape and its SQL rendering.
    pub fn new(arg: FunctionArg, sql: String) -> (r: TableArg)
        ensures
            r.arg == arg,
            r.sql == sql,
    {
        TableArg { arg, sql }
    }

    /// A positional single-quoted string literal holding `s`, whose SQL text
    /// is `s` between single quotes.
    pub fn single_quoted(s: &str) -> (r: TableArg)
        ensures
            r.arg is Unnamed,
            path_literal(r.arg) == Some(s@),
            r.sql@ == seq!['\''] + s@ + seq!['\''],
    {
        let mut sql = String::from_str("'");
        sql.append(s);
        sql.append("'");
        proof {
            reveal_strlit("'");
        }
        let lit = SqlValue::SingleQuotedString(String::from_str(s));
        TableArg { arg: FunctionArg::Unnamed(FunctionArgExpr::Expr(SqlExpr::Value(lit))), sql }
    }

    /// The path this argument supplies, if it is a positional single-quoted
    /// string literal.
    pub fn path(&self) -> (r: Option<String>)
        ensures
            match r {
                Some(p) => path_literal(self.arg) == Some(p@),
                None => path_literal(self.arg) is None,
            },
    {
        match &self.arg {
            FunctionArg::Unnamed(FunctionArgExpr::Expr(SqlExpr::Value(SqlValue::SingleQuotedString(s)))) => Some(s.clone()),
            _ => None,
        }
    }
}

} // verus!
