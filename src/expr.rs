//! Expression trees: the scalar, aggregate and window computations, column
//! references and literals that plans are built from.
use vstd::prelude::*;

verus! {

/// A constant value.
#[derive(Clone, Debug)]
pub enum Literal {
    Null,
    Boolean(bool),
    Int64(i64),
    Utf8(String),
}

/// A binary operator between two expressions.
#[derive(Clone, Copy, Debug, PartialEq, Eq, Structural)]
pub enum Operator {
    Eq,
    NotEq,
    Lt,
    LtEq,
    Gt,
    GtEq,
    And,
    Or,
}

/// The aggregate functions that the builder offers.
#[derive(Clone, Copy, Debug, PartialEq, Eq, Structural)]
pub enum AggregateKind {
    Avg,
    Count,
    Max,
    Min,
    Sum,
    ApproxDistinct,
}

/// A node of an expression tree. Children are owned; trees share nothing.
#[derive(Debug)]
pub enum Expr {
    Literal(Literal),
    Column(String),
    Binary { left: Box<Expr>, op: Operator, right: Box<Expr> },
    /// A call of the engine's scalar function with that identifier.
    ScalarFunction { fun: String, args: Vec<Expr> },
    AggregateFunction { fun: AggregateKind, args: Vec<Expr>, distinct: bool },
    /// A call of the engine's window function of that name. When an order list
    /// was supplied (`ordered`), the frame runs from the first row of the
    /// partition to the current row; otherwise it is the whole partition.
    WindowFunction {
        fun: String,
        args: Vec<Expr>,
        partition_by: Vec<Expr>,
        order_by: Vec<Expr>,
        ordered: bool,
    },
    Sort { expr: Box<Expr>, asc: bool, nulls_first: bool },
    Alias { expr: Box<Expr>, name: String },
    InList { expr: Box<Expr>, list: Vec<Expr>, negated: bool },
    Concat { args: Vec<Expr> },
    ConcatWs { sep: String, args: Vec<Expr> },
    Digest { value: Box<Expr>, method: Box<Expr> },
}

/// A reference to the column of that name.
pub fn col(name: String) -> (r: Expr)
    ensures
        r == Expr::Column(name),
{
    Expr::Column(name)
}

/// A constant.
pub fn lit(value: Literal) -> (r: Expr)
    ensures
        r == Expr::Literal(value),
{
    Expr::Literal(value)
}

/// `left op right`.
pub fn binary(left: Expr, op: Operator, right: Expr) -> (r: Expr)
    ensures
        r == (Expr::Binary { left: Box::new(left), op, right: Box::new(right) }),
{
    Expr::Binary { left: Box::new(left), op, right: Box::new(right) }
}

/// A sort key. Ascending order and nulls first are the defaults of the two
/// options.
pub fn order_by(expr: Expr, asc: Option<bool>, nulls_first: Option<bool>) -> (r: Expr)
    ensures
        r == (Expr::Sort {
            expr: Box::new(expr),
            asc: match asc { Some(a) => a, None => true },
            nulls_first: match nulls_first { Some(n) => n, None => true },
        }),
{
    let asc = match asc {
        Some(a) => a,
        None => true,
    };
    let nulls_first = match nulls_first {
        Some(n) => n,
        None => true,
    };
    Expr::Sort { expr: Box::new(expr), asc, nulls_first }
}

/// `expr` under another name.
pub fn alias(expr: Expr, name: String) -> (r: Expr)
    ensures
        r == (Expr::Alias { expr: Box::new(expr), name }),
{
    Expr::Alias { expr: Box::new(expr), name }
}

/// Whether `expr` is among `values`, or not among them when `negated`.
pub fn in_list(expr: Expr, values: Vec<Expr>, negated: bool) -> (r: Expr)
    ensures
        r == (Expr::InList { expr: Box::new(expr), list: values, negated }),
{
    Expr::InList { expr: Box::new(expr), list: values, negated }
}

/// The binary hash of `value` by the algorithm that `method` names (md5,
/// sha224, sha256, sha384, sha512, blake2s, blake2b or blake3).
pub fn digest(value: Expr, method: Expr) -> (r: Expr)
    ensures
        r == (Expr::Digest { value: Box::new(value), method: Box::new(method) }),
{
    Expr::Digest { value: Box::new(value), method: Box::new(method) }
}

/// The text of all the arguments, one after another; NULL arguments are
/// ignored.
pub fn concat(args: Vec<Expr>) -> (r: Expr)
    ensures
        r == (Expr::Concat { args }),
{
    Expr::Concat { args }
}

/// The text of the arguments with `sep` between them; NULL arguments are
/// ignored.
pub fn concat_ws(sep: String, args: Vec<Expr>) -> (r: Expr)
    ensures
        r == (Expr::ConcatWs { sep, args }),
{
    Expr::ConcatWs { sep, args }
}

} // verus!
