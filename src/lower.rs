//! Lowering of expression trees into the engine's expressions.
use vstd::prelude::*;

use datafusion::error::DataFusionError;
use datafusion_expr::Expr as EngineExpr;

use crate::engine::{self, aggregate_name_accepted, scalar_name_accepted, window_function_known};
use crate::expr::{AggregateKind, Expr, Literal};

verus! {

/// The identifier under which the engine knows an aggregate function.
pub open spec fn aggregate_engine_name(kind: AggregateKind) -> Seq<char> {
    match kind {
        AggregateKind::Avg => "avg"@,
        AggregateKind::Count => "count"@,
        AggregateKind::Max => "max"@,
        AggregateKind::Min => "min"@,
        AggregateKind::Sum => "sum"@,
        AggregateKind::ApproxDistinct => "approx_distinct"@,
    }
}

/// The identifier under which the engine knows an aggregate function.
pub fn aggregate_name(kind: AggregateKind) -> (r: &'static str)
    ensures
        r@ == aggregate_engine_name(kind),
{
    match kind {
        AggregateKind::Avg => "avg",
        AggregateKind::Count => "count",
        AggregateKind::Max => "max",
        AggregateKind::Min => "min",
        AggregateKind::Sum => "sum",
        AggregateKind::ApproxDistinct => "approx_distinct",
    }
}

fn literal_to_engine(value: &Literal) -> EngineExpr {
    match value {
        Literal::Null => engine::literal_null(),
        Literal::Boolean(b) => engine::literal_bool(*b),
        Literal::Int64(v) => engine::literal_i64(*v),
        Literal::Utf8(s) => engine::literal_utf8(s.as_str()),
    }
}

/// Whether a tree holds no call of a scalar, aggregate or window function.
pub open spec fn calls_free(e: Expr) -> bool
    decreases e,
{
    match e {
        Expr::Literal(_) => true,
        Expr::Column(_) => true,
        Expr::Binary { left, right, .. } => calls_free(*left) && calls_free(*right),
        Expr::ScalarFunction { .. } => false,
        Expr::AggregateFunction { .. } => false,
        Expr::WindowFunction { .. } => false,
        Expr::Sort { expr, .. } => calls_free(*expr),
        Expr::Alias { expr, .. } => calls_free(*expr),
        Expr::InList { expr, list, .. } => calls_free(*expr) && forall|i: int|
            0 <= i < list@.len() ==> calls_free(#[trigger] list@[i]),
        Expr::Concat { args } => forall|i: int|
            0 <= i < args@.len() ==> calls_free(#[trigger] args@[i]),
        Expr::ConcatWs { args, .. } => forall|i: int|
            0 <= i < args@.len() ==> calls_free(#[trigger] args@[i]),
        Expr::Digest { value, method } => calls_free(*value) && calls_free(*method),
    }
}

/// Whether the engine accepts the function identifier of every call in a
/// tree: the one condition on which lowering it can fail.
pub open spec fn names_accepted(e: Expr) -> bool
    decreases e,
{
    match e {
        Expr::Literal(_) => true,
        Expr::Column(_) => true,
        Expr::Binary { left, right, .. } => names_accepted(*left) && names_accepted(*right),
        Expr::ScalarFunction { fun, args } => scalar_name_accepted(fun@) && forall|i: int|
            0 <= i < args@.len() ==> names_accepted(#[trigger] args@[i]),
        Expr::AggregateFunction { fun, args, .. } => aggregate_name_accepted(
            aggregate_engine_name(fun),
        ) && forall|i: int| 0 <= i < args@.len() ==> names_accepted(#[trigger] args@[i]),
        Expr::WindowFunction { fun, args, partition_by, order_by, .. } => window_function_known(
            fun@,
        ) && (forall|i: int| 0 <= i < args@.len() ==> names_accepted(#[trigger] args@[i])) && (
        forall|i: int| 0 <= i < partition_by@.len() ==> names_accepted(#[trigger] partition_by@[i])) && (forall|i: int| 0 <= i < order_by@.len() ==> names_accepted(#[trigger] order_by@[i])),
        Expr::Sort { expr, .. } => names_accepted(*expr),
        Expr::Alias { expr, .. } => names_accepted(*expr),
        Expr::InList { expr, list, .. } => names_accepted(*expr) && forall|i: int|
            0 <= i < list@.len() ==> names_accepted(#[trigger] list@[i]),
        Expr::Concat { args } => forall|i: int|
            0 <= i < args@.len() ==> names_accepted(#[trigger] args@[i]),
        Expr::ConcatWs { args, .. } => forall|i: int|
            0 <= i < args@.len() ==> names_accepted(#[trigger] args@[i]),
        Expr::Digest { value, method } => names_accepted(*value) && names_accepted(*method),
    }
}

/// A tree without function calls has no identifier for the engine to refuse.
pub proof fn lemma_calls_free_names_accepted(e: Expr)
    requires
        calls_free(e),
    ensures
        names_accepted(e),
    decreases e,
{
    match e {
        Expr::Binary { left, right, .. } => {
            lemma_calls_free_names_accepted(*left);
            lemma_calls_free_names_accepted(*right);
        },
        Expr::Sort { expr, .. } => {
            lemma_calls_free_names_accepted(*expr);
        },
        Expr::Alias { expr, .. } => {
            lemma_calls_free_names_accepted(*expr);
        },
        Expr::InList { expr, list, .. } => {
            lemma_calls_free_names_accepted(*expr);
            assert forall|i: int| 0 <= i < list@.len() implies names_accepted(#[trigger] list@[i]) by {
                vstd::std_specs::vec::axiom_vec_index_decreases(list, i);
                lemma_calls_free_names_accepted(list@[i]);
            }
        },
        Expr::Concat { args } => {
            assert forall|i: int| 0 <= i < args@.len() implies names_accepted(#[trigger] args@[i]) by {
                vstd::std_specs::vec::axiom_vec_index_decreases(args, i);
                lemma_calls_free_names_accepted(args@[i]);
            }
        },
        Expr::ConcatWs { args, .. } => {
            assert forall|i: int| 0 <= i < args@.len() implies names_accepted(#[trigger] args@[i]) by {
                vstd::std_specs::vec::axiom_vec_index_decreases(args, i);
                lemma_calls_free_names_accepted(args@[i]);
            }
        },
        Expr::Digest { value, method } => {
            lemma_calls_free_names_accepted(*value);
            lemma_calls_free_names_accepted(*method);
        },
        _ => {},
    }
}

/// The engine expressions for a list of expressions, in the same order;
/// the first failure of the engine is reported.
pub fn exprs_to_engine(exprs: &Vec<Expr>) -> (r: Result<Vec<EngineExpr>, DataFusionError>)
    ensures
        r matches Ok(v) ==> v@.len() == exprs@.len(),
        r is Ok <==> forall|i: int| 0 <= i < exprs@.len() ==> names_accepted(#[trigger] exprs@[i]),
        (forall|i: int| 0 <= i < exprs@.len() ==> calls_free(#[trigger] exprs@[i])) ==> r is Ok,
    decreases exprs,
{
    proof {
        assert forall|j: int| 0 <= j < exprs@.len() && calls_free(exprs@[j]) implies names_accepted(
            exprs@[j],
        ) by {
            lemma_calls_free_names_accepted(exprs@[j]);
        }
    }
    let mut out: Vec<EngineExpr> = Vec::new();
    let mut i: usize = 0;
    while i < exprs.len()
        invariant
            0 <= i <= exprs.len(),
            out@.len() == i,
            forall|j: int| 0 <= j < i ==> names_accepted(#[trigger] exprs@[j]),
        decreases exprs.len() - i,
    {
        proof {
            vstd::std_specs::vec::axiom_vec_index_decreases(*exprs, i as int);
        }
        let e = match expr_to_engine(&exprs[i]) {
            Ok(e) => e,
            Err(err) => {
                return Err(err);
            },
        };
        out.push(e);
        i = i + 1;
    }
    Ok(out)
}

/// The engine expression for an expression tree. Lowering fails exactly
/// when the engine refuses a function identifier in the tree, so never on a
/// tree without function calls.
pub fn expr_to_engine(expr: &Expr) -> (r: Result<EngineExpr, DataFusionError>)
    ensures
        r is Ok <==> names_accepted(*expr),
        calls_free(*expr) ==> r is Ok,
    decreases expr,
{
    proof {
        if calls_free(*expr) {
            lemma_calls_free_names_accepted(*expr);
        }
    }
    match expr {
        Expr::Literal(value) => Ok(literal_to_engine(value)),
        Expr::Column(name) => Ok(engine::column(name.as_str())),
        Expr::Binary { left, op, right } => {
            let l = expr_to_engine(left)?;
            let r = expr_to_engine(right)?;
            Ok(engine::binary(l, engine::engine_operator(*op), r))
        },
        Expr::ScalarFunction { fun, args } => {
            let args = exprs_to_engine(args)?;
            engine::scalar_call(fun.as_str(), args)
        },
        Expr::AggregateFunction { fun, args, distinct } => {
            let args = exprs_to_engine(args)?;
            engine::aggregate_call(aggregate_name(*fun), args, *distinct)
        },
        Expr::WindowFunction { fun, args, partition_by, order_by, ordered } => {
            let args = exprs_to_engine(args)?;
            let partition_by = exprs_to_engine(partition_by)?;
            let order_by = exprs_to_engine(order_by)?;
            let frame = if *ordered {
                Some(engine::running_frame())
            } else {
                None
            };
            engine::window_call(fun.as_str(), args, partition_by, order_by, frame)
        },
        Expr::Sort { expr, asc, nulls_first } => {
            let e = expr_to_engine(expr)?;
            Ok(engine::sort_key(e, *asc, *nulls_first))
        },
        Expr::Alias { expr, name } => {
            let e = expr_to_engine(expr)?;
            Ok(engine::alias(e, name.as_str()))
        },
        Expr::InList { expr, list, negated } => {
            let e = expr_to_engine(expr)?;
            let list = exprs_to_engine(list)?;
            Ok(engine::in_list(e, list, *negated))
        },
        Expr::Concat { args } => {
            let args = exprs_to_engine(args)?;
            Ok(engine::concat(args))
        },
        Expr::ConcatWs { sep, args } => {
            let args = exprs_to_engine(args)?;
            Ok(engine::concat_ws(sep.as_str(), args))
        },
        Expr::Digest { value, method } => {
            let v = expr_to_engine(value)?;
            let m = expr_to_engine(method)?;
            Ok(engine::digest(v, m))
        },
    }
}

} // verus!
