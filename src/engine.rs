//! The engine's types and the calls into it that the library makes.
use std::sync::Arc;

use crate::expr::Operator;
use crate::join::JoinKind;
use vstd::prelude::*;

use datafusion::arrow::datatypes::Schema;
use datafusion::arrow::error::ArrowError;
use datafusion::arrow::record_batch::RecordBatch;
use datafusion::dataframe::DataFrame;
use datafusion::error::DataFusionError;
use datafusion::scalar::ScalarValue;
use datafusion_expr::Expr as EngineExpr;
use datafusion_expr::Operator as EngineOperator;
use datafusion_expr::window_frame::WindowFrame;
use datafusion_expr::JoinType;
use std::str::FromStr;

verus! {

#[verifier::external_type_specification]
#[verifier::external_body]
pub struct ExDataFrame(DataFrame);

#[verifier::external_type_specification]
#[verifier::external_body]
pub struct ExEngineExpr(EngineExpr);

#[verifier::external_type_specification]
#[verifier::external_body]
pub struct ExDataFusionError(DataFusionError);

#[verifier::external_type_specification]
pub struct ExJoinType(JoinType);

#[verifier::external_type_specification]
pub struct ExEngineOperator(EngineOperator);

#[verifier::external_type_specification]
#[verifier::external_body]
pub struct ExWindowFrame(WindowFrame);

#[verifier::external_type_specification]
#[verifier::external_body]
pub struct ExSchema(Schema);

#[verifier::external_type_specification]
#[verifier::external_body]
pub struct ExRecordBatch(RecordBatch);

#[verifier::external_type_specification]
#[verifier::external_body]
pub struct ExArrowError(ArrowError);

/// Whether the engine knows a window function of that name: one of its
/// built-in window functions or an aggregate function.
pub uninterp spec fn window_function_known(name: Seq<char>) -> bool;

/// Relies on `datafusion_expr::window_function::WindowFunction::from_str`,
/// which accepts exactly the names of known window functions.
#[verifier::external_body]
pub(crate) fn is_window_function(name: &str) -> (r: bool)
    ensures
        r == window_function_known(name@),
{
    datafusion_expr::window_function::WindowFunction::from_str(name).is_ok()
}

/// Relies on `datafusion_expr::col`: a reference to the column of that name.
#[verifier::external_body]
pub(crate) fn column(name: &str) -> EngineExpr {
    datafusion_expr::col(name)
}

/// Relies on `datafusion_expr::lit` of `ScalarValue::Null`: the NULL constant.
#[verifier::external_body]
pub(crate) fn literal_null() -> EngineExpr {
    datafusion_expr::lit(ScalarValue::Null)
}

/// Relies on `datafusion_expr::lit` for `bool`.
#[verifier::external_body]
pub(crate) fn literal_bool(v: bool) -> EngineExpr {
    datafusion_expr::lit(v)
}

/// Relies on `datafusion_expr::lit` for `i64`.
#[verifier::external_body]
pub(crate) fn literal_i64(v: i64) -> EngineExpr {
    datafusion_expr::lit(v)
}

/// Relies on `datafusion_expr::lit` for `&str`: a UTF-8 constant.
#[verifier::external_body]
pub(crate) fn literal_utf8(v: &str) -> EngineExpr {
    datafusion_expr::lit(v)
}

/// The engine's operator of the same name as an operator of this crate.
pub fn engine_operator(op: Operator) -> (r: EngineOperator)
    ensures
        r == match op {
            Operator::Eq => EngineOperator::Eq,
            Operator::NotEq => EngineOperator::NotEq,
            Operator::Lt => EngineOperator::Lt,
            Operator::LtEq => EngineOperator::LtEq,
            Operator::Gt => EngineOperator::Gt,
            Operator::GtEq => EngineOperator::GtEq,
            Operator::And => EngineOperator::And,
            Operator::Or => EngineOperator::Or,
        },
{
    match op {
        Operator::Eq => EngineOperator::Eq,
        Operator::NotEq => EngineOperator::NotEq,
        Operator::Lt => EngineOperator::Lt,
        Operator::LtEq => EngineOperator::LtEq,
        Operator::Gt => EngineOperator::Gt,
        Operator::GtEq => EngineOperator::GtEq,
        Operator::And => EngineOperator::And,
        Operator::Or => EngineOperator::Or,
    }
}

/// Relies on `datafusion_expr::binary_expr`: `left op right`.
#[verifier::external_body]
pub(crate) fn binary(left: EngineExpr, op: EngineOperator, right: EngineExpr) -> EngineExpr {
    datafusion_expr::binary_expr(left, op, right)
}

/// Whether the engine has a built-in scalar function with that identifier.
pub uninterp spec fn scalar_name_accepted(fun: Seq<char>) -> bool;

/// Whether the engine has a built-in aggregate function with that identifier.
pub uninterp spec fn aggregate_name_accepted(fun: Seq<char>) -> bool;

/// Relies on `BuiltinScalarFunction::from_str`, which fails on a name that
/// is not a built-in scalar function.
#[verifier::external_body]
pub(crate) fn scalar_call(fun: &str, args: Vec<EngineExpr>) -> (r: Result<EngineExpr, DataFusionError>)
    ensures
        r is Ok <==> scalar_name_accepted(fun@),
{
    let fun = datafusion_expr::BuiltinScalarFunction::from_str(fun)?;
    Ok(EngineExpr::ScalarFunction { fun, args })
}

/// Relies on `AggregateFunction::from_str`, which fails on a name that is not
/// a built-in aggregate function.
#[verifier::external_body]
pub(crate) fn aggregate_call(
    fun: &str,
    args: Vec<EngineExpr>,
    distinct: bool,
) -> (r: Result<EngineExpr, DataFusionError>)
    ensures
        r is Ok <==> aggregate_name_accepted(fun@),
{
    let fun = datafusion_expr::AggregateFunction::from_str(fun)?;
    Ok(EngineExpr::AggregateFunction { fun, args, distinct, filter: None })
}

/// Relies on `WindowFrame::default`: the frame from the first row of the
/// partition up to the current row and its peers (`RANGE BETWEEN UNBOUNDED
/// PRECEDING AND CURRENT ROW`).
#[verifier::external_body]
pub(crate) fn running_frame() -> WindowFrame {
    WindowFrame::default()
}

/// Relies on `WindowFunction::from_str`, which fails on a name that is not a
/// window function; without a frame the engine takes the whole partition.
#[verifier::external_body]
pub(crate) fn window_call(
    fun: &str,
    args: Vec<EngineExpr>,
    partition_by: Vec<EngineExpr>,
    order_by: Vec<EngineExpr>,
    window_frame: Option<WindowFrame>,
) -> (r: Result<EngineExpr, DataFusionError>)
    ensures
        r is Ok <==> window_function_known(fun@),
{
    let fun = datafusion_expr::window_function::WindowFunction::from_str(fun)?;
    Ok(EngineExpr::WindowFunction { fun, args, partition_by, order_by, window_frame })
}

/// Relies on `Expr::sort`: a sort key over `expr`.
#[verifier::external_body]
pub(crate) fn sort_key(expr: EngineExpr, asc: bool, nulls_first: bool) -> EngineExpr {
    expr.sort(asc, nulls_first)
}

/// Relies on `Expr::alias`: `expr` under another name.
#[verifier::external_body]
pub(crate) fn alias(expr: EngineExpr, name: &str) -> EngineExpr {
    expr.alias(name)
}

/// Relies on `datafusion_expr::in_list`: a membership test.
#[verifier::external_body]
pub(crate) fn in_list(expr: EngineExpr, list: Vec<EngineExpr>, negated: bool) -> EngineExpr {
    datafusion_expr::in_list(expr, list, negated)
}

/// Relies on `datafusion_expr::concat`: the `concat` scalar function.
#[verifier::external_body]
pub(crate) fn concat(args: Vec<EngineExpr>) -> EngineExpr {
    datafusion_expr::concat(&args)
}

/// Relies on `datafusion_expr::concat_ws`: the `concat_ws` scalar function
/// with a constant separator.
#[verifier::external_body]
pub(crate) fn concat_ws(sep: &str, args: Vec<EngineExpr>) -> EngineExpr {
    datafusion_expr::concat_ws(datafusion_expr::lit(sep), args)
}

/// Relies on `datafusion_expr::digest`: the `digest` scalar function.
#[verifier::external_body]
pub(crate) fn digest(value: EngineExpr, method: EngineExpr) -> EngineExpr {
    datafusion_expr::digest(value, method)
}

/// The engine's join type of the same meaning as a join kind of this crate.
pub open spec fn engine_join_type(kind: JoinKind) -> JoinType {
    match kind {
        JoinKind::Inner => JoinType::Inner,
        JoinKind::Left => JoinType::Left,
        JoinKind::Right => JoinType::Right,
        JoinKind::Full => JoinType::Full,
        JoinKind::LeftSemi => JoinType::LeftSemi,
        JoinKind::LeftAnti => JoinType::LeftAnti,
        JoinKind::RightSemi => JoinType::RightSemi,
    }
}

/// The engine's join type of the same meaning as a join kind of this crate.
pub fn join_type(kind: JoinKind) -> (r: JoinType)
    ensures
        r == engine_join_type(kind),
        r == match kind {
            JoinKind::Inner => JoinType::Inner,
            JoinKind::Left => JoinType::Left,
            JoinKind::Right => JoinType::Right,
            JoinKind::Full => JoinType::Full,
            JoinKind::LeftSemi => JoinType::LeftSemi,
            JoinKind::LeftAnti => JoinType::LeftAnti,
            JoinKind::RightSemi => JoinType::RightSemi,
        },
{
    match kind {
        JoinKind::Inner => JoinType::Inner,
        JoinKind::Left => JoinType::Left,
        JoinKind::Right => JoinType::Right,
        JoinKind::Full => JoinType::Full,
        JoinKind::LeftSemi => JoinType::LeftSemi,
        JoinKind::LeftAnti => JoinType::LeftAnti,
        JoinKind::RightSemi => JoinType::RightSemi,
    }
}

/// The frame of the named columns of `df`, or nothing when the engine
/// refuses a name.
pub uninterp spec fn columns_frame(df: DataFrame, columns: Seq<String>) -> Option<DataFrame>;

/// Relies on `DataFrame::select_columns`, which depends on the frame and the
/// names alone.
#[verifier::external_body]
pub(crate) fn frame_select_columns(
    df: &DataFrame,
    columns: &Vec<String>,
) -> (r: Result<Arc<DataFrame>, DataFusionError>)
    ensures
        r is Ok <==> columns_frame(*df, columns@) is Some,
        r matches Ok(d) ==> columns_frame(*df, columns@) == Some(*d),
{
    let columns: Vec<&str> = columns.iter().map(|c| c.as_str()).collect();
    df.select_columns(&columns)
}

/// Relies on `DataFrame::select`.
#[verifier::external_body]
pub(crate) fn frame_select(df: &DataFrame, exprs: Vec<EngineExpr>) -> Result<Arc<DataFrame>, DataFusionError> {
    df.select(exprs)
}

/// Relies on `DataFrame::filter`.
#[verifier::external_body]
pub(crate) fn frame_filter(df: &DataFrame, predicate: EngineExpr) -> Result<Arc<DataFrame>, DataFusionError> {
    df.filter(predicate)
}

/// Relies on `DataFrame::with_column`.
#[verifier::external_body]
pub(crate) fn frame_with_column(
    df: &DataFrame,
    name: &str,
    expr: EngineExpr,
) -> Result<Arc<DataFrame>, DataFusionError> {
    df.with_column(name, expr)
}

/// Relies on `DataFrame::aggregate`.
#[verifier::external_body]
pub(crate) fn frame_aggregate(
    df: &DataFrame,
    group_by: Vec<EngineExpr>,
    aggs: Vec<EngineExpr>,
) -> Result<Arc<DataFrame>, DataFusionError> {
    df.aggregate(group_by, aggs)
}

/// Relies on `DataFrame::sort`.
#[verifier::external_body]
pub(crate) fn frame_sort(df: &DataFrame, exprs: Vec<EngineExpr>) -> Result<Arc<DataFrame>, DataFusionError> {
    df.sort(exprs)
}

/// The frame of the first `fetch` rows of `df`, or nothing when the engine
/// refuses to build it.
pub uninterp spec fn limited_frame(df: DataFrame, fetch: usize) -> Option<DataFrame>;

/// Relies on `DataFrame::limit`, with no rows skipped; it depends on the
/// frame and the count alone.
#[verifier::external_body]
pub(crate) fn frame_limit(df: &DataFrame, fetch: usize) -> (r: Result<Arc<DataFrame>, DataFusionError>)
    ensures
        r is Ok <==> limited_frame(*df, fetch) is Some,
        r matches Ok(d) ==> limited_frame(*df, fetch) == Some(*d),
{
    df.limit(0, Some(fetch))
}

/// The frame of the equality join of two frames on paired key columns, or
/// nothing when the engine refuses the keys.
pub uninterp spec fn joined_frame(
    left: DataFrame,
    right: DataFrame,
    join_type: JoinType,
    left_keys: Seq<String>,
    right_keys: Seq<String>,
) -> Option<DataFrame>;

/// Relies on `DataFrame::join`: an equality join on paired key columns, with
/// no further filter; it depends on its arguments alone.
#[verifier::external_body]
pub(crate) fn frame_join(
    left: &DataFrame,
    right: Arc<DataFrame>,
    join_type: JoinType,
    left_keys: &Vec<String>,
    right_keys: &Vec<String>,
) -> (r: Result<Arc<DataFrame>, DataFusionError>)
    ensures
        r is Ok <==> joined_frame(*left, *right, join_type, left_keys@, right_keys@) is Some,
        r matches Ok(d) ==> joined_frame(*left, *right, join_type, left_keys@, right_keys@) == Some(
            *d,
        ),
{
    let left_keys: Vec<&str> = left_keys.iter().map(|c| c.as_str()).collect();
    let right_keys: Vec<&str> = right_keys.iter().map(|c| c.as_str()).collect();
    left.join(right, join_type, &left_keys, &right_keys, None)
}

/// The frame of the engine's explanation of `df`, or nothing when the engine
/// refuses to build it.
pub uninterp spec fn explained_frame(df: DataFrame, verbose: bool, analyze: bool) -> Option<DataFrame>;

/// Relies on `DataFrame::explain`, which depends on its arguments alone.
#[verifier::external_body]
pub(crate) fn frame_explain(df: &DataFrame, verbose: bool, analyze: bool) -> (r: Result<
    Arc<DataFrame>,
    DataFusionError,
>)
    ensures
        r is Ok <==> explained_frame(*df, verbose, analyze) is Some,
        r matches Ok(d) ==> explained_frame(*df, verbose, analyze) == Some(*d),
{
    df.explain(verbose, analyze)
}

/// Relies on `DataFrame::schema` and the conversion of the engine's schema
/// into an Arrow schema.
#[verifier::external_body]
pub(crate) fn frame_schema(df: &DataFrame) -> Schema {
    df.schema().into()
}

/// The text table that the engine renders for a sequence of batches.
pub uninterp spec fn batches_text(batches: Seq<RecordBatch>) -> Seq<char>;

/// Relies on `arrow::util::pretty::pretty_format_batches`: the batches as a
/// text table, which depends on the batches alone.
#[verifier::external_body]
pub(crate) fn format_batches(batches: &Vec<RecordBatch>) -> (r: Result<String, ArrowError>)
    ensures
        r matches Ok(s) ==> s@ == batches_text(batches@),
{
    let table = datafusion::arrow::util::pretty::pretty_format_batches(batches)?;
    Ok(format!("{}", table))
}

} // verus!
