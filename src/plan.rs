//! The plan builder: an immutable relational plan, extended one operation at
//! a time, and handed to the engine when a frame is asked for.
use std::sync::Arc;
use vstd::prelude::*;

use datafusion::arrow::datatypes::Schema;
use datafusion::arrow::record_batch::RecordBatch;
use datafusion::dataframe::DataFrame;
use datafusion::error::DataFusionError;

use crate::engine;
use crate::error::PlanError;
use crate::expr::Expr;
use crate::join::{join_kind_of, resolve_join_type, JoinKind};
use crate::lower::{expr_to_engine, exprs_to_engine};

verus! {

/// A node of a relational plan. Inputs are shared, never changed: each
/// operation adds one node on top of the plan it extends.
#[derive(Debug)]
pub enum Plan {
    /// A relation that the engine already holds.
    Source(Arc<DataFrame>),
    /// The named columns of the input, in the given order.
    SelectColumns { input: Arc<Plan>, columns: Vec<String> },
    /// One column for each expression, in order.
    Select { input: Arc<Plan>, exprs: Vec<Expr> },
    /// The rows of the input on which the predicate holds.
    Filter { input: Arc<Plan>, predicate: Expr },
    /// The input with the named column added or replaced.
    WithColumn { input: Arc<Plan>, name: String, expr: Expr },
    /// One row for each group of the grouping keys, reduced by the aggregates.
    Aggregate { input: Arc<Plan>, group_by: Vec<Expr>, aggs: Vec<Expr> },
    /// The input ordered by the sort keys, the first key first.
    Sort { input: Arc<Plan>, exprs: Vec<Expr> },
    /// The first `fetch` rows of the input, none skipped.
    Limit { input: Arc<Plan>, fetch: usize },
    /// An equality join of two plans on paired key columns.
    Join {
        left: Arc<Plan>,
        right: Arc<Plan>,
        kind: JoinKind,
        left_keys: Vec<String>,
        right_keys: Vec<String>,
    },
    /// The engine's explanation of the input plan, as rows.
    Explain { input: Arc<Plan>, verbose: bool, analyze: bool },
}

/// The key of an indexed access to a plan, in the shapes that a host can
/// hand over.
#[derive(Debug)]
pub enum IndexKey {
    /// One column name.
    Name(String),
    /// A list of column names.
    Names(Vec<String>),
    /// A position; plans cannot be indexed by one.
    Position(i64),
}

/// The input and the column names of a column selection, or nothing for
/// another node.
pub open spec fn selection_of(p: Plan) -> Option<(Arc<Plan>, Seq<String>)> {
    match p {
        Plan::SelectColumns { input, columns } => Some((input, columns@)),
        _ => None,
    }
}

/// The column names that an index key selects; nothing for a key of an
/// unsupported shape.
pub open spec fn index_names(key: IndexKey) -> Option<Seq<String>> {
    match key {
        IndexKey::Name(n) => Some(seq![n]),
        IndexKey::Names(v) => Some(v@),
        IndexKey::Position(_) => None,
    }
}

/// An immutable query plan under construction. Every operation returns a new
/// builder and leaves this one as it was; builders share their common inputs.
#[derive(Clone, Debug)]
pub struct PlanBuilder {
    pub plan: Arc<Plan>,
}

impl PlanBuilder {
    /// A builder over a relation that the engine holds.
    pub fn new(df: DataFrame) -> (r: PlanBuilder)
        ensures
            *r.plan matches Plan::Source(d) && *d == df,
    {
        PlanBuilder { plan: Arc::new(Plan::Source(Arc::new(df))) }
    }

    /// A builder over a relation that the engine holds, shared with others.
    pub fn from_shared(df: Arc<DataFrame>) -> (r: PlanBuilder)
        ensures
            *r.plan == Plan::Source(df),
    {
        PlanBuilder { plan: Arc::new(Plan::Source(df)) }
    }

    /// The named columns, in the given order. Whether the names exist is
    /// settled by the engine when the plan is resolved.
    pub fn select_columns(&self, columns: Vec<String>) -> (r: PlanBuilder)
        ensures
            *r.plan == (Plan::SelectColumns { input: self.plan, columns }),
    {
        PlanBuilder { plan: Arc::new(Plan::SelectColumns { input: self.plan.clone(), columns }) }
    }

    /// One column for each expression.
    pub fn select(&self, exprs: Vec<Expr>) -> (r: PlanBuilder)
        ensures
            *r.plan == (Plan::Select { input: self.plan, exprs }),
    {
        PlanBuilder { plan: Arc::new(Plan::Select { input: self.plan.clone(), exprs }) }
    }

    /// The rows on which `predicate` holds.
    pub fn filter(&self, predicate: Expr) -> (r: PlanBuilder)
        ensures
            *r.plan == (Plan::Filter { input: self.plan, predicate }),
    {
        PlanBuilder { plan: Arc::new(Plan::Filter { input: self.plan.clone(), predicate }) }
    }

    /// The relation with column `name` added, or replaced, by `expr`.
    pub fn with_column(&self, name: String, expr: Expr) -> (r: PlanBuilder)
        ensures
            *r.plan == (Plan::WithColumn { input: self.plan, name, expr }),
    {
        PlanBuilder { plan: Arc::new(Plan::WithColumn { input: self.plan.clone(), name, expr }) }
    }

    /// Groups by `group_by` (the whole relation when it is empty) and reduces
    /// each group by `aggs`.
    pub fn aggregate(&self, group_by: Vec<Expr>, aggs: Vec<Expr>) -> (r: PlanBuilder)
        ensures
            *r.plan == (Plan::Aggregate { input: self.plan, group_by, aggs }),
    {
        PlanBuilder { plan: Arc::new(Plan::Aggregate { input: self.plan.clone(), group_by, aggs }) }
    }

    /// Orders by the sort keys, the first key first.
    pub fn sort(&self, exprs: Vec<Expr>) -> (r: PlanBuilder)
        ensures
            *r.plan == (Plan::Sort { input: self.plan, exprs }),
    {
        PlanBuilder { plan: Arc::new(Plan::Sort { input: self.plan.clone(), exprs }) }
    }

    /// The first `count` rows, none skipped.
    pub fn limit(&self, count: usize) -> (r: PlanBuilder)
        ensures
            *r.plan == (Plan::Limit { input: self.plan, fetch: count }),
    {
        PlanBuilder { plan: Arc::new(Plan::Limit { input: self.plan.clone(), fetch: count }) }
    }

    /// An equality join with `right` on the paired key columns, of the join
    /// type that `how` names; an unknown `how` is reported with the token.
    pub fn join(&self, right: &PlanBuilder, join_keys: (Vec<String>, Vec<String>), how: &str) -> (r: Result<
        PlanBuilder,
        PlanError,
    >)
        ensures
            match join_kind_of(how@) {
                Some(k) => r matches Ok(p) && *p.plan == (Plan::Join {
                    left: self.plan,
                    right: right.plan,
                    kind: k,
                    left_keys: join_keys.0,
                    right_keys: join_keys.1,
                }),
                None => r matches Err(PlanError::UnknownJoinType(t)) && t@ == how@,
            },
    {
        let kind = resolve_join_type(how)?;
        let (left_keys, right_keys) = join_keys;
        Ok(
            PlanBuilder {
                plan: Arc::new(
                    Plan::Join {
                        left: self.plan.clone(),
                        right: right.plan.clone(),
                        kind,
                        left_keys,
                        right_keys,
                    },
                ),
            },
        )
    }

    /// The plan whose rows are the engine's explanation of this one.
    pub fn explain(&self, verbose: bool, analyze: bool) -> (r: PlanBuilder)
        ensures
            *r.plan == (Plan::Explain { input: self.plan, verbose, analyze }),
    {
        PlanBuilder { plan: Arc::new(Plan::Explain { input: self.plan.clone(), verbose, analyze }) }
    }

    /// The columns that `key` names, as `select_columns` would select them;
    /// a key that is neither a name nor a list of names is refused.
    pub fn get_item(&self, key: IndexKey) -> (r: Result<PlanBuilder, PlanError>)
        ensures
            match index_names(key) {
                Some(names) => r matches Ok(p) && selection_of(*p.plan) == Some((self.plan, names)),
                None => r matches Err(PlanError::InvalidIndexType),
            },
    {
        match key {
            IndexKey::Name(n) => {
                let mut columns: Vec<String> = Vec::new();
                columns.push(n);
                let r = self.select_columns(columns);
                assert(columns@ =~= seq![n]);
                Ok(r)
            },
            IndexKey::Names(v) => Ok(self.select_columns(v)),
            IndexKey::Position(_) => Err(PlanError::InvalidIndexType),
        }
    }

    /// The engine's frame for this plan. Names, types and functions are
    /// resolved here; what the engine refuses is reported as its error.
    pub fn to_data_frame(&self) -> (r: Result<Arc<DataFrame>, PlanError>)
        ensures
            *self.plan matches Plan::Source(df) ==> r == Ok::<Arc<DataFrame>, PlanError>(df),
            r matches Err(e) ==> e is Engine,
            expression_free(*self.plan) ==> (r is Ok <==> expression_free_frame(*self.plan) is Some),
            expression_free(*self.plan) ==> (r matches Ok(d) ==> expression_free_frame(*self.plan)
                == Some(*d)),
    {
        match frame_of(&self.plan) {
            Ok(df) => Ok(df),
            Err(e) => Err(PlanError::Engine(e)),
        }
    }

    /// The schema that the engine derives for this plan.
    pub fn schema(&self) -> (r: Result<Schema, PlanError>)
        ensures
            r matches Err(e) ==> e is Engine,
            *self.plan matches Plan::Source(_) ==> r is Ok,
    {
        let df = self.to_data_frame()?;
        Ok(engine::frame_schema(&df))
    }
}

/// Whether a plan is built only of sources, column selections, limits,
/// joins and explanations: nodes that hand the engine no expression.
pub open spec fn expression_free(p: Plan) -> bool
    decreases p,
{
    match p {
        Plan::Source(_) => true,
        Plan::SelectColumns { input, .. } => expression_free(*input),
        Plan::Limit { input, .. } => expression_free(*input),
        Plan::Join { left, right, .. } => expression_free(*left) && expression_free(*right),
        Plan::Explain { input, .. } => expression_free(*input),
        _ => false,
    }
}

/// The engine's frame for a plan without expressions: each node is the
/// engine's step applied to the frame of its input, and there is none as soon
/// as the engine refuses a step.
pub open spec fn expression_free_frame(p: Plan) -> Option<DataFrame>
    decreases p,
{
    match p {
        Plan::Source(df) => Some(*df),
        Plan::SelectColumns { input, columns } => match expression_free_frame(*input) {
            Some(d) => engine::columns_frame(d, columns@),
            None => None,
        },
        Plan::Limit { input, fetch } => match expression_free_frame(*input) {
            Some(d) => engine::limited_frame(d, fetch),
            None => None,
        },
        Plan::Join { left, right, kind, left_keys, right_keys } => match (
            expression_free_frame(*left),
            expression_free_frame(*right),
        ) {
            (Some(l), Some(r)) => engine::joined_frame(
                l,
                r,
                engine::engine_join_type(kind),
                left_keys@,
                right_keys@,
            ),
            _ => None,
        },
        Plan::Explain { input, verbose, analyze } => match expression_free_frame(*input) {
            Some(d) => engine::explained_frame(d, verbose, analyze),
            None => None,
        },
        _ => None,
    }
}

/// The engine's frame for a plan, built from the bottom up.
fn frame_of(plan: &Plan) -> (r: Result<Arc<DataFrame>, DataFusionError>)
    ensures
        plan matches Plan::Source(df) ==> r == Ok::<Arc<DataFrame>, DataFusionError>(*df),
        expression_free(*plan) ==> (r is Ok <==> expression_free_frame(*plan) is Some),
        expression_free(*plan) ==> (r matches Ok(d) ==> expression_free_frame(*plan) == Some(*d)),
    decreases plan,
{
    match plan {
        Plan::Source(df) => Ok(df.clone()),
        Plan::SelectColumns { input, columns } => {
            let df = frame_of(input)?;
            engine::frame_select_columns(&df, columns)
        },
        Plan::Select { input, exprs } => {
            let df = frame_of(input)?;
            let exprs = exprs_to_engine(exprs)?;
            engine::frame_select(&df, exprs)
        },
        Plan::Filter { input, predicate } => {
            let df = frame_of(input)?;
            let predicate = expr_to_engine(predicate)?;
            engine::frame_filter(&df, predicate)
        },
        Plan::WithColumn { input, name, expr } => {
            let df = frame_of(input)?;
            let expr = expr_to_engine(expr)?;
            engine::frame_with_column(&df, name.as_str(), expr)
        },
        Plan::Aggregate { input, group_by, aggs } => {
            let df = frame_of(input)?;
            let group_by = exprs_to_engine(group_by)?;
            let aggs = exprs_to_engine(aggs)?;
            engine::frame_aggregate(&df, group_by, aggs)
        },
        Plan::Sort { input, exprs } => {
            let df = frame_of(input)?;
            let exprs = exprs_to_engine(exprs)?;
            engine::frame_sort(&df, exprs)
        },
        Plan::Limit { input, fetch } => {
            let df = frame_of(input)?;
            engine::frame_limit(&df, *fetch)
        },
        Plan::Join { left, right, kind, left_keys, right_keys } => {
            let l = frame_of(left)?;
            let r = frame_of(right)?;
            engine::frame_join(&l, r, engine::join_type(*kind), left_keys, right_keys)
        },
        Plan::Explain { input, verbose, analyze } => {
            let df = frame_of(input)?;
            engine::frame_explain(&df, *verbose, *analyze)
        },
    }
}

/// Result batches as a text table; a failure to render is reported apart
/// from failures of the engine.
pub fn render_batches(batches: &Vec<RecordBatch>) -> (r: Result<String, PlanError>)
    ensures
        r matches Ok(s) ==> s@ == engine::batches_text(batches@),
        r matches Err(e) ==> e is Formatting,
{
    match engine::format_batches(batches) {
        Ok(s) => Ok(s),
        Err(e) => Err(PlanError::Formatting(e)),
    }
}

} // verus!
