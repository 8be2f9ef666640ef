//! The errors that building and running a plan can report.
use vstd::prelude::*;
use vstd::string::StringExecFns;

use datafusion::arrow::error::ArrowError;
use datafusion::error::DataFusionError;

verus! {

/// Why a call of the builder or of the engine failed.
#[derive(Debug)]
pub enum PlanError {
    /// A plan was indexed by a key that is neither a name nor a list of names.
    InvalidIndexType,
    /// A join was asked for with a join-type token outside the known set;
    /// holds the token as given.
    UnknownJoinType(String),
    /// A window function name that the engine does not know; holds the name.
    UnresolvedWindowFunction(String),
    /// A scalar or aggregate function name outside the registry; holds the name.
    UnknownFunction(String),
    /// The engine failed while building, resolving or running the plan.
    Engine(DataFusionError),
    /// Rendering result batches as text failed.
    Formatting(ArrowError),
}

impl PlanError {
    /// A description of the failure that names the input at fault; the
    /// engine's own failures are described in its words.
    pub fn message(&self) -> (r: String)
        ensures
            match self {
                PlanError::InvalidIndexType => r@
                    == "DataFrame can only be indexed by string index or indices"@,
                PlanError::UnknownJoinType(t) => r@ == "The join type "@ + t@
                    + " does not exist or is not implemented"@,
                PlanError::UnresolvedWindowFunction(n) => r@
                    == "There is no window function named "@ + n@,
                PlanError::UnknownFunction(n) => r@ == "There is no function named "@ + n@,
                PlanError::Engine(_) => true,
                PlanError::Formatting(_) => true,
            },
    {
        match self {
            PlanError::InvalidIndexType => {
                "DataFrame can only be indexed by string index or indices".to_owned()
            },
            PlanError::UnknownJoinType(t) => "The join type ".to_owned().concat(t.as_str()).concat(
                " does not exist or is not implemented",
            ),
            PlanError::UnresolvedWindowFunction(n) => {
                "There is no window function named ".to_owned().concat(n.as_str())
            },
            PlanError::UnknownFunction(n) => "There is no function named ".to_owned().concat(
                n.as_str(),
            ),
            PlanError::Engine(e) => e.to_string(),
            PlanError::Formatting(e) => e.to_string(),
        }
    }
}

} // verus!
