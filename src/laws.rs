//! Laws that relate the operations of the builder to one another.
use vstd::prelude::*;

use crate::plan::{index_names, selection_of, IndexKey, PlanBuilder};
use crate::error::PlanError;

verus! {

/// Indexing a plan by a name, or by a list of names, is selecting those
/// columns: whatever `get_item` returns for such a key is the node that
/// `select_columns` builds for the same names, over the same input.
pub proof fn lemma_index_is_select_columns(
    base: PlanBuilder,
    key: IndexKey,
    columns: Vec<String>,
    indexed: Result<PlanBuilder, PlanError>,
    selected: PlanBuilder,
)
    requires
        index_names(key) == Some(columns@),
        call_ensures(PlanBuilder::get_item, (&base, key), indexed),
        call_ensures(PlanBuilder::select_columns, (&base, columns), selected),
    ensures
        indexed matches Ok(p) && selection_of(*p.plan) == selection_of(*selected.plan),
{
}

} // verus!
