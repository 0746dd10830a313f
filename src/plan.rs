use vstd::prelude::*;

verus! {

/// Options that change how a query is planned; they are part of the cache key.
#[derive(Clone, Copy, Debug, PartialEq, Eq, Hash, Structural)]
pub struct QueryPlanOptions {
    pub defer_stream_support: bool,
}

impl Default for QueryPlanOptions {
    fn default() -> (r: QueryPlanOptions)
        ensures
            r == (QueryPlanOptions { defer_stream_support: false }),
    {
        QueryPlanOptions { defer_stream_support: false }
    }
}

/// An executable plan, as produced by the planning algorithm (kept in its
/// serialized form: this crate only stores and hands plans on).
#[derive(Clone, Debug, PartialEq, Eq)]
pub struct QueryPlan {
    pub root: String,
}

/// Why a query could not be planned.
#[derive(Clone, Debug, PartialEq, Eq)]
pub enum QueryPlannerError {
    ParseError { parse_errors: String },
    PlanningErrors { planning_errors: String },
}

/// The outcome of planning one query.
pub type PlanResult = Result<QueryPlan, QueryPlannerError>;

pub open spec fn opt_view(o: Option<String>) -> Option<Seq<char>> {
    match o {
        Some(s) => Some(s@),
        None => None,
    }
}

/// Anything that turns a query, an optional operation name and planning options
/// into a plan or a planning error.
pub trait QueryPlanner {
    /// Planning `query`, `operation` and `options` from this state may return
    /// `r` and leave the planner in state `after`. A planner that states
    /// nothing of itself admits every outcome.
    open spec fn planned(
        &self,
        query: Seq<char>,
        operation: Option<Seq<char>>,
        options: QueryPlanOptions,
        r: PlanResult,
        after: &Self,
    ) -> bool {
        true
    }

    fn get(
        &mut self,
        query: String,
        operation: Option<String>,
        options: QueryPlanOptions,
    ) -> (r: PlanResult)
        ensures
            old(self).planned(query@, opt_view(operation), options, r, &*final(self)),
    ;
}

/// A field-by-field copy of a planning outcome.
pub fn copy_plan_result(r: &PlanResult) -> (c: PlanResult)
    ensures
        c == *r,
{
    match r {
        Ok(p) => Ok(QueryPlan { root: p.root.clone() }),
        Err(QueryPlannerError::ParseError { parse_errors }) => Err(
            QueryPlannerError::ParseError { parse_errors: parse_errors.clone() },
        ),
        Err(QueryPlannerError::PlanningErrors { planning_errors }) => Err(
            QueryPlannerError::PlanningErrors { planning_errors: planning_errors.clone() },
        ),
    }
}

} // verus!
