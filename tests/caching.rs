use std::cell::Cell;
use std::rc::Rc;

use router_core::caching::{CachingQueryPlanner, WithCaching};
use router_core::plan::{QueryPlan, QueryPlanOptions, QueryPlanner, QueryPlannerError, PlanResult};

/// A planner that counts its calls and answers from a fixed rule.
struct CountingPlanner {
    calls: Rc<Cell<usize>>,
    fail: bool,
}

impl QueryPlanner for CountingPlanner {
    fn get(&mut self, query: String, operation: Option<String>, options: QueryPlanOptions) -> PlanResult {
        self.calls.set(self.calls.get() + 1);
        if self.fail {
            return Err(QueryPlannerError::ParseError { parse_errors: "".into() });
        }
        let op = match operation {
            Some(o) => format!("op={}", o),
            None => "op=none".to_string(),
        };
        Ok(QueryPlan { root: format!("{}|{}|defer={}|call={}", query, op, options.defer_stream_support, self.calls.get()) })
    }
}

fn counting(fail: bool) -> (CountingPlanner, Rc<Cell<usize>>) {
    let calls = Rc::new(Cell::new(0));
    (CountingPlanner { calls: calls.clone(), fail }, calls)
}

#[test]
fn test_plan() {
    let (delegate, calls) = counting(true);
    let mut planner = delegate.with_caching();

    for _ in 0..5 {
        assert!(planner.get("query1".into(), Some("".into()), QueryPlanOptions::default()).is_err());
    }
    assert!(planner.get("query2".into(), Some("".into()), QueryPlanOptions::default()).is_err());
    assert_eq!(calls.get(), 2);
}

#[test]
fn repeated_key_returns_first_result_without_replanning() {
    let (delegate, calls) = counting(false);
    let mut planner = CachingQueryPlanner::new(delegate);
    let first = planner.get("{ a }".into(), Some("Q".into()), QueryPlanOptions::default());
    let second = planner.get("{ a }".into(), Some("Q".into()), QueryPlanOptions::default());
    assert_eq!(first, Ok(QueryPlan { root: "{ a }|op=Q|defer=false|call=1".to_string() }));
    assert_eq!(first, second);
    assert_eq!(calls.get(), 1);
}

#[test]
fn repeated_error_is_equal_and_cached() {
    let (delegate, calls) = counting(true);
    let mut planner = CachingQueryPlanner::new(delegate);
    let first = planner.get("bad".into(), None, QueryPlanOptions::default());
    let second = planner.get("bad".into(), None, QueryPlanOptions::default());
    assert_eq!(first, Err(QueryPlannerError::ParseError { parse_errors: "".into() }));
    assert_eq!(first, second);
    assert_eq!(calls.get(), 1);
}

#[test]
fn operation_name_present_or_absent_are_distinct_keys() {
    let (delegate, calls) = counting(false);
    let mut planner = CachingQueryPlanner::new(delegate);
    let named = planner.get("{ a }".into(), Some("".into()), QueryPlanOptions::default());
    let unnamed = planner.get("{ a }".into(), None, QueryPlanOptions::default());
    assert_eq!(calls.get(), 2);
    assert_ne!(named, unnamed);
    assert_eq!(unnamed, Ok(QueryPlan { root: "{ a }|op=none|defer=false|call=2".to_string() }));
}

#[test]
fn option_value_is_part_of_the_key() {
    let (delegate, calls) = counting(false);
    let mut planner = CachingQueryPlanner::new(delegate);
    let plain = planner.get("{ a }".into(), None, QueryPlanOptions { defer_stream_support: false });
    let deferred = planner.get("{ a }".into(), None, QueryPlanOptions { defer_stream_support: true });
    assert_eq!(calls.get(), 2);
    assert_ne!(plain, deferred);
}

#[test]
fn whitespace_makes_a_different_key() {
    let (delegate, calls) = counting(false);
    let mut planner = CachingQueryPlanner::new(delegate);
    let _ = planner.get("{ a }".into(), None, QueryPlanOptions::default());
    let _ = planner.get("{a}".into(), None, QueryPlanOptions::default());
    assert_eq!(calls.get(), 2);
}

#[test]
fn no_entry_is_evicted() {
    let (delegate, calls) = counting(false);
    let mut planner = CachingQueryPlanner::new(delegate);
    let mut first = Vec::new();
    for i in 0..20 {
        first.push(planner.get(format!("query{}", i), None, QueryPlanOptions::default()));
    }
    assert_eq!(calls.get(), 20);
    for i in 0..20 {
        assert_eq!(planner.get(format!("query{}", i), None, QueryPlanOptions::default()), first[i]);
    }
    assert_eq!(calls.get(), 20);
}

fn plan_twice<P: QueryPlanner>(planner: &mut P) -> (PlanResult, PlanResult) {
    let a = QueryPlanner::get(planner, "q".into(), None, QueryPlanOptions::default());
    let b = QueryPlanner::get(planner, "q".into(), None, QueryPlanOptions::default());
    (a, b)
}

#[test]
fn caching_planner_is_itself_a_planner() {
    let (delegate, calls) = counting(false);
    let mut planner = CachingQueryPlanner::new(delegate);
    let (a, b) = plan_twice(&mut planner);
    assert_eq!(a, b);
    assert_eq!(calls.get(), 1);
}
