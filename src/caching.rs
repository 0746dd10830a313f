use vstd::prelude::*;

use crate::plan::{copy_plan_result, opt_view, PlanResult, QueryPlanOptions, QueryPlanner};

verus! {

/// The cache key, as values: query text, operation name (or its absence) and
/// planning options, compared exactly.
pub type PlanKey = (Seq<char>, Option<Seq<char>>, QueryPlanOptions);

pub open spec fn plan_key(query: String, operation: Option<String>, options: QueryPlanOptions) -> PlanKey {
    (query@, opt_view(operation), options)
}

struct CacheKey {
    query: String,
    operation: Option<String>,
    options: QueryPlanOptions,
}

spec fn key_view(k: CacheKey) -> PlanKey {
    plan_key(k.query, k.operation, k.options)
}

/// The entry stored last for `k`, if any.
spec fn lookup(s: Seq<(CacheKey, PlanResult)>, k: PlanKey) -> Option<PlanResult>
    decreases s.len(),
{
    if s.len() == 0 {
        None
    } else if key_view(s.last().0) == k {
        Some(s.last().1)
    } else {
        lookup(s.drop_last(), k)
    }
}

proof fn lemma_lookup_prefix(s: Seq<(CacheKey, PlanResult)>, k: PlanKey, i: int)
    requires
        0 <= i <= s.len(),
        forall|j: int| i <= j < s.len() ==> key_view(#[trigger] s[j].0) != k,
    ensures
        lookup(s, k) == lookup(s.subrange(0, i), k),
    decreases s.len(),
{
    if s.len() > i {
        lemma_lookup_prefix(s.drop_last(), k, i);
        assert(s.drop_last().subrange(0, i) =~= s.subrange(0, i));
    } else {
        assert(s.subrange(0, i) =~= s);
    }
}

fn opt_string_eq(a: &Option<String>, b: &Option<String>) -> (r: bool)
    ensures
        r == (opt_view(*a) == opt_view(*b)),
{
    match (a, b) {
        (Some(x), Some(y)) => x.eq(y),
        (None, None) => true,
        _ => false,
    }
}

/// A query planner decorator that remembers every outcome of its delegate,
/// failures included. Entries are never evicted: memory grows with the number
/// of distinct keys ever planned. Each call holds the planner exclusively
/// (`&mut self`), so the delegate runs at most once per distinct key.
pub struct CachingQueryPlanner<T: QueryPlanner> {
    delegate: T,
    cached: Vec<(CacheKey, PlanResult)>,
}

impl<T: QueryPlanner> CachingQueryPlanner<T> {
    /// What is cached: the outcome remembered for each key.
    pub closed spec fn cache(&self) -> Map<PlanKey, PlanResult> {
        Map::new(
            |k: PlanKey| lookup(self.cached@, k) is Some,
            |k: PlanKey| lookup(self.cached@, k)->Some_0,
        )
    }

    /// The wrapped planner.
    pub closed spec fn delegate(&self) -> T {
        self.delegate
    }

    /// One call of `get` on `key` took the planner from `before` to `after`
    /// and returned `r`: a remembered outcome is returned without touching the
    /// delegate; otherwise the delegate plans exactly `key`, once, and its
    /// outcome is returned and remembered.
    pub open spec fn plan_outcome(before: Self, key: PlanKey, r: PlanResult, after: Self) -> bool {
        if before.cache().contains_key(key) {
            &&& r == before.cache()[key]
            &&& after.cache() == before.cache()
            &&& after.delegate() == before.delegate()
        } else {
            &&& before.delegate().planned(key.0, key.1, key.2, r, &after.delegate())
            &&& after.cache() == before.cache().insert(key, r)
        }
    }

    pub fn new(delegate: T) -> (r: CachingQueryPlanner<T>)
        ensures
            r.cache() == Map::<PlanKey, PlanResult>::empty(),
            r.delegate() == delegate,
    {
        let r = CachingQueryPlanner { delegate, cached: Vec::new() };
        assert(r.cache() =~= Map::<PlanKey, PlanResult>::empty());
        r
    }

    /// Plans through the cache.
    pub fn get(&mut self, query: String, operation: Option<String>, options: QueryPlanOptions) -> (r: PlanResult)
        ensures
            Self::plan_outcome(*old(self), plan_key(query, operation, options), r, *final(self)),
    {
        let ghost k = plan_key(query, operation, options);
        let mut i: usize = self.cached.len();
        while i > 0
            invariant
                k == plan_key(query, operation, options),
                i <= self.cached@.len(),
                forall|j: int| i <= j < self.cached@.len() ==> key_view(#[trigger] self.cached@[j].0) != k,
            decreases i,
        {
            i = i - 1;
            let entry = &self.cached[i];
            let same_query = entry.0.query.eq(&query);
            let same_operation = opt_string_eq(&entry.0.operation, &operation);
            let same_options = entry.0.options == options;
            if same_query && same_operation && same_options {
                proof {
                    let s = self.cached@;
                    lemma_lookup_prefix(s, k, i + 1);
                    assert(s.subrange(0, i + 1).last() == s[i as int]);
                    assert(self.cache().contains_key(k));
                }
                return copy_plan_result(&entry.1);
            }
        }
        proof {
            lemma_lookup_prefix(self.cached@, k, 0);
            assert(!self.cache().contains_key(k));
        }
        let ghost before = *self;
        let key = CacheKey { query: query.clone(), operation: opt_clone(&operation), options };
        let r = self.delegate.get(query, operation, options);
        self.cached.push((key, copy_plan_result(&r)));
        proof {
            let s = before.cached@;
            assert(self.cached@.drop_last() =~= s);
            assert(self.cache() =~= before.cache().insert(k, r));
        }
        r
    }
}

fn opt_clone(o: &Option<String>) -> (r: Option<String>)
    ensures
        r == *o,
{
    match o {
        Some(s) => Some(s.clone()),
        None => None,
    }
}

impl<T: QueryPlanner> QueryPlanner for CachingQueryPlanner<T> {
    open spec fn planned(
        &self,
        query: Seq<char>,
        operation: Option<Seq<char>>,
        options: QueryPlanOptions,
        r: PlanResult,
        after: &Self,
    ) -> bool {
        Self::plan_outcome(*self, (query, operation, options), r, *after)
    }

    fn get(&mut self, query: String, operation: Option<String>, options: QueryPlanOptions) -> PlanResult {
        CachingQueryPlanner::get(self, query, operation, options)
    }
}

/// Adds `with_caching` to every query planner.
pub trait WithCaching: QueryPlanner + Sized {
    /// Wraps this planner, which is consumed, in a caching decorator.
    fn with_caching(self) -> (r: CachingQueryPlanner<Self>)
        ensures
            r.cache() == Map::<PlanKey, PlanResult>::empty(),
            r.delegate() == self,
    ;
}

impl<T: QueryPlanner> WithCaching for T {
    fn with_caching(self) -> (r: CachingQueryPlanner<T>) {
        CachingQueryPlanner::new(self)
    }
}

/// Planning the same key twice in a row: the second call returns what the
/// first returned, errors included, leaves the delegate untouched and adds no
/// entry. So the delegate computes a key's plan at most once.
pub proof fn lemma_repeat_is_cached<T: QueryPlanner>(
    a: CachingQueryPlanner<T>,
    key: PlanKey,
    r1: PlanResult,
    b: CachingQueryPlanner<T>,
    r2: PlanResult,
    c: CachingQueryPlanner<T>,
)
    requires
        CachingQueryPlanner::plan_outcome(a, key, r1, b),
        CachingQueryPlanner::plan_outcome(b, key, r2, c),
    ensures
        r2 == r1,
        c.delegate() == b.delegate(),
        c.cache() == b.cache(),
{
}

/// Keys that differ in any part (an operation name present or absent, another
/// option value, other query text) are separate entries: a second key not yet
/// seen goes to the delegate with exactly its own parts, and once both are
/// planned, each keeps the outcome of its own call.
pub proof fn lemma_distinct_keys<T: QueryPlanner>(
    a: CachingQueryPlanner<T>,
    k1: PlanKey,
    r1: PlanResult,
    b: CachingQueryPlanner<T>,
    k2: PlanKey,
    r2: PlanResult,
    c: CachingQueryPlanner<T>,
)
    requires
        k1 != k2,
        CachingQueryPlanner::plan_outcome(a, k1, r1, b),
        CachingQueryPlanner::plan_outcome(b, k2, r2, c),
    ensures
        !a.cache().contains_key(k2) ==> !b.cache().contains_key(k2)
            && b.delegate().planned(k2.0, k2.1, k2.2, r2, &c.delegate()),
        c.cache().contains_key(k1) && c.cache()[k1] == r1,
        c.cache().contains_key(k2) && c.cache()[k2] == r2,
{
}

/// Over any run of calls, every key planned along the way stays cached with the
/// outcome its call returned: nothing is evicted.
pub proof fn lemma_no_eviction<T: QueryPlanner>(
    states: Seq<CachingQueryPlanner<T>>,
    keys: Seq<PlanKey>,
    results: Seq<PlanResult>,
)
    requires
        states.len() == keys.len() + 1,
        results.len() == keys.len(),
        forall|i: int|
            0 <= i < keys.len() ==> #[trigger] CachingQueryPlanner::plan_outcome(
                states[i],
                keys[i],
                results[i],
                states[i + 1],
            ),
    ensures
        forall|i: int|
            0 <= i < keys.len() ==> {
                &&& states.last().cache().contains_key(#[trigger] keys[i])
                &&& states.last().cache()[keys[i]] == results[i]
            },
    decreases keys.len(),
{
    if keys.len() > 0 {
        let n = keys.len() - 1;
        assert(CachingQueryPlanner::plan_outcome(states[n], keys[n], results[n], states[n + 1]));
        lemma_no_eviction(states.drop_last(), keys.drop_last(), results.drop_last());
        assert forall|i: int| 0 <= i < keys.len() implies {
            &&& states.last().cache().contains_key(#[trigger] keys[i])
            &&& states.last().cache()[keys[i]] == results[i]
        } by {
            if i < n {
                assert(states.drop_last().last() == states[n]);
                assert(keys.drop_last()[i] == keys[i]);
            }
        }
    }
}

/// With a deterministic delegate, one whose every outcome for a key is `f`
/// of that key, the caching planner answers as the delegate would: if every
/// remembered outcome is `f` of its key, a call returns `f` of its key and
/// that stays true of what is remembered.
pub proof fn lemma_deterministic_delegate<T: QueryPlanner>(
    f: spec_fn(PlanKey) -> PlanResult,
    a: CachingQueryPlanner<T>,
    key: PlanKey,
    r: PlanResult,
    b: CachingQueryPlanner<T>,
)
    requires
        forall|d: T, k: PlanKey, out: PlanResult, d2: T|
            #[trigger] d.planned(k.0, k.1, k.2, out, &d2) ==> out == f(k),
        forall|k: PlanKey| #[trigger] a.cache().contains_key(k) ==> a.cache()[k] == f(k),
        CachingQueryPlanner::plan_outcome(a, key, r, b),
    ensures
        r == f(key),
        forall|k: PlanKey| #[trigger] b.cache().contains_key(k) ==> b.cache()[k] == f(k),
{
    if !a.cache().contains_key(key) {
        assert(a.delegate().planned(key.0, key.1, key.2, r, &b.delegate()));
    }
}

} // verus!
