use vstd::prelude::*;

use serde_json_bytes::Value;

verus! {

/// The bag described by entries written in order: the last write of a key
/// gives its value.
pub open spec fn entries_of(s: Seq<(Seq<char>, Value)>) -> Map<Seq<char>, Value>
    decreases s.len(),
{
    if s.len() == 0 {
        Map::empty()
    } else {
        entries_of(s.drop_last()).insert(s.last().0, s.last().1)
    }
}

proof fn lemma_entries_prefix(s: Seq<(Seq<char>, Value)>, key: Seq<char>, i: int)
    requires
        0 <= i <= s.len(),
        forall|j: int| i <= j < s.len() ==> (#[trigger] s[j]).0 != key,
    ensures
        entries_of(s).contains_key(key) == entries_of(s.subrange(0, i)).contains_key(key),
        entries_of(s)[key] == entries_of(s.subrange(0, i))[key],
    decreases s.len(),
{
    if s.len() > i {
        lemma_entries_prefix(s.drop_last(), key, i);
        assert(s.drop_last().subrange(0, i) =~= s.subrange(0, i));
    } else {
        assert(s.subrange(0, i) =~= s);
    }
}

/// Per-request key/value data shared by the stages of one request. Entries are
/// written and overwritten, never removed.
#[derive(Debug)]
pub struct Context {
    entries: Vec<(String, Value)>,
}

impl Context {
    spec fn log(&self) -> Seq<(Seq<char>, Value)> {
        self.entries@.map_values(|e: (String, Value)| (e.0@, e.1))
    }

    /// What the context holds: key to value.
    pub closed spec fn entries(&self) -> Map<Seq<char>, Value> {
        entries_of(self.log())
    }

    pub fn new() -> (r: Context)
        ensures
            r.entries() == Map::<Seq<char>, Value>::empty(),
    {
        let r = Context { entries: Vec::new() };
        assert(r.log() =~= Seq::<(Seq<char>, Value)>::empty());
        r
    }

    /// Sets `key` to `value`, replacing an earlier value.
    pub fn insert(&mut self, key: String, value: Value)
        ensures
            final(self).entries() == old(self).entries().insert(key@, value),
    {
        let ghost before = self.log();
        self.entries.push((key, value));
        assert(self.log().drop_last() =~= before);
    }

    /// The value of `key`, if it was set.
    pub fn get(&self, key: &String) -> (r: Option<&Value>)
        ensures
            r is Some <==> self.entries().contains_key(key@),
            r matches Some(v) ==> *v == self.entries()[key@],
    {
        let mut i: usize = self.entries.len();
        while i > 0
            invariant
                i <= self.entries@.len(),
                forall|j: int| i <= j < self.entries@.len() ==> (#[trigger] self.log()[j]).0 != key@,
            decreases i,
        {
            i = i - 1;
            if self.entries[i].0.eq(key) {
                proof {
                    lemma_entries_prefix(self.log(), key@, i + 1);
                    assert(self.log().subrange(0, i + 1).drop_last() =~= self.log().subrange(0, i as int));
                    assert(self.log()[i as int] == (self.entries@[i as int].0@, self.entries@[i as int].1));
                    assert(self.log().subrange(0, i + 1).last() == self.log()[i as int]);
                }
                return Some(&self.entries[i].1);
            }
        }
        proof {
            lemma_entries_prefix(self.log(), key@, 0);
        }
        None
    }
}

impl Default for Context {
    fn default() -> (r: Context)
        ensures
            r.entries() == Map::<Seq<char>, Value>::empty(),
    {
        Context::new()
    }
}

} // verus!
