use vstd::prelude::*;

use crate::symbol::Symbol;

verus! {

/// A variable-binding environment: a mapping from variable names to numeric
/// values, built up before evaluation and read-only afterwards. Binding a
/// name that is already present replaces its value, so the abstract view is
/// always a map with one value per name.
pub struct Bindings {
    entries: Vec<(Symbol, i64)>,
}

/// The map denoted by a sequence of (name, value) pairs: later pairs win.
spec fn map_of(s: Seq<(Symbol, i64)>) -> Map<Seq<char>, i64>
    decreases s.len(),
{
    if s.len() == 0 {
        Map::empty()
    } else {
        map_of(s.drop_last()).insert(s.last().0@, s.last().1)
    }
}

impl View for Bindings {
    type V = Map<Seq<char>, i64>;

    closed spec fn view(&self) -> Map<Seq<char>, i64> {
        map_of(self.entries@)
    }
}

/// If no pair carries the key, the denoted map lacks it.
proof fn lemma_map_of_absent(s: Seq<(Symbol, i64)>, key: Seq<char>)
    requires
        forall|j: int| 0 <= j < s.len() ==> s[j].0@ != key,
    ensures
        !map_of(s).contains_key(key),
    decreases s.len(),
{
    if s.len() > 0 {
        lemma_map_of_absent(s.drop_last(), key);
    }
}

/// The last pair carrying the key decides its value in the denoted map.
proof fn lemma_map_of_present(s: Seq<(Symbol, i64)>, key: Seq<char>, i: int)
    requires
        0 <= i < s.len(),
        s[i].0@ == key,
        forall|j: int| i < j < s.len() ==> s[j].0@ != key,
    ensures
        map_of(s).contains_key(key),
        map_of(s)[key] == s[i].1,
    decreases s.len(),
{
    if i < s.len() - 1 {
        lemma_map_of_present(s.drop_last(), key, i);
    }
}

impl Bindings {
    /// An environment with no variables bound.
    pub fn new() -> (b: Bindings)
        ensures
            b@ == Map::<Seq<char>, i64>::empty(),
    {
        Bindings { entries: Vec::new() }
    }

    /// Bind `sym` to `value`, replacing any earlier binding of the same name.
    pub fn bind(&mut self, sym: Symbol, value: i64)
        ensures
            final(self)@ == old(self)@.insert(sym@, value),
    {
        let ghost prior = self.entries@;
        self.entries.push((sym, value));
        proof {
            assert(self.entries@.drop_last() =~= prior);
        }
    }

    /// Look the name up; `None` exactly when it is unbound.
    pub fn lookup(&self, name: &Symbol) -> (r: Option<i64>)
        ensures
            match r {
                Some(v) => self@.contains_key(name@) && self@[name@] == v,
                None => !self@.contains_key(name@),
            },
    {
        let mut i: usize = self.entries.len();
        while i > 0
            invariant
                i <= self.entries.len(),
                forall|j: int| i <= j < self.entries.len() ==> self.entries@[j].0@ != name@,
            decreases i,
        {
            i = i - 1;
            if self.entries[i].0.name == name.name {
                proof {
                    lemma_map_of_present(self.entries@, name@, i as int);
                }
                return Some(self.entries[i].1);
            }
        }
        proof {
            lemma_map_of_absent(self.entries@, name@);
        }
        None
    }
}

} // verus!
