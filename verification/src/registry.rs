//! The registered strategies: a map from names to strategies that keeps the
//! order of registration.

use vstd::prelude::*;

verus! {

/// No name occurs twice among `entries`.
pub open spec fn names_distinct<S>(entries: Seq<(Seq<char>, S)>) -> bool {
    forall|i: int, j: int| 0 <= i < j < entries.len() ==> entries[i].0 != entries[j].0
}

/// Some entry of `entries` goes by `name`.
pub open spec fn has_name<S>(entries: Seq<(Seq<char>, S)>, name: Seq<char>) -> bool {
    exists|i: int| 0 <= i < entries.len() && (#[trigger] entries[i]).0 == name
}

/// Where the entry called `name` stands. It is meaningful where `has_name`
/// holds, and among distinct names it is the only such place.
pub open spec fn position_of<S>(entries: Seq<(Seq<char>, S)>, name: Seq<char>) -> int {
    choose|i: int| 0 <= i < entries.len() && (#[trigger] entries[i]).0 == name
}

/// Strategies by name, in the order in which their names were first
/// registered.
///
/// Its view is the sequence of `(name, strategy)` pairs in that order. A name
/// occurs at most once: registering a name again replaces the strategy and
/// keeps the place.
pub struct Strategies<S> {
    entries: Vec<(String, S)>,
}

impl<S> View for Strategies<S> {
    type V = Seq<(Seq<char>, S)>;

    closed spec fn view(&self) -> Seq<(Seq<char>, S)> {
        viewed(self.entries@)
    }
}

/// The entries as the contracts see them: each name by its characters.
spec fn viewed<S>(entries: Seq<(String, S)>) -> Seq<(Seq<char>, S)> {
    Seq::new(entries.len(), |i: int| (entries[i].0@, entries[i].1))
}

impl<S> Strategies<S> {
    #[verifier::type_invariant]
    spec fn inv(self) -> bool {
        names_distinct(self@)
    }

    /// A registry with nothing in it.
    pub fn new() -> (empty: Self)
        ensures
            empty@ == Seq::<(Seq<char>, S)>::empty(),
    {
        Strategies { entries: Vec::new() }
    }

    /// How many strategies are registered. No two of them share a name.
    pub fn len(&self) -> (n: usize)
        ensures
            n == self@.len(),
            names_distinct(self@),
    {
        proof {
            use_type_invariant(self);
        }
        self.entries.len()
    }

    /// The `i`-th entry in registration order.
    pub fn entry(&self, i: usize) -> (at: (&String, &S))
        requires
            i < self@.len(),
        ensures
            at.0@ == self@[i as int].0,
            *at.1 == self@[i as int].1,
    {
        (&self.entries[i].0, &self.entries[i].1)
    }

    /// Where `name` is registered, if it is.
    pub fn position(&self, name: &String) -> (at: Option<usize>)
        ensures
            if has_name(self@, name@) {
                at matches Some(i) && i == position_of(self@, name@)
            } else {
                at is None
            },
    {
        proof {
            use_type_invariant(self);
        }
        let mut i: usize = 0;
        while i < self.entries.len()
            invariant
                i <= self.entries.len(),
                names_distinct(self@),
                forall|j: int| 0 <= j < i ==> (#[trigger] self@[j]).0 != name@,
            decreases self.entries.len() - i,
        {
            if self.entries[i].0 == *name {
                assert(self@[i as int].0 == name@);
                return Some(i);
            }
            i += 1;
        }
        None
    }

    /// Whether a strategy is registered under `name`.
    pub fn contains_key(&self, name: &str) -> (known: bool)
        ensures
            known == has_name(self@, name@),
    {
        let owned = name.to_owned();
        self.position(&owned).is_some()
    }

    /// The strategy registered under `name`.
    pub fn get(&self, name: &str) -> (found: Option<&S>)
        ensures
            if has_name(self@, name@) {
                found matches Some(strategy) && *strategy == self@[position_of(self@, name@)].1
            } else {
                found is None
            },
    {
        let owned = name.to_owned();
        match self.position(&owned) {
            Some(i) => Some(&self.entries[i].1),
            None => None,
        }
    }

    /// Registers `strategy` under `name`.
    ///
    /// A new name goes to the end. A name that is already registered keeps
    /// its place and gets the new strategy; the one it had is handed back.
    pub fn insert(&mut self, name: String, strategy: S) -> (replaced: Option<S>)
        ensures
            names_distinct(final(self)@),
            if has_name(old(self)@, name@) {
                let i = position_of(old(self)@, name@);
                &&& replaced == Some(old(self)@[i].1)
                &&& final(self)@ == old(self)@.update(i, (name@, strategy))
            } else {
                &&& replaced is None
                &&& final(self)@ == old(self)@.push((name@, strategy))
            },
    {
        let at = self.position(&name);
        proof {
            use_type_invariant(&*self);
        }
        let ghost before = self.entries@;
        let mut entries: Vec<(String, S)> = Vec::new();
        std::mem::swap(&mut entries, &mut self.entries);
        let replaced = match at {
            Some(i) => {
                let previous = entries.remove(i);
                entries.insert(i, (name, strategy));
                assert(viewed(entries@) == viewed(before).update(i as int, (name@, strategy)));
                Some(previous.1)
            },
            None => {
                entries.push((name, strategy));
                assert(viewed(entries@) == viewed(before).push((name@, strategy)));
                None
            },
        };
        std::mem::swap(&mut entries, &mut self.entries);
        replaced
    }
}

} // verus!
