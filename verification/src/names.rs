//! A set of names, kept as a list in which no name stands twice.

use vstd::prelude::*;
use vstd::string::*;
use crate::text::texts;

verus! {

/// A finite set of names. Names are told apart by their characters.
#[derive(Debug)]
pub struct NameSet {
    names: Vec<String>,
}

impl View for NameSet {
    type V = Set<Seq<char>>;

    closed spec fn view(&self) -> Set<Seq<char>> {
        texts(self.names@).to_set()
    }
}

impl NameSet {
    /// No name stands twice in the list.
    pub closed spec fn wf(&self) -> bool {
        texts(self.names@).no_duplicates()
    }

    /// The names in the order in which they came in.
    pub closed spec fn order(&self) -> Seq<Seq<char>> {
        texts(self.names@)
    }

    /// The empty set.
    pub fn new() -> (set: NameSet)
        ensures
            set.wf(),
            set@ == Set::<Seq<char>>::empty(),
            set.order() == Seq::<Seq<char>>::empty(),
    {
        let set = NameSet { names: Vec::new() };
        assert(texts(set.names@) =~= Seq::<Seq<char>>::empty());
        assert(set@ =~= Set::<Seq<char>>::empty());
        set
    }

    /// Tells whether `name` is in the set.
    pub fn contains(&self, name: &String) -> (found: bool)
        ensures
            found == self@.contains(name@),
    {
        let mut i: usize = 0;
        while i < self.names.len()
            invariant
                i <= self.names.len(),
                forall|j: int| 0 <= j < i ==> texts(self.names@)[j] != name@,
            decreases self.names.len() - i,
        {
            if self.names[i] == *name {
                assert(texts(self.names@)[i as int] == name@);
                assert(texts(self.names@).contains(name@));
                return true;
            }
            i += 1;
        }
        false
    }

    /// Puts `name` into the set, and tells whether it was new.
    pub fn insert(&mut self, name: String) -> (fresh: bool)
        requires
            old(self).wf(),
        ensures
            final(self).wf(),
            final(self)@ == old(self)@.insert(name@),
            fresh == !old(self)@.contains(name@),
            final(self).order() == if fresh {
                old(self).order().push(name@)
            } else {
                old(self).order()
            },
    {
        if self.contains(&name) {
            assert(self@.insert(name@) =~= self@);
            return false;
        }
        let ghost before = texts(self.names@);
        self.names.push(name);
        proof {
            assert(texts(self.names@) =~= before.push(name@));
            before.lemma_push_to_set_commute(name@);
        }
        true
    }

    /// The number of names in the set.
    pub fn len(&self) -> (n: usize)
        requires
            self.wf(),
        ensures
            n == self@.len(),
            self@.finite(),
    {
        proof {
            texts(self.names@).unique_seq_to_set();
            vstd::seq_lib::seq_to_set_is_finite(texts(self.names@));
        }
        self.names.len()
    }

    /// The names, each once, in the order in which they came in.
    pub fn to_vec(&self) -> (names: Vec<String>)
        ensures
            texts(names@) == self.order(),
            texts(names@).to_set() == self@,
            self.wf() ==> texts(names@).no_duplicates(),
    {
        let mut names: Vec<String> = Vec::new();
        let mut i: usize = 0;
        while i < self.names.len()
            invariant
                i <= self.names.len(),
                texts(names@) == texts(self.names@).take(i as int),
            decreases self.names.len() - i,
        {
            let ghost before = texts(names@);
            names.push(self.names[i].clone());
            assert(texts(names@) =~= before.push(self.names@[i as int]@));
            assert(texts(self.names@).take(i + 1) =~= texts(self.names@).take(i as int).push(
                self.names@[i as int]@,
            ));
            i += 1;
        }
        assert(texts(self.names@).take(self.names.len() as int) =~= texts(self.names@));
        names
    }
}

} // verus!
