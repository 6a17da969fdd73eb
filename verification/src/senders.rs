//! A set of sender identities.

use vstd::prelude::*;

verus! {

/// A finite set of sender identities, kept as a list without repetitions.
#[derive(Debug)]
pub struct SenderSet {
    names: Vec<String>,
}

impl View for SenderSet {
    type V = Set<Seq<char>>;

    /// The identities in the set.
    closed spec fn view(&self) -> Set<Seq<char>> {
        self.texts().to_set()
    }
}

impl SenderSet {
    /// The stored identities, in the order of their arrival.
    pub closed spec fn texts(&self) -> Seq<Seq<char>> {
        self.names@.map_values(|name: String| name@)
    }

    #[verifier::type_invariant]
    spec fn distinct(&self) -> bool {
        self.texts().no_duplicates()
    }

    /// The empty set.
    pub fn new() -> (set: SenderSet)
        ensures
            set@ == Set::<Seq<char>>::empty(),
    {
        let set = SenderSet { names: Vec::new() };
        assert(set@ =~= Set::<Seq<char>>::empty());
        set
    }

    /// The number of distinct identities in the set.
    pub fn len(&self) -> (count: usize)
        ensures
            count == self@.len(),
            self@.finite(),
    {
        proof {
            use_type_invariant(self);
            self.texts().unique_seq_to_set();
        }
        self.names.len()
    }

    /// Whether the set holds no identity.
    pub fn is_empty(&self) -> (empty: bool)
        ensures
            empty == (self@ == Set::<Seq<char>>::empty()),
    {
        proof {
            if self.names@.len() > 0 {
                assert(self.texts()[0] == self.names@[0]@);
                assert(self.texts().contains(self.texts()[0]));
                assert(self@.contains(self.texts()[0]));
            } else {
                assert(self@ =~= Set::<Seq<char>>::empty());
            }
        }
        self.names.len() == 0
    }

    /// Whether `name` is in the set.
    pub fn contains(&self, name: &String) -> (found: bool)
        ensures
            found == self@.contains(name@),
    {
        let mut i: usize = 0;
        while i < self.names.len()
            invariant
                i <= self.names@.len(),
                forall|k: int| 0 <= k < i ==> self.texts()[k] != name@,
            decreases self.names@.len() - i,
        {
            assert(self.texts()[i as int] == self.names@[i as int]@);
            if self.names[i] == *name {
                assert(self.texts().contains(name@));
                return true;
            }
            i += 1;
        }
        false
    }

    /// Adds `name` to the set; says whether it was new.
    pub fn insert(&mut self, name: String) -> (added: bool)
        ensures
            final(self)@ == old(self)@.insert(name@),
            added == !old(self)@.contains(name@),
    {
        proof {
            use_type_invariant(&*self);
        }
        if self.contains(&name) {
            assert(self@ =~= self@.insert(name@));
            false
        } else {
            let ghost before = self.texts();
            let mut names: Vec<String> = Vec::new();
            std::mem::swap(&mut self.names, &mut names);
            names.push(name);
            proof {
                assert(names@.map_values(|name: String| name@) =~= before.push(name@));
                before.lemma_push_to_set_commute(name@);
            }
            self.names = names;
            true
        }
    }

    /// Whether the two sets hold the same identities.
    pub fn same_members(&self, other: &SenderSet) -> (same: bool)
        ensures
            same == (self@ == other@),
    {
        proof {
            use_type_invariant(self);
            use_type_invariant(other);
            self.texts().unique_seq_to_set();
            other.texts().unique_seq_to_set();
        }
        if self.names.len() != other.names.len() {
            return false;
        }
        let mut i: usize = 0;
        while i < self.names.len()
            invariant
                i <= self.names@.len(),
                forall|k: int| 0 <= k < i ==> other@.contains(self.texts()[k]),
            decreases self.names@.len() - i,
        {
            assert(self.texts()[i as int] == self.names@[i as int]@);
            if !other.contains(&self.names[i]) {
                assert(self.texts().contains(self.texts()[i as int]));
                assert(self@.contains(self.texts()[i as int]));
                return false;
            }
            i += 1;
        }
        proof {
            assert(self@.subset_of(other@)) by {
                assert forall|name: Seq<char>| self@.contains(name) implies other@.contains(
                    name,
                ) by {
                    let k = choose|k: int| 0 <= k < self.texts().len() && self.texts()[k] == name;
                    assert(other@.contains(self.texts()[k]));
                }
            }
            vstd::set_lib::lemma_subset_equality(self@, other@);
        }
        true
    }

    /// An independent copy of the set.
    pub fn snapshot(&self) -> (copy: SenderSet)
        ensures
            copy@ == self@,
    {
        proof {
            use_type_invariant(self);
        }
        let mut names: Vec<String> = Vec::new();
        let mut i: usize = 0;
        while i < self.names.len()
            invariant
                i <= self.names@.len(),
                names@ =~= self.names@.take(i as int),
            decreases self.names@.len() - i,
        {
            names.push(self.names[i].clone());
            i += 1;
        }
        assert(self.names@.take(self.names@.len() as int) =~= self.names@);
        SenderSet { names }
    }
}

} // verus!
