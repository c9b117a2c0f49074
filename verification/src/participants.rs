//! The set of people taking part in a work item.

use vstd::prelude::*;

verus! {

/// A set of participant names. No name is held twice.
#[derive(Debug)]
pub struct Participants {
    names: Vec<String>,
}

impl View for Participants {
    type V = Set<Seq<char>>;

    closed spec fn view(&self) -> Set<Seq<char>> {
        Set::new(|name: Seq<char>| holds(self.names@, name))
    }
}

/// Whether one of `names` reads `name`.
pub open spec fn holds(names: Seq<String>, name: Seq<char>) -> bool {
    exists|i: int| 0 <= i < names.len() && (#[trigger] names[i])@ == name
}

/// Whether no two of `names` read the same.
pub open spec fn distinct(names: Seq<String>) -> bool {
    forall|i: int, j: int|
        0 <= i < j < names.len() ==> (#[trigger] names[i])@ != (#[trigger] names[j])@
}

impl Participants {
    #[verifier::type_invariant]
    spec fn inv(self) -> bool {
        distinct(self.names@)
    }

    /// The empty set.
    pub fn new() -> (p: Participants)
        ensures
            p@ == Set::<Seq<char>>::empty(),
    {
        let p = Participants { names: Vec::new() };
        assert(p@ =~= Set::<Seq<char>>::empty());
        p
    }

    /// Where `name` stands among the names, if it does.
    fn position(&self, name: &String) -> (at: Option<usize>)
        ensures
            match at {
                Some(i) => i < self.names.len() && self.names[i as int]@ == name@,
                None => !holds(self.names@, name@),
            },
    {
        let mut i: usize = 0;
        while i < self.names.len()
            invariant
                i <= self.names.len(),
                forall|k: int| 0 <= k < i ==> (#[trigger] self.names[k])@ != name@,
            decreases self.names.len() - i,
        {
            if self.names[i] == *name {
                return Some(i);
            }
            i = i + 1;
        }
        None
    }

    /// Whether `name` is in the set.
    pub fn contains(&self, name: &str) -> (found: bool)
        ensures
            found == self@.contains(name@),
    {
        let key = name.to_owned();
        self.position(&key).is_some()
    }

    /// Adds `name`. Says whether it was new.
    pub fn insert(&mut self, name: String) -> (fresh: bool)
        ensures
            final(self)@ == old(self)@.insert(name@),
            fresh == !old(self)@.contains(name@),
    {
        proof {
            use_type_invariant(&*self);
        }
        match self.position(&name) {
            Some(_) => {
                assert(self@ =~= self@.insert(name@));
                false
            },
            None => {
                let ghost before = self.names@;
                let mut names: Vec<String> = Vec::new();
                std::mem::swap(&mut self.names, &mut names);
                names.push(name);
                std::mem::swap(&mut self.names, &mut names);
                assert(forall|i: int| 0 <= i < before.len() ==> self.names@[i] == before[i]);
                assert(self.names@[before.len() as int]@ == name@);
                assert(self@ =~= old(self)@.insert(name@)) by {
                    assert forall|n: Seq<char>| holds(before, n) implies holds(self.names@, n) by {
                        let i = choose|i: int| 0 <= i < before.len() && (#[trigger] before[i])@ == n;
                        assert(self.names@[i]@ == n);
                    }
                }
                true
            },
        }
    }

    /// Takes `name` out. Says whether it was there.
    pub fn remove(&mut self, name: &str) -> (found: bool)
        ensures
            final(self)@ == old(self)@.remove(name@),
            found == old(self)@.contains(name@),
    {
        proof {
            use_type_invariant(&*self);
        }
        let key = name.to_owned();
        match self.position(&key) {
            Some(i) => {
                let ghost before = self.names@;
                let mut names: Vec<String> = Vec::new();
                std::mem::swap(&mut self.names, &mut names);
                names.remove(i);
                std::mem::swap(&mut self.names, &mut names);
                assert(self.names@ == before.remove(i as int));
                assert(self@ =~= old(self)@.remove(name@)) by {
                    assert forall|n: Seq<char>| holds(before, n) && n != name@ implies holds(
                        self.names@,
                        n,
                    ) by {
                        let k = choose|k: int| 0 <= k < before.len() && (#[trigger] before[k])@ == n;
                        if k < i {
                            assert(self.names@[k]@ == n);
                        } else {
                            assert(self.names@[k - 1]@ == n);
                        }
                    }
                    assert forall|n: Seq<char>| holds(self.names@, n) implies holds(before, n) && n
                        != name@ by {
                        let k = choose|k: int|
                            0 <= k < self.names@.len() && (#[trigger] self.names@[k])@ == n;
                        if k < i {
                            assert(before[k]@ == n);
                        } else {
                            assert(before[k + 1]@ == n);
                        }
                    }
                }
                true
            },
            None => {
                assert(self@ =~= self@.remove(name@));
                false
            },
        }
    }
}

impl Participants {
    /// The names, each once, in no order that callers may rely on.
    pub fn to_vec(&self) -> (names: Vec<String>)
        ensures
            distinct(names@),
            forall|name: Seq<char>| holds(names@, name) <==> self@.contains(name),
    {
        proof {
            use_type_invariant(self);
        }
        let mut names: Vec<String> = Vec::new();
        let mut i: usize = 0;
        while i < self.names.len()
            invariant
                i <= self.names.len(),
                names.len() == i,
                forall|k: int| 0 <= k < i ==> (#[trigger] names[k])@ == self.names[k]@,
            decreases self.names.len() - i,
        {
            names.push(self.names[i].clone());
            i = i + 1;
        }
        proof {
            assert forall|n: Seq<char>| holds(self.names@, n) implies holds(names@, n) by {
                let k = choose|k: int| 0 <= k < self.names.len() && (#[trigger] self.names[k])@ == n;
                assert(names[k]@ == n);
            }
            assert forall|n: Seq<char>| holds(names@, n) implies holds(self.names@, n) by {
                let k = choose|k: int| 0 <= k < names.len() && (#[trigger] names[k])@ == n;
                assert(self.names[k]@ == n);
            }
            assert forall|a: int, b: int| 0 <= a < b < names.len() implies (#[trigger] names[a])@
                != (#[trigger] names[b])@ by {
                assert(self.names[a]@ != self.names[b]@);
            }
        }
        names
    }
}

impl Clone for Participants {
    fn clone(&self) -> (p: Participants)
        ensures
            p@ == self@,
    {
        let p = Participants { names: self.to_vec() };
        assert(p@ =~= self@);
        p
    }
}

} // verus!
