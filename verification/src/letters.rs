//! A set of guessed letters.
use vstd::prelude::*;

verus! {

/// The letters guessed so far in a round: a set of chars, each held once,
/// kept in the order in which they were first inserted.
pub struct LetterSet {
    letters: Vec<char>,
}

impl View for LetterSet {
    type V = Set<char>;

    closed spec fn view(&self) -> Set<char> {
        self.letters@.to_set()
    }
}

impl LetterSet {
    #[verifier::type_invariant]
    closed spec fn each_once(&self) -> bool {
        self.letters@.no_duplicates()
    }

    /// The empty set.
    pub fn new() -> (set: LetterSet)
        ensures
            set@ == Set::<char>::empty(),
    {
        let set = LetterSet { letters: Vec::new() };
        assert(set.letters@.to_set() =~= Set::<char>::empty());
        set
    }

    /// Whether `c` is in the set.
    pub fn contains(&self, c: &char) -> (found: bool)
        ensures
            found == self@.contains(*c),
    {
        let mut i: usize = 0;
        while i < self.letters.len()
            invariant
                0 <= i <= self.letters@.len(),
                forall|j: int| 0 <= j < i ==> self.letters@[j] != *c,
            decreases self.letters@.len() - i,
        {
            if self.letters[i] == *c {
                assert(self.letters@.to_set().contains(*c)) by {
                    assert(self.letters@.contains(*c));
                }
                return true;
            }
            i = i + 1;
        }
        assert(!self.letters@.to_set().contains(*c)) by {
            if self.letters@.contains(*c) {
                let k = choose|k: int| 0 <= k < self.letters@.len() && self.letters@[k] == *c;
                assert(self.letters@[k] == *c);
            }
        }
        false
    }

    /// Adds `c` to the set; returns whether it was not there before.
    pub fn insert(&mut self, c: char) -> (added: bool)
        ensures
            final(self)@ == old(self)@.insert(c),
            added == !old(self)@.contains(c),
    {
        if self.contains(&c) {
            assert(self@.insert(c) =~= self@);
            false
        } else {
            proof {
                use_type_invariant(&*self);
            }
            let ghost before = self.letters@;
            let mut letters: Vec<char> = Vec::new();
            std::mem::swap(&mut letters, &mut self.letters);
            letters.push(c);
            assert(letters@ == before.push(c));
            assert(!before.contains(c));
            assert(letters@.no_duplicates()) by {
                assert forall|i: int, j: int| 0 <= i < j < letters@.len() implies letters@[i] != letters@[j] by {
                    if j == before.len() {
                        assert(before[i] != c) by {
                            if before[i] == c {
                                assert(before.contains(c));
                            }
                        }
                    }
                }
            }
            self.letters = letters;
            assert(self.letters@.to_set() =~= before.to_set().insert(c)) by {
                assert forall|x: char| self.letters@.to_set().contains(x) implies before.to_set().insert(c).contains(x) by {
                    assert(self.letters@.contains(x));
                    let k = choose|k: int| 0 <= k < self.letters@.len() && self.letters@[k] == x;
                    if k < before.len() {
                        assert(before[k] == x);
                    }
                }
                assert forall|x: char| before.to_set().insert(c).contains(x) implies self.letters@.to_set().contains(x) by {
                    if x == c {
                        assert(self.letters@[before.len() as int] == c);
                    } else {
                        assert(before.contains(x));
                        let k = choose|k: int| 0 <= k < before.len() && before[k] == x;
                        assert(self.letters@[k] == x);
                    }
                }
            }
            true
        }
    }
}

} // verus!
