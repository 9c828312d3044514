//! A finite set of characters that keeps its members in insertion order.

use vstd::prelude::*;

verus! {

/// A set of characters. Each member is held once, in the order in which it
/// was first inserted.
#[derive(Debug)]
pub struct CharSet {
    chars: Vec<char>,
}

impl View for CharSet {
    type V = Set<char>;

    closed spec fn view(&self) -> Set<char> {
        self.chars@.to_set()
    }
}

impl CharSet {
    #[verifier::type_invariant]
    spec fn members_unique(self) -> bool {
        self.chars@.no_duplicates()
    }

    /// The empty set.
    pub fn new() -> (r: Self)
        ensures
            r@ == Set::<char>::empty(),
    {
        let r = CharSet { chars: Vec::new() };
        assert(r@ =~= Set::<char>::empty());
        r
    }

    /// The set of the characters in `s`.
    pub fn from_chars(s: &[char]) -> (r: Self)
        ensures
            r@ == s@.to_set(),
    {
        let mut r = CharSet::new();
        let mut i: usize = 0;
        while i < s.len()
            invariant
                i <= s@.len(),
                r@ == s@.subrange(0, i as int).to_set(),
            decreases s@.len() - i,
        {
            r.insert(s[i]);
            proof {
                assert(s@.subrange(0, i + 1) =~= s@.subrange(0, i as int).push(s@[i as int]));
                s@.subrange(0, i as int).lemma_push_to_set_commute(s@[i as int]);
            }
            i += 1;
        }
        assert(s@.subrange(0, s@.len() as int) =~= s@);
        r
    }

    /// The members, each once.
    pub fn as_slice(&self) -> (r: &[char])
        ensures
            r@.to_set() == self@,
            r@.no_duplicates(),
    {
        proof {
            use_type_invariant(self);
        }
        self.chars.as_slice()
    }

    /// Whether `c` is a member.
    pub fn contains(&self, c: &char) -> (r: bool)
        ensures
            r == self@.contains(*c),
    {
        let mut i: usize = 0;
        while i < self.chars.len()
            invariant
                i <= self.chars@.len(),
                forall|j: int| 0 <= j < i ==> self.chars@[j] != *c,
            decreases self.chars@.len() - i,
        {
            if self.chars[i] == *c {
                return true;
            }
            i += 1;
        }
        false
    }

    /// Whether the set has no member.
    pub fn is_empty(&self) -> (r: bool)
        ensures
            r == (self@ == Set::<char>::empty()),
    {
        if self.chars.len() == 0 {
            assert(self@ =~= Set::<char>::empty());
            true
        } else {
            assert(self@.contains(self.chars@[0]));
            false
        }
    }

    /// Adds `c`; the result says whether it was absent before.
    pub fn insert(&mut self, c: char) -> (r: bool)
        ensures
            final(self)@ == old(self)@.insert(c),
            r == !old(self)@.contains(c),
    {
        proof {
            use_type_invariant(&*self);
        }
        if self.contains(&c) {
            assert(old(self)@.insert(c) =~= old(self)@);
            false
        } else {
            let mut chars = Vec::new();
            std::mem::swap(&mut chars, &mut self.chars);
            proof {
                chars@.lemma_push_to_set_commute(c);
            }
            chars.push(c);
            self.chars = chars;
            true
        }
    }

    /// Removes `c`; the result says whether it was a member.
    pub fn remove(&mut self, c: &char) -> (r: bool)
        ensures
            final(self)@ == old(self)@.remove(*c),
            r == old(self)@.contains(*c),
    {
        proof {
            use_type_invariant(&*self);
        }
        let mut i: usize = 0;
        while i < self.chars.len()
            invariant
                i <= self.chars@.len(),
                self.chars@.no_duplicates(),
                self@ == old(self)@,
                forall|j: int| 0 <= j < i ==> self.chars@[j] != *c,
            decreases self.chars@.len() - i,
        {
            if self.chars[i] == *c {
                let mut chars = Vec::new();
                std::mem::swap(&mut chars, &mut self.chars);
                let ghost before = chars@;
                chars.remove(i);
                proof {
                    assert forall|x: char| chars@.to_set().contains(x) <==> before.to_set().remove(
                        *c,
                    ).contains(x) by {
                        if chars@.contains(x) {
                            let k = choose|k: int| 0 <= k < chars@.len() && chars@[k] == x;
                            if k < i {
                                assert(before[k] == x);
                            } else {
                                assert(before[k + 1] == x);
                            }
                        }
                        if before.contains(x) && x != *c {
                            let k = choose|k: int| 0 <= k < before.len() && before[k] == x;
                            if k < i {
                                assert(chars@[k] == x);
                            } else {
                                assert(chars@[k - 1] == x);
                            }
                        }
                    }
                    assert(chars@.to_set() =~= before.to_set().remove(*c));
                    assert(chars@.no_duplicates());
                }
                self.chars = chars;
                return true;
            }
            i += 1;
        }
        assert(old(self)@.remove(*c) =~= old(self)@);
        false
    }

    /// Removes every member.
    pub fn clear(&mut self)
        ensures
            final(self)@ == Set::<char>::empty(),
    {
        self.chars = Vec::new();
        assert(self@ =~= Set::<char>::empty());
    }
}

} // verus!
