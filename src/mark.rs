//! The set of punctuation marks that a password may draw from.

use vstd::prelude::*;

use crate::char_set::CharSet;
use crate::symbol::str_contains;
use vstd::string::StrSliceExecFns;

verus! {

/// Marks that are on unless the user turns them off.
pub const DEFAULT_MARK: &'static str = "^!@#&";

/// Every mark that can be selected.
pub const CANDIDATE_MARK: &'static str = ".,_-+=/\\^!?@#&\"'$%:;><()[]{}";

/// `c` is one of the selectable marks.
pub open spec fn is_candidate_mark(c: char) -> bool {
    CANDIDATE_MARK@.contains(c)
}

/// The set of all selectable marks.
pub open spec fn candidate_marks() -> Set<char> {
    CANDIDATE_MARK@.to_set()
}

/// `marks` after a request to select `c`: only a selectable mark is added.
pub open spec fn with_mark(marks: Set<char>, c: char) -> Set<char> {
    if is_candidate_mark(c) {
        marks.insert(c)
    } else {
        marks
    }
}

/// `marks` after a request to flip `c`: a selected mark is removed, and an
/// unselected one is added if it is selectable.
pub open spec fn toggled(marks: Set<char>, c: char) -> Set<char> {
    if marks.contains(c) {
        marks.remove(c)
    } else {
        with_mark(marks, c)
    }
}

/// The default marks are selectable marks.
pub proof fn lemma_default_marks_are_candidates()
    ensures
        forall|c: char| DEFAULT_MARK@.contains(c) ==> is_candidate_mark(c),
{
    reveal_strlit("^!@#&");
    reveal_strlit(".,_-+=/\\^!?@#&\"'$%:;><()[]{}");
    assert(CANDIDATE_MARK@[8] == '^');
    assert(CANDIDATE_MARK@[9] == '!');
    assert(CANDIDATE_MARK@[11] == '@');
    assert(CANDIDATE_MARK@[12] == '#');
    assert(CANDIDATE_MARK@[13] == '&');
}

/// A selection of marks: always a subset of the selectable marks.
#[derive(Debug)]
pub struct MarkSet {
    mark: CharSet,
}

impl View for MarkSet {
    type V = Set<char>;

    closed spec fn view(&self) -> Set<char> {
        self.mark@
    }
}

impl Default for MarkSet {
    /// The default marks.
    fn default() -> (r: Self)
        ensures
            r@ == DEFAULT_MARK@.to_set(),
    {
        let mut r = MarkSet::new();
        let n = DEFAULT_MARK.unicode_len();
        let mut i: usize = 0;
        proof {
            lemma_default_marks_are_candidates();
        }
        while i < n
            invariant
                n == DEFAULT_MARK@.len(),
                i <= n,
                r@ == DEFAULT_MARK@.subrange(0, i as int).to_set(),
                forall|c: char| DEFAULT_MARK@.contains(c) ==> is_candidate_mark(c),
            decreases n - i,
        {
            let c = DEFAULT_MARK.get_char(i);
            assert(DEFAULT_MARK@.contains(c));
            r.insert(c);
            proof {
                assert(DEFAULT_MARK@.subrange(0, i + 1) =~= DEFAULT_MARK@.subrange(
                    0,
                    i as int,
                ).push(c));
                DEFAULT_MARK@.subrange(0, i as int).lemma_push_to_set_commute(c);
            }
            i += 1;
        }
        assert(DEFAULT_MARK@.subrange(0, n as int) =~= DEFAULT_MARK@);
        r
    }
}

impl MarkSet {
    #[verifier::type_invariant]
    spec fn only_candidates(self) -> bool {
        forall|c: char| self.mark@.contains(c) ==> is_candidate_mark(c)
    }

    /// The empty selection.
    pub fn new() -> (r: Self)
        ensures
            r@ == Set::<char>::empty(),
    {
        MarkSet { mark: CharSet::new() }
    }

    /// Whether `mark` is selected.
    pub fn contains(&self, mark: &char) -> (r: bool)
        ensures
            r == self@.contains(*mark),
    {
        self.mark.contains(mark)
    }

    /// Whether no mark is selected.
    pub fn is_empty(&self) -> (r: bool)
        ensures
            r == (self@ == Set::<char>::empty()),
    {
        self.mark.is_empty()
    }

    /// Every selectable mark, in its fixed order, with whether it is selected.
    pub fn get_marks(&self) -> (r: Vec<(char, bool)>)
        ensures
            r@.len() == CANDIDATE_MARK@.len(),
            forall|i: int|
                0 <= i < r@.len() ==> r@[i] == (CANDIDATE_MARK@[i], self@.contains(
                    CANDIDATE_MARK@[i],
                )),
    {
        let n = CANDIDATE_MARK.unicode_len();
        let mut r: Vec<(char, bool)> = Vec::new();
        let mut i: usize = 0;
        while i < n
            invariant
                n == CANDIDATE_MARK@.len(),
                i <= n,
                r@.len() == i,
                forall|k: int|
                    0 <= k < i ==> r@[k] == (CANDIDATE_MARK@[k], self@.contains(
                        CANDIDATE_MARK@[k],
                    )),
            decreases n - i,
        {
            let c = CANDIDATE_MARK.get_char(i);
            let selected = self.contains(&c);
            r.push((c, selected));
            i += 1;
        }
        r
    }

    /// The selected marks, each once.
    pub fn iter(&self) -> (r: &[char])
        ensures
            r@.to_set() == self@,
            r@.no_duplicates(),
    {
        self.mark.as_slice()
    }

    /// Selects `mark` if it is unselected, and unselects it if it is selected.
    /// The result says whether the selection changed: it does not for a
    /// character that is not a selectable mark.
    pub fn toggle(&mut self, mark: char) -> (r: bool)
        ensures
            final(self)@ == toggled(old(self)@, mark),
            r == (old(self)@.contains(mark) || is_candidate_mark(mark)),
    {
        if self.contains(&mark) {
            self.remove(&mark)
        } else {
            self.insert(mark)
        }
    }

    /// Selects `mark` if it is a selectable mark. The result says whether it
    /// was added.
    pub fn insert(&mut self, mark: char) -> (r: bool)
        ensures
            final(self)@ == with_mark(old(self)@, mark),
            r == (is_candidate_mark(mark) && !old(self)@.contains(mark)),
    {
        proof {
            use_type_invariant(&*self);
        }
        if str_contains(CANDIDATE_MARK, mark) {
            let mut set = CharSet::new();
            std::mem::swap(&mut set, &mut self.mark);
            let r = set.insert(mark);
            self.mark = set;
            r
        } else {
            false
        }
    }

    /// Selects every selectable mark.
    pub fn insert_all(&mut self)
        ensures
            final(self)@ == candidate_marks(),
    {
        proof {
            use_type_invariant(&*self);
        }
        let ghost before = self@;
        let n = CANDIDATE_MARK.unicode_len();
        let mut i: usize = 0;
        while i < n
            invariant
                n == CANDIDATE_MARK@.len(),
                i <= n,
                self@ == before + CANDIDATE_MARK@.subrange(0, i as int).to_set(),
                forall|c: char| #[trigger] before.contains(c) ==> is_candidate_mark(c),
            decreases n - i,
        {
            let c = CANDIDATE_MARK.get_char(i);
            assert(CANDIDATE_MARK@.contains(c));
            self.insert(c);
            proof {
                assert(CANDIDATE_MARK@.subrange(0, i + 1) =~= CANDIDATE_MARK@.subrange(
                    0,
                    i as int,
                ).push(c));
                CANDIDATE_MARK@.subrange(0, i as int).lemma_push_to_set_commute(c);
                assert(self@ =~= before + CANDIDATE_MARK@.subrange(0, i + 1).to_set());
            }
            i += 1;
        }
        assert(CANDIDATE_MARK@.subrange(0, n as int) =~= CANDIDATE_MARK@);
        assert forall|c: char| self@.contains(c) <==> candidate_marks().contains(c) by {
            if before.contains(c) {
                assert(CANDIDATE_MARK@.contains(c));
            }
        }
        assert(self@ =~= candidate_marks());
    }

    /// Unselects `mark`. The result says whether it was selected.
    pub fn remove(&mut self, mark: &char) -> (r: bool)
        ensures
            final(self)@ == old(self)@.remove(*mark),
            r == old(self)@.contains(*mark),
    {
        proof {
            use_type_invariant(&*self);
        }
        let mut set = CharSet::new();
        std::mem::swap(&mut set, &mut self.mark);
        let r = set.remove(mark);
        self.mark = set;
        r
    }

    /// Unselects every mark.
    pub fn clear(&mut self)
        ensures
            final(self)@ == Set::<char>::empty(),
    {
        self.mark = CharSet::new();
    }
}

} // verus!
