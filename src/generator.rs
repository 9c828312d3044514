//! Password generation settings, their validation, and drawing a password
//! that meets them.

use vstd::prelude::*;

use crate::char_set::CharSet;
use crate::mark::{candidate_marks, toggled, with_mark, MarkSet, DEFAULT_MARK};
use crate::password::Password;
use crate::symbol::{chars_of, is_lower, is_numeric, is_upper, slice_contains, LOWER, NUMERIC, UPPER};
use crate::text::{decimal, push_decimal, push_str, string_from_chars};

verus! {

/// Shortest password that can be generated.
pub const PASSWORD_MIN_LENGTH: usize = 8;

/// Length of a password under the default settings.
pub const PASSWORD_DEFAULT_LENGTH: usize = 20;

/// Longest password that can be generated.
pub const PASSWORD_MAX_LENGTH: usize = 128;

/// How many drawn passwords `generate_password` discards before it gives up.
pub const PASSWORD_MAX_ATTEMPTS: usize = 100000;

/// Why the settings cannot give a password.
#[derive(Debug, PartialEq, Eq, Structural)]
pub enum GeneratorError {
    /// The length is zero.
    EmptyLength,
    /// The length is below the minimum.
    TooShortLength(usize),
    /// The length is above the maximum.
    TooLongLength(usize),
    /// No character can be drawn.
    EmptySymbol,
    /// None of `PASSWORD_MAX_ATTEMPTS` drawn passwords showed every kind
    /// of character in use.
    Unsatisfied,
}

impl GeneratorError {
    /// The message that describes the error.
    pub open spec fn message(self) -> Seq<char> {
        match self {
            GeneratorError::EmptyLength => "password should not be empty"@,
            GeneratorError::TooShortLength(n) => "password should be longer than "@ + decimal(
                PASSWORD_MIN_LENGTH as nat,
            ) + ", but given is "@ + decimal(n as nat),
            GeneratorError::TooLongLength(n) => "password max length is "@ + decimal(
                PASSWORD_MAX_LENGTH as nat,
            ) + ", for convenience such as GUI, but given is "@ + decimal(n as nat),
            GeneratorError::EmptySymbol => "because no available symbol, cannot generate a password"@,
            GeneratorError::Unsatisfied => "no drawn password contained every required kind of character"@,
        }
    }

    /// The message that describes the error.
    pub fn to_string(&self) -> (r: String)
        ensures
            r@ == self.message(),
    {
        let mut out: Vec<char> = Vec::new();
        match self {
            GeneratorError::EmptyLength => {
                push_str(&mut out, "password should not be empty");
            },
            GeneratorError::TooShortLength(n) => {
                push_str(&mut out, "password should be longer than ");
                push_decimal(&mut out, PASSWORD_MIN_LENGTH);
                push_str(&mut out, ", but given is ");
                push_decimal(&mut out, *n);
            },
            GeneratorError::TooLongLength(n) => {
                push_str(&mut out, "password max length is ");
                push_decimal(&mut out, PASSWORD_MAX_LENGTH);
                push_str(&mut out, ", for convenience such as GUI, but given is ");
                push_decimal(&mut out, *n);
            },
            GeneratorError::EmptySymbol => {
                push_str(&mut out, "because no available symbol, cannot generate a password");
            },
            GeneratorError::Unsatisfied => {
                push_str(&mut out, "no drawn password contained every required kind of character");
            },
        }
        assert(out@ =~= self.message());
        string_from_chars(out.as_slice())
    }
}

/// The kinds of character whose presence a password can be required to show.
#[derive(Debug, Clone, Copy, PartialEq, Eq, Structural)]
pub enum CharClass {
    Lower,
    Upper,
    Numeric,
    Mark,
    Addition,
}

/// What to do with a drawn password.
#[derive(Debug, Clone, Copy, PartialEq, Eq, Structural)]
pub enum Attempt {
    /// It shows every kind in use: return it.
    Accept,
    /// It misses a kind: draw again.
    Retry,
    /// It misses a kind and no attempt is left.
    GiveUp,
}

/// Settings for generating passwords. Any combination of values is allowed;
/// whether it can give a password is decided when one is asked for.
#[derive(Debug)]
pub struct PasswordGenerator {
    pub len: usize,
    pub use_lower: bool,
    pub use_upper: bool,
    pub use_numeric: bool,
    pub mark: MarkSet,
    pub addition: CharSet,
}

impl Default for PasswordGenerator {
    /// The default settings: every kind of character in use, the default
    /// marks selected, no additions.
    fn default() -> (r: Self)
        ensures
            r.len == PASSWORD_DEFAULT_LENGTH,
            r.use_lower,
            r.use_upper,
            r.use_numeric,
            r.mark@ == DEFAULT_MARK@.to_set(),
            r.addition@ == Set::<char>::empty(),
    {
        PasswordGenerator {
            len: PASSWORD_DEFAULT_LENGTH,
            use_lower: true,
            use_upper: true,
            use_numeric: true,
            mark: MarkSet::default(),
            addition: CharSet::new(),
        }
    }
}

/// One user action on the settings.
#[derive(Debug)]
pub enum SettingChange {
    /// Sets the length.
    EditLength(usize),
    /// Flips whether lower case letters are in use.
    ToggleLower,
    /// Flips whether upper case letters are in use.
    ToggleUpper,
    /// Flips whether digits are in use.
    ToggleNumeric,
    /// Flips whether a mark is selected.
    ToggleMark(char),
    /// Selects (`true`) or unselects (`false`) a mark.
    DropMark(char, bool),
    /// Selects every mark (`true`) or none (`false`).
    ToggleAllMark(bool),
    /// Replaces the additions with the given characters.
    InputAddition(Vec<char>),
}

/// Adds the members of `src` that `out` lacks, keeping `out` free of repeats.
fn extend_unique(out: &mut Vec<char>, src: &[char])
    requires
        old(out)@.no_duplicates(),
    ensures
        final(out)@.no_duplicates(),
        final(out)@.to_set() == old(out)@.to_set() + src@.to_set(),
{
    let mut i: usize = 0;
    while i < src.len()
        invariant
            i <= src@.len(),
            out@.no_duplicates(),
            out@.to_set() == old(out)@.to_set() + src@.subrange(0, i as int).to_set(),
        decreases src@.len() - i,
    {
        let c = src[i];
        let ghost before = out@;
        if !slice_contains(out.as_slice(), c) {
            out.push(c);
            proof {
                before.lemma_push_to_set_commute(c);
            }
        } else {
            assert(before.to_set().contains(c));
        }
        proof {
            assert(src@.subrange(0, i + 1) =~= src@.subrange(0, i as int).push(c));
            src@.subrange(0, i as int).lemma_push_to_set_commute(c);
            assert(out@.to_set() =~= old(out)@.to_set() + src@.subrange(0, i + 1).to_set());
        }
        i += 1;
    }
    assert(src@.subrange(0, src@.len() as int) =~= src@);
}

impl PasswordGenerator {
    /// `c` is of kind `class` under these settings, whether or not the kind
    /// is in use.
    pub open spec fn in_class(&self, class: CharClass, c: char) -> bool {
        match class {
            CharClass::Lower => is_lower(c),
            CharClass::Upper => is_upper(c),
            CharClass::Numeric => is_numeric(c),
            CharClass::Mark => self.mark@.contains(c),
            CharClass::Addition => self.addition@.contains(c),
        }
    }

    /// The kind `class` is in use, so a password must show one of its
    /// characters.
    pub open spec fn uses_class(&self, class: CharClass) -> bool {
        match class {
            CharClass::Lower => self.use_lower,
            CharClass::Upper => self.use_upper,
            CharClass::Numeric => self.use_numeric,
            CharClass::Mark => self.mark@ != Set::<char>::empty(),
            CharClass::Addition => self.addition@ != Set::<char>::empty(),
        }
    }

    /// The characters a password is drawn from: those of every kind in use.
    pub open spec fn alphabet(&self) -> Set<char> {
        Set::new(
            |c: char|
                (self.use_lower && is_lower(c)) || (self.use_upper && is_upper(c)) || (
                self.use_numeric && is_numeric(c)) || self.mark@.contains(c)
                    || self.addition@.contains(c),
        )
    }

    /// Some character of `s` is of kind `class`.
    pub open spec fn shows_class(&self, s: Seq<char>, class: CharClass) -> bool {
        exists|i: int| 0 <= i < s.len() && self.in_class(class, #[trigger] s[i])
    }

    /// `s` shows a character of every kind in use.
    pub open spec fn satisfied_by(&self, s: Seq<char>) -> bool {
        forall|class: CharClass| #[trigger] self.uses_class(class) ==> self.shows_class(s, class)
    }

    /// What is wrong with these settings, if anything, in the order in which
    /// it is checked.
    pub open spec fn setting_error(&self) -> Option<GeneratorError> {
        if self.len == 0 {
            Some(GeneratorError::EmptyLength)
        } else if self.len < PASSWORD_MIN_LENGTH {
            Some(GeneratorError::TooShortLength(self.len))
        } else if self.len > PASSWORD_MAX_LENGTH {
            Some(GeneratorError::TooLongLength(self.len))
        } else if self.alphabet() == Set::<char>::empty() {
            Some(GeneratorError::EmptySymbol)
        } else {
            None
        }
    }

    /// Settings with the given values.
    pub fn new(
        len: usize,
        use_lower: bool,
        use_upper: bool,
        use_numeric: bool,
        mark: MarkSet,
        addition: CharSet,
    ) -> (r: Self)
        ensures
            r.len == len,
            r.use_lower == use_lower,
            r.use_upper == use_upper,
            r.use_numeric == use_numeric,
            r.mark@ == mark@,
            r.addition@ == addition@,
    {
        PasswordGenerator { len, use_lower, use_upper, use_numeric, mark, addition }
    }

    /// The characters a password is drawn from, each once.
    pub fn get_chars(&self) -> (r: Vec<char>)
        ensures
            r@.to_set() == self.alphabet(),
            r@.no_duplicates(),
    {
        let mut chars: Vec<char> = Vec::new();
        let ghost empty = chars@;
        assert(chars@.to_set() =~= Set::<char>::empty());
        if self.use_lower {
            let lower = chars_of(LOWER);
            extend_unique(&mut chars, lower.as_slice());
        }
        let ghost after_lower = chars@.to_set();
        if self.use_upper {
            let upper = chars_of(UPPER);
            extend_unique(&mut chars, upper.as_slice());
        }
        let ghost after_upper = chars@.to_set();
        if self.use_numeric {
            let numeric = chars_of(NUMERIC);
            extend_unique(&mut chars, numeric.as_slice());
        }
        let ghost after_numeric = chars@.to_set();
        if !self.mark.is_empty() {
            extend_unique(&mut chars, self.mark.iter());
        }
        let ghost after_mark = chars@.to_set();
        if !self.addition.is_empty() {
            extend_unique(&mut chars, self.addition.as_slice());
        }
        assert forall|c: char| chars@.to_set().contains(c) <==> self.alphabet().contains(c) by {
            if self.mark@.contains(c) {
                assert(self.mark@ != Set::<char>::empty());
            }
            if self.addition@.contains(c) {
                assert(self.addition@ != Set::<char>::empty());
            }
        }
        assert(chars@.to_set() =~= self.alphabet());
        chars
    }

    /// Whether `password` shows a character of every kind in use.
    pub fn validate(&self, password: &Password) -> (r: bool)
        ensures
            r == self.satisfied_by(password@),
    {
        let s = password.chars();
        let lower = chars_of(LOWER);
        let upper = chars_of(UPPER);
        let numeric = chars_of(NUMERIC);
        let mut used_lower = false;
        let mut used_upper = false;
        let mut used_numeric = false;
        let mut used_mark = false;
        let mut used_addition = false;
        let mut i: usize = 0;
        while i < s.len()
            invariant
                i <= s@.len(),
                lower@ == LOWER@,
                upper@ == UPPER@,
                numeric@ == NUMERIC@,
                used_lower <==> exists|j: int| 0 <= j < i && is_lower(#[trigger] s@[j]),
                used_upper <==> exists|j: int| 0 <= j < i && is_upper(#[trigger] s@[j]),
                used_numeric <==> exists|j: int| 0 <= j < i && is_numeric(#[trigger] s@[j]),
                used_mark <==> exists|j: int| 0 <= j < i && self.mark@.contains(#[trigger] s@[j]),
                used_addition <==> exists|j: int|
                    0 <= j < i && self.addition@.contains(#[trigger] s@[j]),
            decreases s@.len() - i,
        {
            let c = s[i];
            used_lower = used_lower || slice_contains(lower.as_slice(), c);
            used_upper = used_upper || slice_contains(upper.as_slice(), c);
            used_numeric = used_numeric || slice_contains(numeric.as_slice(), c);
            used_mark = used_mark || self.mark.contains(&c);
            used_addition = used_addition || self.addition.contains(&c);
            i += 1;
        }
        let r = (!self.use_lower || used_lower) && (!self.use_upper || used_upper) && (
        !self.use_numeric || used_numeric) && (self.mark.is_empty() || used_mark) && (
        self.addition.is_empty() || used_addition);
        proof {
            let t = password@;
            assert(s@ == t);
            if r {
                assert forall|class: CharClass| #[trigger]
                    self.uses_class(class) implies self.shows_class(t, class) by {
                    match class {
                        CharClass::Lower => {},
                        CharClass::Upper => {},
                        CharClass::Numeric => {},
                        CharClass::Mark => {},
                        CharClass::Addition => {},
                    }
                }
            } else {
                if self.use_lower && !used_lower {
                    assert(self.uses_class(CharClass::Lower));
                } else if self.use_upper && !used_upper {
                    assert(self.uses_class(CharClass::Upper));
                } else if self.use_numeric && !used_numeric {
                    assert(self.uses_class(CharClass::Numeric));
                } else if self.mark@ != Set::<char>::empty() && !used_mark {
                    assert(self.uses_class(CharClass::Mark));
                } else {
                    assert(self.uses_class(CharClass::Addition));
                }
            }
        }
        r
    }

    /// Checks the settings: `Ok` exactly when they can give a password,
    /// else the first problem found.
    pub fn can_generate(&self) -> (r: Result<(), GeneratorError>)
        ensures
            r == match self.setting_error() {
                Some(e) => Err(e),
                None => Ok(()),
            },
    {
        if self.len == 0 {
            Err(GeneratorError::EmptyLength)
        } else if self.len < PASSWORD_MIN_LENGTH {
            Err(GeneratorError::TooShortLength(self.len))
        } else if self.len > PASSWORD_MAX_LENGTH {
            Err(GeneratorError::TooLongLength(self.len))
        } else {
            let chars = self.get_chars();
            if chars.len() == 0 {
                assert(self.alphabet() =~= Set::<char>::empty());
                Err(GeneratorError::EmptySymbol)
            } else {
                assert(self.alphabet().contains(chars@[0]));
                Ok(())
            }
        }
    }

    /// `s` could come out of one draw: it has the set length and every
    /// character is in the alphabet.
    pub open spec fn drawable(&self, s: Seq<char>) -> bool {
        &&& s.len() == self.len
        &&& forall|i: int| 0 <= i < s.len() ==> self.alphabet().contains(#[trigger] s[i])
    }

    /// Every possible draw shows a character of every kind in use, so the
    /// first draw is accepted whatever it is.
    pub open spec fn every_draw_satisfies(&self) -> bool {
        forall|s: Seq<char>| #[trigger] self.drawable(s) ==> self.satisfied_by(s)
    }

    /// What to do with the password drawn at attempt number `attempt`
    /// (counted from 0): accept it exactly when it shows every kind in use;
    /// otherwise give up exactly when this was the last allowed attempt,
    /// and draw again before that.
    pub fn decide_attempt(&self, drawn: &Password, attempt: usize) -> (r: Attempt)
        ensures
            r == Attempt::Accept <==> self.satisfied_by(drawn@),
            r == Attempt::GiveUp <==> !self.satisfied_by(drawn@) && attempt + 1
                >= PASSWORD_MAX_ATTEMPTS,
            r == Attempt::Retry <==> !self.satisfied_by(drawn@) && attempt + 1
                < PASSWORD_MAX_ATTEMPTS,
    {
        if self.validate(drawn) {
            Attempt::Accept
        } else if attempt >= PASSWORD_MAX_ATTEMPTS - 1 {
            Attempt::GiveUp
        } else {
            Attempt::Retry
        }
    }

    /// Draws passwords from the alphabet until one shows a character of
    /// every kind in use, and returns it. Fails with the settings' problem
    /// if they have one, and with `Unsatisfied` if `PASSWORD_MAX_ATTEMPTS`
    /// draws all missed some kind; that cannot happen when every possible
    /// draw shows every kind in use.
    pub fn generate_password(&self) -> (r: Result<Password, GeneratorError>)
        ensures
            self.setting_error() is Some ==> r == Err::<Password, GeneratorError>(
                self.setting_error().unwrap(),
            ),
            self.setting_error() is None ==> r is Ok || r == Err::<Password, GeneratorError>(
                GeneratorError::Unsatisfied,
            ),
            self.setting_error() is None && self.every_draw_satisfies() ==> r is Ok,
            r matches Ok(p) ==> self.drawable(p@) && self.satisfied_by(p@),
    {
        match self.can_generate() {
            Err(e) => {
                return Err(e);
            },
            Ok(()) => {},
        }
        let chars = self.get_chars();
        assert(self.alphabet() != Set::<char>::empty());
        assert(chars@.len() > 0) by {
            if chars@.len() == 0 {
                assert(chars@.to_set() =~= Set::<char>::empty());
            }
        }
        let mut attempt: usize = 0;
        loop
            invariant
                chars@.to_set() == self.alphabet(),
                chars@.len() > 0,
                self.len <= PASSWORD_MAX_LENGTH,
                self.setting_error() is None,
                attempt < PASSWORD_MAX_ATTEMPTS,
                self.every_draw_satisfies() ==> attempt == 0,
            decreases PASSWORD_MAX_ATTEMPTS - attempt,
        {
            let drawn = Password::generate(chars.as_slice(), self.len);
            let p = match drawn {
                Ok(p) => p,
                Err(_) => {
                    return Err(GeneratorError::Unsatisfied);
                },
            };
            assert forall|i: int| 0 <= i < p@.len() implies self.alphabet().contains(
                #[trigger] p@[i],
            ) by {
                assert(chars@.contains(p@[i]));
            }
            assert(self.drawable(p@));
            match self.decide_attempt(&p, attempt) {
                Attempt::Accept => {
                    return Ok(p);
                },
                Attempt::GiveUp => {
                    return Err(GeneratorError::Unsatisfied);
                },
                Attempt::Retry => {
                    attempt += 1;
                },
            }
        }
    }

    /// The kind under which `c` is shown: an addition first, then the first
    /// kind in use that holds it; any other character is shown as an addition.
    pub open spec fn display_class(&self, c: char) -> CharClass {
        if self.addition@.contains(c) {
            CharClass::Addition
        } else if self.use_lower && is_lower(c) {
            CharClass::Lower
        } else if self.use_upper && is_upper(c) {
            CharClass::Upper
        } else if self.use_numeric && is_numeric(c) {
            CharClass::Numeric
        } else if self.mark@.contains(c) {
            CharClass::Mark
        } else {
            CharClass::Addition
        }
    }

    /// The kind under which `c` is shown.
    pub fn class_of(&self, c: char) -> (r: CharClass)
        ensures
            r == self.display_class(c),
    {
        if self.addition.contains(&c) {
            CharClass::Addition
        } else if self.use_lower && crate::symbol::str_contains(LOWER, c) {
            CharClass::Lower
        } else if self.use_upper && crate::symbol::str_contains(UPPER, c) {
            CharClass::Upper
        } else if self.use_numeric && crate::symbol::str_contains(NUMERIC, c) {
            CharClass::Numeric
        } else if self.mark.contains(&c) {
            CharClass::Mark
        } else {
            CharClass::Addition
        }
    }

    /// Applies one user action to the settings.
    pub fn apply(&mut self, change: SettingChange)
        ensures
            final(self).len == (match change {
                SettingChange::EditLength(n) => n,
                _ => old(self).len,
            }),
            final(self).use_lower == (old(self).use_lower != (change is ToggleLower)),
            final(self).use_upper == (old(self).use_upper != (change is ToggleUpper)),
            final(self).use_numeric == (old(self).use_numeric != (change is ToggleNumeric)),
            final(self).mark@ == match change {
                SettingChange::ToggleMark(c) => toggled(old(self).mark@, c),
                SettingChange::DropMark(c, true) => with_mark(old(self).mark@, c),
                SettingChange::DropMark(c, false) => old(self).mark@.remove(c),
                SettingChange::ToggleAllMark(true) => candidate_marks(),
                SettingChange::ToggleAllMark(false) => Set::<char>::empty(),
                _ => old(self).mark@,
            },
            final(self).addition@ == match change {
                SettingChange::InputAddition(chars) => chars@.to_set(),
                _ => old(self).addition@,
            },
    {
        match change {
            SettingChange::EditLength(n) => {
                self.len = n;
            },
            SettingChange::ToggleLower => {
                self.use_lower = !self.use_lower;
            },
            SettingChange::ToggleUpper => {
                self.use_upper = !self.use_upper;
            },
            SettingChange::ToggleNumeric => {
                self.use_numeric = !self.use_numeric;
            },
            SettingChange::ToggleMark(c) => {
                self.mark.toggle(c);
            },
            SettingChange::DropMark(c, enable) => {
                if enable {
                    self.mark.insert(c);
                } else {
                    self.mark.remove(&c);
                }
            },
            SettingChange::ToggleAllMark(available) => {
                if available {
                    self.mark.insert_all();
                } else {
                    self.mark.clear();
                }
            },
            SettingChange::InputAddition(chars) => {
                self.addition = CharSet::from_chars(chars.as_slice());
            },
        }
    }
}

/// Settings without a problem admit at least one password that
/// `generate_password` would accept: of the right length, drawn from the
/// alphabet, and showing every kind in use. So its retries are never bound
/// to fail.
pub proof fn lemma_valid_settings_are_satisfiable(g: &PasswordGenerator)
    requires
        g.setting_error() is None,
    ensures
        exists|s: Seq<char>|
            s.len() == g.len && (forall|i: int|
                0 <= i < s.len() ==> g.alphabet().contains(#[trigger] s[i])) && g.satisfied_by(s),
{
    reveal_strlit("abcdefghijklmnopqrstuvwxyz");
    reveal_strlit("ABCDEFGHIJKLMNOPQRSTUVWXYZ");
    reveal_strlit("0123456789");
    assert(g.alphabet() != Set::<char>::empty());
    let any = choose|c: char| g.alphabet().contains(c);
    assert(g.alphabet().contains(any)) by {
        if !g.alphabet().contains(any) {
            assert(g.alphabet() =~= Set::<char>::empty());
        }
    }
    let lower = if g.use_lower {
        LOWER@[0]
    } else {
        any
    };
    let upper = if g.use_upper {
        UPPER@[0]
    } else {
        any
    };
    let numeric = if g.use_numeric {
        NUMERIC@[0]
    } else {
        any
    };
    let mark = if g.mark@ != Set::<char>::empty() {
        choose|c: char| g.mark@.contains(c)
    } else {
        any
    };
    if g.mark@ != Set::<char>::empty() {
        assert(g.mark@.contains(mark)) by {
            if !g.mark@.contains(mark) {
                assert(g.mark@ =~= Set::<char>::empty());
            }
        }
    }
    let addition = if g.addition@ != Set::<char>::empty() {
        choose|c: char| g.addition@.contains(c)
    } else {
        any
    };
    if g.addition@ != Set::<char>::empty() {
        assert(g.addition@.contains(addition)) by {
            if !g.addition@.contains(addition) {
                assert(g.addition@ =~= Set::<char>::empty());
            }
        }
    }
    let head = seq![lower, upper, numeric, mark, addition];
    let s = Seq::new(
        g.len as nat,
        |i: int|
            if i < 5 {
                head[i]
            } else {
                any
            },
    );
    assert(s[0] == lower && s[1] == upper && s[2] == numeric && s[3] == mark && s[4] == addition);
    assert forall|class: CharClass| #[trigger] g.uses_class(class) implies g.shows_class(
        s,
        class,
    ) by {
        match class {
            CharClass::Lower => {
                assert(g.in_class(class, s[0]));
            },
            CharClass::Upper => {
                assert(g.in_class(class, s[1]));
            },
            CharClass::Numeric => {
                assert(g.in_class(class, s[2]));
            },
            CharClass::Mark => {
                assert(g.in_class(class, s[3]));
            },
            CharClass::Addition => {
                assert(g.in_class(class, s[4]));
            },
        }
    }
    assert(forall|i: int| 0 <= i < s.len() ==> g.alphabet().contains(#[trigger] s[i]));
}

} // verus!
