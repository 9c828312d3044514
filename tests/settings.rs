use std::collections::HashSet;

use passgen::generator::{PASSWORD_MAX_ATTEMPTS, PASSWORD_MAX_LENGTH, PASSWORD_MIN_LENGTH};
use passgen::mark::CANDIDATE_MARK;
use passgen::{Attempt, CharClass, CharSet, GeneratorError, MarkSet, Password, PasswordGenerator, SettingChange};

#[test]
fn boundary_lengths() {
    let mut g = PasswordGenerator::default();
    g.len = 0;
    assert_eq!(g.can_generate(), Err(GeneratorError::EmptyLength));
    g.len = 7;
    assert_eq!(g.can_generate(), Err(GeneratorError::TooShortLength(7)));
    g.len = PASSWORD_MIN_LENGTH;
    assert_eq!(g.can_generate(), Ok(()));
    g.len = 129;
    assert_eq!(g.can_generate(), Err(GeneratorError::TooLongLength(129)));
    g.len = PASSWORD_MAX_LENGTH;
    assert_eq!(g.can_generate(), Ok(()));
    let p = g.generate_password().unwrap();
    assert_eq!(p.len(), 128);
    assert!(g.validate(&p));
}

#[test]
fn no_alphabet_is_empty_symbol() {
    let g = PasswordGenerator::new(8, false, false, false, MarkSet::new(), CharSet::new());
    assert!(g.get_chars().is_empty());
    assert_eq!(g.can_generate(), Err(GeneratorError::EmptySymbol));
    assert_eq!(g.generate_password().err(), Some(GeneratorError::EmptySymbol));
}

#[test]
fn length_is_checked_before_alphabet() {
    let g = PasswordGenerator::new(0, false, false, false, MarkSet::new(), CharSet::new());
    assert_eq!(g.can_generate(), Err(GeneratorError::EmptyLength));
}

#[test]
fn error_messages_are_distinct() {
    let errors = [
        GeneratorError::EmptyLength,
        GeneratorError::TooShortLength(3),
        GeneratorError::TooLongLength(300),
        GeneratorError::EmptySymbol,
        GeneratorError::Unsatisfied,
    ];
    let messages: HashSet<String> = errors.iter().map(|e| e.to_string()).collect();
    assert_eq!(messages.len(), 5);
    assert_eq!(
        GeneratorError::TooShortLength(0).to_string(),
        "password should be longer than 8, but given is 0"
    );
    assert_eq!(
        GeneratorError::TooLongLength(18446744073709551615).to_string(),
        "password max length is 128, for convenience such as GUI, but given is 18446744073709551615"
    );
    assert_eq!(
        GeneratorError::Unsatisfied.to_string(),
        "no drawn password contained every required kind of character"
    );
}

#[test]
fn default_alphabet_has_every_class_once() {
    let g = PasswordGenerator::default();
    let chars = g.get_chars();
    assert_eq!(chars.len(), 26 + 26 + 10 + 5);
    let set: HashSet<char> = chars.iter().copied().collect();
    assert_eq!(set.len(), chars.len());
    for c in "azAZ09^!@#&".chars() {
        assert!(set.contains(&c));
    }
    assert!(!set.contains(&'?'));
}

#[test]
fn overlapping_additions_do_not_repeat() {
    let mut g = PasswordGenerator::default();
    g.addition = CharSet::from_chars(&['a', '^', '~', '~']);
    let chars = g.get_chars();
    assert_eq!(chars.len(), 26 + 26 + 10 + 5 + 1);
    assert!(chars.contains(&'~'));
}

#[test]
fn only_addition_a_gives_all_a() {
    let mut g = PasswordGenerator::new(20, false, false, false, MarkSet::new(), CharSet::new());
    g.addition.insert('a');
    let p = g.generate_password().unwrap();
    assert_eq!(p.to_string(), "a".repeat(20));
}

#[test]
fn added_digits_satisfy_presence_without_numeric_class() {
    let mut g = PasswordGenerator::default();
    g.use_numeric = false;
    g.addition = CharSet::from_chars(&['0', '1', '2', '3', '4', '5', '6', '7', '8', '9']);
    for _ in 0..20 {
        let p = g.generate_password().unwrap();
        assert!(p.iter().any(|c| c.is_ascii_digit()));
        assert!(p.iter().any(|c| c.is_ascii_lowercase()));
        assert!(p.iter().any(|c| c.is_ascii_uppercase()));
        assert!(p.iter().any(|c| "^!@#&".contains(*c)));
    }
}

#[test]
fn validate_rejects_missing_class() {
    let g = PasswordGenerator::default();
    let p = Password::generate(&['a'], 20).unwrap();
    assert!(!g.validate(&p));
    let only_a = PasswordGenerator::new(20, true, false, false, MarkSet::new(), CharSet::new());
    assert!(only_a.validate(&p));
}

#[test]
fn every_generated_password_is_valid() {
    let g = PasswordGenerator::default();
    let alphabet: HashSet<char> = g.get_chars().into_iter().collect();
    for _ in 0..50 {
        let p = g.generate_password().unwrap();
        assert_eq!(p.len(), 20);
        assert!(g.validate(&p));
        assert!(p.iter().all(|c| alphabet.contains(c)));
    }
}

#[test]
fn display_class_prefers_additions() {
    let mut g = PasswordGenerator::default();
    g.addition = CharSet::from_chars(&['a']);
    assert_eq!(g.class_of('a'), CharClass::Addition);
    assert_eq!(g.class_of('b'), CharClass::Lower);
    assert_eq!(g.class_of('B'), CharClass::Upper);
    assert_eq!(g.class_of('5'), CharClass::Numeric);
    assert_eq!(g.class_of('^'), CharClass::Mark);
    assert_eq!(g.class_of('~'), CharClass::Addition);
    g.use_lower = false;
    assert_eq!(g.class_of('b'), CharClass::Addition);
}

#[test]
fn apply_changes_settings() {
    let mut g = PasswordGenerator::default();
    g.apply(SettingChange::EditLength(42));
    assert_eq!(g.len, 42);
    g.apply(SettingChange::ToggleLower);
    assert!(!g.use_lower);
    g.apply(SettingChange::ToggleLower);
    assert!(g.use_lower);
    g.apply(SettingChange::ToggleUpper);
    assert!(!g.use_upper);
    g.apply(SettingChange::ToggleNumeric);
    assert!(!g.use_numeric);
    g.apply(SettingChange::ToggleMark('^'));
    assert!(!g.mark.contains(&'^'));
    g.apply(SettingChange::ToggleMark('x'));
    assert!(!g.mark.contains(&'x'));
    g.apply(SettingChange::DropMark('?', true));
    assert!(g.mark.contains(&'?'));
    g.apply(SettingChange::DropMark('?', false));
    assert!(!g.mark.contains(&'?'));
    g.apply(SettingChange::ToggleAllMark(true));
    assert_eq!(g.mark.iter().len(), CANDIDATE_MARK.chars().count());
    g.apply(SettingChange::ToggleAllMark(false));
    assert!(g.mark.is_empty());
    g.apply(SettingChange::InputAddition(vec!['x', 'y', 'x']));
    assert_eq!(g.addition.as_slice(), &['x', 'y']);
    assert_eq!(g.len, 42);
}

#[test]
fn char_set_operations() {
    let mut s = CharSet::new();
    assert!(s.is_empty());
    assert!(s.insert('z'));
    assert!(!s.insert('z'));
    assert!(s.insert('y'));
    assert_eq!(s.as_slice(), &['z', 'y']);
    assert!(s.contains(&'y'));
    assert!(s.remove(&'z'));
    assert!(!s.remove(&'z'));
    assert_eq!(s.as_slice(), &['y']);
    s.clear();
    assert!(s.is_empty());
    let t = CharSet::from_chars(&['b', 'a', 'b']);
    assert_eq!(t.as_slice(), &['b', 'a']);
}

#[test]
fn decide_attempt_accepts_retries_and_gives_up() {
    let g = PasswordGenerator::default();
    let miss = Password::generate(&['a'], 20).unwrap();
    assert_eq!(g.decide_attempt(&miss, 0), Attempt::Retry);
    assert_eq!(g.decide_attempt(&miss, PASSWORD_MAX_ATTEMPTS - 2), Attempt::Retry);
    assert_eq!(g.decide_attempt(&miss, PASSWORD_MAX_ATTEMPTS - 1), Attempt::GiveUp);
    let hit = Password::from_indices(&['a', 'B', '3', '^'], &[0, 1, 2, 3, 0, 0, 0, 0]).unwrap();
    assert_eq!(g.decide_attempt(&hit, 0), Attempt::Accept);
    assert_eq!(g.decide_attempt(&hit, PASSWORD_MAX_ATTEMPTS - 1), Attempt::Accept);
}
