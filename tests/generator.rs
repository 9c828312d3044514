use std::collections::HashSet;

use passgen::generator::{PasswordGenerator, PASSWORD_DEFAULT_LENGTH};
use passgen::mark::{MarkSet, DEFAULT_MARK};
use passgen::symbol::{LOWER, NUMERIC, UPPER};
use passgen::CharSet;

fn in_str(s: &str, c: char) -> bool {
    s.chars().any(|x| x == c)
}

#[test]
fn generator_test() {
    let password = PasswordGenerator::default().generate_password().unwrap();
    let (mut used_lower, mut used_upper, mut used_numeric, mut used_mark) =
        (false, false, false, false);
    for c in password.iter() {
        used_lower |= in_str(LOWER, *c);
        used_upper |= in_str(UPPER, *c);
        used_numeric |= in_str(NUMERIC, *c);
        used_mark |= in_str(DEFAULT_MARK, *c);
        assert!(
            in_str(LOWER, *c) || in_str(UPPER, *c) || in_str(NUMERIC, *c) || in_str(DEFAULT_MARK, *c)
        )
    }
    assert!(used_lower && used_upper && used_numeric && used_mark);
}

#[test]
fn generator_generate_uniqueness_test() {
    let generator = PasswordGenerator::default();
    let mut set = HashSet::new();
    for _ in 0..500 {
        set.insert(generator.generate_password().unwrap().to_string());
    }
    assert_eq!(set.len(), 500);
}

#[test]
fn generate_error_test() {
    let mut generator = PasswordGenerator::default();
    generator.len = 0;
    assert_eq!(
        generator.generate_password().err().unwrap().to_string(),
        "password should not be empty"
    );
    generator.len = 7;
    assert_eq!(
        generator.generate_password().err().unwrap().to_string(),
        "password should be longer than 8, but given is 7"
    );
    generator.len = 129;
    assert_eq!(
        generator.generate_password().err().unwrap().to_string(),
        "password max length is 128, for convenience such as GUI, but given is 129",
    );
    generator.len = 8;
    generator.use_lower = false;
    generator.use_upper = false;
    generator.use_numeric = false;
    generator.mark.clear();
    assert_eq!(
        generator.generate_password().err().unwrap().to_string(),
        "because no available symbol, cannot generate a password"
    );
}

#[test]
fn generator_setting_no_numeric_but_added_numeric_test() {
    let mut generator = PasswordGenerator::default();
    generator.use_numeric = false;
    let digits: Vec<char> = (0..=9).map(|i| std::char::from_digit(i, 10).unwrap()).collect();
    generator.addition = CharSet::from_chars(&digits);
    let generated_password = generator.generate_password().unwrap();
    assert!(generator.validate(&generated_password));
    assert!(generated_password.iter().any(|c| c.is_ascii_digit()));
}

#[test]
fn generator_setting_no_mark_but_added_mark_test() {
    let mut generator = PasswordGenerator::default();
    generator.mark.clear();
    generator.addition = CharSet::from_chars(&['@', '#']);
    let generated_password = generator.generate_password().unwrap();
    assert!(generator.validate(&generated_password));
}

#[test]
fn generator_setting_added_lower_test() {
    let mut generator = PasswordGenerator::default();
    generator.addition = CharSet::from_chars(&['a']);
    let generated_password = generator.generate_password().unwrap();
    assert!(generator.validate(&generated_password));
    assert!(generated_password.iter().any(|&c| c == 'a'));
}

#[test]
fn generator_setting_added_mark_test() {
    let mut generator = PasswordGenerator::default();
    generator.addition = CharSet::from_chars(&['@', '#']);
    let generated_password = generator.generate_password().unwrap();
    assert!(generator.validate(&generated_password));
}

#[test]
fn generator_setting_only_a_test() {
    let generator = PasswordGenerator::new(
        20,
        false,
        false,
        false,
        MarkSet::new(),
        CharSet::from_chars(&['a']),
    );
    let generated_password = generator.generate_password().unwrap();
    assert_eq!(generated_password.to_string(), "aaaaaaaaaaaaaaaaaaaa");
}

#[test]
fn default_generator_gives_default_length() {
    let generator = PasswordGenerator::default();
    assert_eq!(generator.len, PASSWORD_DEFAULT_LENGTH);
    let password = generator.generate_password().unwrap();
    assert_eq!(password.len(), 20);
}
