use std::collections::HashSet;

use passgen::mark::{MarkSet, CANDIDATE_MARK, DEFAULT_MARK};

#[test]
fn mark_all_mark_is_different_test() {
    assert_eq!(
        DEFAULT_MARK.chars().collect::<Vec<_>>().len(),
        DEFAULT_MARK.chars().collect::<HashSet<_>>().len()
    );
    let mut all = MarkSet::new();
    all.insert_all();
    assert_eq!(CANDIDATE_MARK.chars().collect::<HashSet<_>>().len(), all.iter().len(),)
}

#[test]
fn mark_candidate_mark_contain_all_default_mark_test() {
    let default_set: HashSet<char> = DEFAULT_MARK.chars().collect();
    let mut default = HashSet::new();
    for c in CANDIDATE_MARK.chars() {
        if default_set.contains(&c) {
            default.insert(c);
        }
    }
    assert_eq!(default, default_set);
}

#[test]
fn contains_test() {
    let default = MarkSet::default();
    assert!(default.contains(&'!'));
    assert!(default.contains(&'#'));
    assert!(!default.contains(&'a'));
    assert!(!default.contains(&'A'));
    assert!(!default.contains(&'0'));
    assert!(!default.contains(&'\\'));
}

#[test]
fn remove_insert_test() {
    let mut ms = MarkSet::default();
    {
        assert!(!ms.insert('a')); // not a selectable mark
        assert!(!ms.contains(&'a'));
    }
    {
        assert!(!ms.contains(&'?'));
        assert!(!ms.remove(&'?'));
        assert!(!ms.contains(&'?'));
        assert!(ms.insert('?'));
        assert!(ms.contains(&'?'));
        assert!(ms.remove(&'?'));
        assert!(!ms.contains(&'?'));
    }
}

#[test]
fn toggle_test() {
    let mut ms = MarkSet::default();
    assert!(!ms.contains(&'/'));
    assert!(ms.toggle('/'));
    assert!(ms.contains(&'/'));
    assert!(ms.toggle('/'));
    assert!(!ms.contains(&'/'));
}

#[test]
fn toggle_return_false_test() {
    let mut ms = MarkSet::default();
    assert!(!ms.toggle('a'));
    assert!(!ms.toggle('A'));
    assert!(!ms.toggle('0'));
}

#[test]
fn toggle_question_mark_twice_restores_selection() {
    let mut ms = MarkSet::default();
    assert!(!ms.contains(&'?'));
    assert!(ms.toggle('?'));
    assert!(ms.contains(&'?'));
    assert!(ms.toggle('?'));
    assert!(!ms.contains(&'?'));
    assert_eq!(ms.iter().len(), 5);
}

#[test]
fn insert_existing_mark_returns_false() {
    let mut ms = MarkSet::default();
    assert!(!ms.insert('^'));
    assert_eq!(ms.iter().len(), 5);
}

#[test]
fn get_marks_follows_candidate_order() {
    let ms = MarkSet::default();
    let marks = ms.get_marks();
    let expected: Vec<char> = CANDIDATE_MARK.chars().collect();
    assert_eq!(marks.len(), expected.len());
    for (i, (c, selected)) in marks.iter().enumerate() {
        assert_eq!(*c, expected[i]);
        assert_eq!(*selected, DEFAULT_MARK.contains(*c));
    }
}

#[test]
fn clear_and_insert_all() {
    let mut ms = MarkSet::default();
    assert!(!ms.is_empty());
    ms.clear();
    assert!(ms.is_empty());
    assert!(ms.iter().is_empty());
    ms.insert_all();
    assert_eq!(ms.iter().len(), CANDIDATE_MARK.chars().count());
    for c in CANDIDATE_MARK.chars() {
        assert!(ms.contains(&c));
    }
}
