use spdx::detection::ngram::NgramSet;

// this is a pretty banal test, but it's a starting point :P
#[test]
fn can_construct() {
    let set = NgramSet::new(2);
    assert_eq!(set.len(), 0);
    assert_eq!(set.n(), 2);
}

#[test]
fn counts_bigrams() {
    let set = NgramSet::from_str("one two three one two", 2);
    assert_eq!(set.len(), 4);
    assert_eq!(set.get("one two"), 2);
    assert_eq!(set.get("two three"), 1);
    assert_eq!(set.get("three one"), 1);
    assert_eq!(set.get("one"), 0);
    assert_eq!(set.get("two one"), 0);
    assert!(!set.is_empty());
    assert_eq!(set.entries().len(), 3);
}

#[test]
fn counts_single_words_and_empty_words() {
    // two spaces in a row hold an empty word between them
    let set = NgramSet::from_str("a  b a", 1);
    assert_eq!(set.len(), 4);
    assert_eq!(set.get("a"), 2);
    assert_eq!(set.get("b"), 1);
    assert_eq!(set.get(""), 1);

    // a space at the end is followed by an empty word
    let set = NgramSet::from_str("a ", 1);
    assert_eq!(set.len(), 2);
    assert_eq!(set.get("a"), 1);
    assert_eq!(set.get(""), 1);
}

#[test]
fn too_few_words_make_no_gram() {
    let set = NgramSet::from_str("one two", 3);
    assert!(set.is_empty());
    assert_eq!(set.len(), 0);
    assert_eq!(set.get("one two"), 0);

    // the empty text is one empty word
    let set = NgramSet::from_str("", 2);
    assert!(set.is_empty());
    let set = NgramSet::from_str("", 1);
    assert_eq!(set.len(), 1);
    assert_eq!(set.get(""), 1);

    // runs of no words do not exist
    let set = NgramSet::from_str("one two", 0);
    assert!(set.is_empty());
}

#[test]
fn analyze_adds_to_what_is_there() {
    let mut set = NgramSet::new(2);
    set.analyze("one two three");
    set.analyze("two three four");
    assert_eq!(set.len(), 4);
    assert_eq!(set.get("two three"), 2);
    assert_eq!(set.get("one two"), 1);
    assert_eq!(set.get("three four"), 1);
    set.add_gram("one two".to_owned());
    assert_eq!(set.len(), 5);
    assert_eq!(set.get("one two"), 2);
}

#[test]
fn keeps_text_that_is_not_ascii() {
    let set = NgramSet::from_str("größe zählt größe zählt", 2);
    assert_eq!(set.len(), 3);
    assert_eq!(set.get("größe zählt"), 2);
    assert_eq!(set.get("zählt größe"), 1);
}

#[test]
fn shares_the_lesser_counts() {
    let a = NgramSet::from_str("one two one two one three", 2);
    let b = NgramSet::from_str("one two one three four one two x one two", 2);
    // "one two": 2 and 3, "two one": 2 and 1, "one three": 1 and 1
    assert_eq!(a.get("one two"), 2);
    assert_eq!(b.get("one two"), 3);
    assert_eq!(a.shared(&b), 2 + 1 + 1);
    assert_eq!(b.shared(&a), 4);
    assert_eq!(a.shared(&a), 5);
    assert_eq!(a.shared(&a), a.len() as u64);

    let nothing = NgramSet::new(2);
    assert_eq!(a.shared(&nothing), 0);
    assert_eq!(nothing.shared(&a), 0);
    let other = NgramSet::from_str("five six seven", 2);
    assert_eq!(a.shared(&other), 0);
}
