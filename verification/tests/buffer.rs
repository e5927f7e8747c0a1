//! Tests for the inline/heap string builder.

use nominals::{NominalString, INLINE_CAPACITY};

#[test]
fn preconditions() {
    // Pushing a UTF-8 encoded char (at most 4 bytes) onto a buffer holding at
    // most the inline capacity must never overflow the byte arithmetic.
    assert!(INLINE_CAPACITY.checked_add(4).is_some());
}

#[test]
fn forward_ops() {
    let mut s = NominalString::new();
    s.try_push('a').unwrap();
    assert_eq!(s.as_string(), "a");
    s.try_push_str("bc").unwrap();
    assert_eq!(s.as_string(), "abc");
    s.try_push_front('_').unwrap();
    assert_eq!(s.as_string(), "_abc");

    let init = "a".repeat(INLINE_CAPACITY);
    let check_after = init.clone() + "b";
    let check_before = String::from("b") + &init;

    let borderline = NominalString::from_str_slice(&init);
    let mut s = borderline.clone();
    assert!(s.is_inline());
    s.try_push('b').unwrap();
    assert!(!s.is_inline());
    assert_eq!(s.as_string(), check_after);

    let borderline = NominalString::from_str_slice(&init);
    let mut s = borderline.clone();
    assert!(s.is_inline());
    s.try_push_str("b").unwrap();
    assert!(!s.is_inline());
    assert_eq!(s.as_string(), check_after);

    let borderline = NominalString::from_str_slice(&init);
    let mut s = borderline.clone();
    assert!(s.is_inline());
    s.try_push_front('b').unwrap();
    assert!(!s.is_inline());
    assert_eq!(s.as_string(), check_before);
}

#[test]
fn reverse_ops() {
    let mut s = NominalString::new_reverse();
    s.try_push('a').unwrap();
    assert_eq!(s.as_string(), "a");
    s.try_push_str("bc").unwrap();
    assert_eq!(s.as_string(), "abc");
    s.try_push_front('_').unwrap();
    assert_eq!(s.as_string(), "_abc");

    let init = "a".repeat(INLINE_CAPACITY);
    let check_after = init.clone() + "b";
    let check_before = String::from("b") + &init;

    let borderline = NominalString::from_str_slice(&init);
    let mut s = borderline.clone();
    assert!(s.is_inline());
    s.try_push('b').unwrap();
    assert!(!s.is_inline());
    assert_eq!(s.as_string(), check_after);

    let borderline = NominalString::from_str_slice(&init);
    let mut s = borderline.clone();
    assert!(s.is_inline());
    s.try_push_str("b").unwrap();
    assert!(!s.is_inline());
    assert_eq!(s.as_string(), check_after);

    let borderline = NominalString::from_str_slice(&init);
    let mut s = borderline.clone();
    assert!(s.is_inline());
    s.try_push_front('b').unwrap();
    assert!(!s.is_inline());
    assert_eq!(s.as_string(), check_before);
}

#[test]
fn capacity_boundary() {
    // A string built up to exactly the inline capacity reports itself as
    // inline; one character beyond promotes it to heap storage, and the
    // logical content is identical before and after promotion.
    let mut s = NominalString::new();
    for _ in 0..INLINE_CAPACITY {
        s.try_push('a').unwrap();
    }
    assert!(s.is_inline());
    let inline_copy = s.clone();
    s.try_push('b').unwrap();
    assert!(!s.is_inline());
    let mut grown = inline_copy.clone();
    grown.try_push('b').unwrap();
    assert_eq!(grown, s);
    assert_eq!(s.as_string(), "a".repeat(INLINE_CAPACITY) + "b");
}

#[test]
fn capacity_boundary_multibyte() {
    // 31 two-byte characters fill the 62-byte inline capacity exactly.
    let mut s = NominalString::new();
    for _ in 0..31 {
        s.try_push('\u{E9}').unwrap();
    }
    assert!(s.is_inline());
    s.try_push('\u{E9}').unwrap();
    assert!(!s.is_inline());
    assert_eq!(s.as_string(), "\u{E9}".repeat(32));
}

#[test]
fn representation_transparent_equality() {
    // Equality compares by logical content, not by representation.
    let inline = NominalString::from_str_slice("abc");
    assert!(inline.is_inline());
    let heap = NominalString::from_string(String::from("abc"));
    assert!(!heap.is_inline());
    assert_eq!(inline, heap);
    assert_ne!(inline, NominalString::from_str_slice("abd"));
}

#[test]
fn string_conversions() {
    let inline = NominalString::from_str_slice("short");
    assert!(inline.is_inline());
    let back = inline.try_into_string();
    assert!(back.is_err());
    assert_eq!(back.unwrap_err().as_string(), "short");

    let heap = NominalString::from_string(String::from("short"));
    assert_eq!(heap.try_into_string().unwrap(), "short");

    let ch = NominalString::from_char('x');
    assert_eq!(ch.as_string(), "x");
    assert!(ch.is_empty() == false);
    assert!(NominalString::default().is_empty());

    let long = "y".repeat(INLINE_CAPACITY + 1);
    let s = NominalString::from_str_slice(&long);
    assert!(!s.is_inline());
    assert_eq!(s.as_string(), long);
}

#[test]
fn value_size_stays_small() {
    // The builder is meant to be passed and returned by value cheaply.
    assert!(core::mem::size_of::<NominalString>() <= 64);
}

#[test]
fn ordering_by_content() {
    let inline = NominalString::from_str_slice("abc");
    let heap = NominalString::from_string(String::from("abd"));
    assert!(inline < heap);
    assert!(inline <= NominalString::from_string(String::from("abc")));
    assert!(NominalString::from_str_slice("ab") < inline);
    assert!(NominalString::from_str_slice("b") > heap);
}
