use runime::text::{contains_text, decimal_string};

#[test]
fn decimal_of_zero() {
    assert_eq!(decimal_string(0), "0");
}

#[test]
fn decimal_of_small_numbers() {
    assert_eq!(decimal_string(7), "7");
    assert_eq!(decimal_string(10), "10");
    assert_eq!(decimal_string(42), "42");
    assert_eq!(decimal_string(999999), "999999");
}

#[test]
fn decimal_of_negative_numbers() {
    assert_eq!(decimal_string(-1), "-1");
    assert_eq!(decimal_string(-120), "-120");
}

#[test]
fn decimal_of_the_limits() {
    assert_eq!(decimal_string(i32::MAX), "2147483647");
    assert_eq!(decimal_string(i32::MIN), "-2147483648");
}

#[test]
fn decimal_agrees_with_the_standard_library() {
    let mut n: i32 = -1_000_003;
    while n < 1_000_000 {
        assert_eq!(decimal_string(n), n.to_string());
        n += 7_919;
    }
    for n in -1100..1100 {
        assert_eq!(decimal_string(n), n.to_string());
    }
    for shift in 0..31 {
        let p: i32 = 1 << shift;
        assert_eq!(decimal_string(p), p.to_string());
        assert_eq!(decimal_string(-p), (-p).to_string());
        assert_eq!(decimal_string(p - 1), (p - 1).to_string());
    }
}

#[test]
fn contains_finds_a_pattern_anywhere() {
    assert!(contains_text("Duplicate entry 'x' for key 'q'", "Duplicate entry"));
    assert!(contains_text("1062 (23000): Duplicate entry 'x'", "Duplicate entry"));
    assert!(contains_text("at the end: Duplicate entry", "Duplicate entry"));
}

#[test]
fn contains_rejects_what_is_not_there() {
    assert!(!contains_text("duplicate entry", "Duplicate entry"));
    assert!(!contains_text("Duplicate entr", "Duplicate entry"));
    assert!(!contains_text("", "Duplicate entry"));
    assert!(!contains_text("Duplicate  entry", "Duplicate entry"));
}

#[test]
fn contains_with_an_empty_pattern() {
    assert!(contains_text("abc", ""));
    assert!(contains_text("", ""));
}

#[test]
fn contains_with_text_beyond_ascii() {
    assert!(contains_text("名言: Duplicate entry 'ナルト'", "Duplicate entry"));
    assert!(contains_text("ナルト疾風伝", "疾風"));
    assert!(!contains_text("ナルト疾風伝", "風疾"));
}

#[test]
fn contains_agrees_with_the_standard_library() {
    let texts = ["", "a", "ab", "aab", "abab", "Duplicate entry", "xDuplicate entryx", "ééa"];
    let patterns = ["", "a", "b", "ab", "ba", "aba", "Duplicate entry", "é", "éa"];
    for t in texts {
        for p in patterns {
            assert_eq!(contains_text(t, p), t.contains(p), "{:?} in {:?}", p, t);
        }
    }
}
