use auth_gateway::text::{decimal_text, replace_all, same_text, strip_prefix};

#[test]
fn decimal_text_of_small_and_large_numbers() {
    assert_eq!(decimal_text(0), "0");
    assert_eq!(decimal_text(7), "7");
    assert_eq!(decimal_text(10), "10");
    assert_eq!(decimal_text(1234567890), "1234567890");
    assert_eq!(decimal_text(u64::MAX), "18446744073709551615");
}

#[test]
fn strip_prefix_takes_only_a_leading_match() {
    assert_eq!(strip_prefix("Bearer abc", "Bearer "), Some("abc"));
    assert_eq!(strip_prefix("Bearer ", "Bearer "), Some(""));
    assert_eq!(strip_prefix("Bearer", "Bearer "), None);
    assert_eq!(strip_prefix("xBearer abc", "Bearer "), None);
    assert_eq!(strip_prefix("", "Bearer "), None);
    assert_eq!(strip_prefix("anything", ""), Some("anything"));
}

#[test]
fn strip_prefix_counts_characters_not_bytes() {
    assert_eq!(strip_prefix("héllo wörld", "héllo "), Some("wörld"));
    assert_eq!(strip_prefix("héllo", "hello"), None);
}

#[test]
fn same_text_compares_contents() {
    assert!(same_text("otp_expired", "otp_expired"));
    assert!(!same_text("otp_expired", "otp_expire"));
    assert!(!same_text("", "x"));
    assert!(same_text("", ""));
}

#[test]
fn replace_all_takes_matches_from_the_left_without_overlap() {
    assert_eq!(replace_all("abcabc", "bc", "X"), "aXaX");
    assert_eq!(replace_all("aaa", "aa", "b"), "ba");
    assert_eq!(replace_all("aaaa", "aa", "b"), "bb");
    assert_eq!(replace_all("aa", "a", "aa"), "aaaa");
    assert_eq!(replace_all("abc", "abcd", "X"), "abc");
    assert_eq!(replace_all("", "a", "X"), "");
    assert_eq!(replace_all("abc", "abc", ""), "");
    assert_eq!(replace_all("https://p.example/auth/v1", "/auth/v1", ""), "https://p.example");
    assert_eq!(replace_all("wörld wörld", "ö", "oe"), "woerld woerld");
    assert_eq!(replace_all("abc", "b", "b"), "abc");
}

#[test]
fn replace_all_agrees_with_the_standard_library() {
    let texts = ["", "a", "aaaaa", "abababa", "xx/auth/v1/auth/v1yy", "/auth/v/auth/v1"];
    let patterns = ["a", "aa", "aba", "/auth/v1", "b"];
    for text in texts {
        for pattern in patterns {
            assert_eq!(replace_all(text, pattern, "-"), text.replace(pattern, "-"));
            assert_eq!(replace_all(text, pattern, ""), text.replace(pattern, ""));
        }
    }
}

#[test]
fn replace_all_with_an_empty_pattern_leaves_the_text() {
    assert_eq!(replace_all("abc", "", "X"), "abc");
    assert_eq!(replace_all("", "", "X"), "");
    assert_eq!(replace_all("wörld", "", ""), "wörld");
}
