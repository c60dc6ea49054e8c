use elorapi::floatbits::f32_bits_is_nan;
use elorapi::textutil::{contains_sub, find_sub, i64_dec, lex_lt, str_eq, u64_dec};

#[test]
fn find_sub_reports_first_occurrence() {
    assert_eq!(find_sub("abcabc", "bc"), Some(1));
    assert_eq!(find_sub("abcabc", "abc"), Some(0));
    assert_eq!(find_sub("abcabc", "cab"), Some(2));
    assert_eq!(find_sub("abcabc", "zz"), None);
    assert_eq!(find_sub("", "a"), None);
    assert_eq!(find_sub("abc", ""), Some(0));
    assert_eq!(find_sub("", ""), Some(0));
}

#[test]
fn contains_sub_mirrors_find() {
    assert!(contains_sub("application/1/device/AAA/event/up", "AAA"));
    assert!(!contains_sub("application/1/device/AAA/event/up", "BBB"));
}

#[test]
fn str_eq_compares_characters() {
    assert!(str_eq("abc", "abc"));
    assert!(!str_eq("abc", "abd"));
    assert!(!str_eq("abc", "ab"));
    assert!(str_eq("", ""));
}

#[test]
fn lex_lt_orders_like_the_standard_order() {
    let words = ["", "a", "ab", "abc", "b", "z", "öl", "zz"];
    for &a in &words {
        for &b in &words {
            assert_eq!(lex_lt(a, b), a < b, "{:?} < {:?}", a, b);
        }
    }
}

#[test]
fn decimal_rendering_matches_std() {
    for n in [0u64, 1, 9, 10, 99, 100, 12345, u64::MAX] {
        assert_eq!(u64_dec(n), n.to_string());
    }
    for n in [0i64, 7, -1, -42, 1000, i64::MAX, i64::MIN] {
        assert_eq!(i64_dec(n), n.to_string());
    }
}

#[test]
fn nan_patterns_are_recognized() {
    assert!(f32_bits_is_nan(f32::NAN.to_bits()));
    assert!(!f32_bits_is_nan(0.0f32.to_bits()));
    assert!(!f32_bits_is_nan(f32::INFINITY.to_bits()));
    assert!(!f32_bits_is_nan(f32::NEG_INFINITY.to_bits()));
    assert!(!f32_bits_is_nan((-1.25f32).to_bits()));
}
