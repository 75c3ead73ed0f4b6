use commonlib::text::{pad_eq, pad_len, pad_string_to_length, pad_strings_to_length, pad_strings_to_longest, pad_to_len, trunc};

#[test]
fn pad_len_pads_shorter_strings() {
    assert_eq!(pad_len("ab", 5), "ab   ");
}

#[test]
fn pad_len_truncates_longer_strings() {
    assert_eq!(pad_len("abcdefgh", 3), "abc");
}

#[test]
fn pad_len_keeps_equal_length() {
    assert_eq!(pad_len("abc", 3), "abc");
}

#[test]
fn pad_len_always_gives_exact_length() {
    for s in ["", "a", "hello", "a much longer string than ten"] {
        for n in 0..15usize {
            assert_eq!(pad_len(s, n).chars().count(), n);
        }
    }
}

#[test]
fn pad_len_empty_to_zero() {
    assert_eq!(pad_len("", 0), "");
    assert_eq!(pad_len("", 4), "    ");
}

#[test]
fn pad_len_counts_characters() {
    assert_eq!(pad_len("héllo", 3), "hél");
    assert_eq!(pad_len("é", 3), "é  ");
}

#[test]
fn trunc_cuts_only_longer_strings() {
    assert_eq!(trunc("abcdef", 4), "abcd");
    assert_eq!(trunc("ab", 4), "ab");
    assert_eq!(trunc("abcd", 4), "abcd");
}

#[test]
fn pad_eq_pads_to_longest() {
    let v = vec!["a".to_string(), "abcd".to_string(), "ab".to_string()];
    assert_eq!(pad_eq(&v), vec!["a   ", "abcd", "ab  "]);
}

#[test]
fn pad_eq_empty() {
    assert_eq!(pad_eq(&Vec::new()), Vec::<String>::new());
}

#[test]
fn pad_to_len_fits_every_string() {
    let v = vec!["abcdef".to_string(), "a".to_string()];
    assert_eq!(pad_to_len(&v, 3), vec!["abc", "a  "]);
}

#[test]
fn pad_string_to_length_fits() {
    assert_eq!(pad_string_to_length("hello".to_string(), 3), "hel");
    assert_eq!(pad_string_to_length("hi".to_string(), 4), "hi  ");
}

#[test]
fn pad_strings_to_length_keeps_keys_and_order() {
    let v = vec![(1u32, "abcdef".to_string()), (2u32, "x".to_string())];
    let r = pad_strings_to_length(v, 4);
    assert_eq!(r, vec![(1, "abcd".to_string()), (2, "x   ".to_string())]);
}

#[test]
fn pad_strings_to_longest_pads_values() {
    let v = vec![("a", "abc".to_string()), ("b", "x".to_string()), ("c", "".to_string())];
    let r = pad_strings_to_longest(v);
    assert_eq!(r, vec![("a", "abc".to_string()), ("b", "x  ".to_string()), ("c", "   ".to_string())]);
}
