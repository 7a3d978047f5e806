use weibo::text::{chars_of, leading_len, lowered_is, occurs_at, remove_all, split, string_of, to_lower, trailing_start};

fn chars(s: &str) -> Vec<char> {
    s.chars().collect()
}

#[test]
fn chars_of_lists_the_scalar_values() {
    assert_eq!(chars_of(""), Vec::<char>::new());
    assert_eq!(chars_of("a&b"), vec!['a', '&', 'b']);
    assert_eq!(chars_of("é图🙂"), vec!['é', '图', '🙂']);
}

#[test]
fn string_of_copies_a_range() {
    let text = chars("héllo, 世界");
    assert_eq!(string_of(&text, 0, text.len()), "héllo, 世界");
    assert_eq!(string_of(&text, 1, 4), "éll");
    assert_eq!(string_of(&text, 7, 9), "世界");
    assert_eq!(string_of(&text, 3, 3), "");
    assert_eq!(string_of(&[], 0, 0), "");
}

#[test]
fn occurs_at_compares_in_place() {
    let text = chars("abcabc");
    assert!(occurs_at(&text, 0, &chars("abc")));
    assert!(occurs_at(&text, 3, &chars("abc")));
    assert!(!occurs_at(&text, 1, &chars("abc")));
    assert!(!occurs_at(&text, 4, &chars("abc")));
    assert!(occurs_at(&text, 6, &chars("")));
    assert!(occurs_at(&text, 2, &chars("")));
    assert!(!occurs_at(&text, 6, &chars("a")));
    assert!(!occurs_at(&chars("ab"), 0, &chars("abc")));
}

#[test]
fn leading_len_counts_whole_repetitions() {
    assert_eq!(leading_len(&chars("ababax"), &chars("ab")), 4);
    assert_eq!(leading_len(&chars("aaa"), &chars("aa")), 2);
    assert_eq!(leading_len(&chars("xab"), &chars("ab")), 0);
    assert_eq!(leading_len(&chars("abab"), &chars("ab")), 4);
    assert_eq!(leading_len(&chars("abc"), &chars("")), 0);
    assert_eq!(leading_len(&chars(""), &chars("ab")), 0);
}

#[test]
fn trailing_start_counts_whole_repetitions() {
    assert_eq!(trailing_start(&chars("xababab"), 0, &chars("ab")), 1);
    assert_eq!(trailing_start(&chars("aaa"), 0, &chars("aa")), 1);
    assert_eq!(trailing_start(&chars("abx"), 0, &chars("ab")), 3);
    assert_eq!(trailing_start(&chars("abab"), 0, &chars("ab")), 0);
    assert_eq!(trailing_start(&chars("abab"), 2, &chars("ab")), 2);
    assert_eq!(trailing_start(&chars("abab"), 3, &chars("ab")), 4);
    assert_eq!(trailing_start(&chars("abab"), 4, &chars("ab")), 4);
    assert_eq!(trailing_start(&chars("abc"), 1, &chars("")), 3);
}

#[test]
fn trims_agree_with_the_standard_library() {
    let texts = ["", "a", "ab", "aba", "abab", "ababa", "xabab", "ababx", "aaaa", "aaaaa", "baab"];
    let pats = ["a", "ab", "aa", "ba", "abab", "x"];
    for text in texts {
        for pat in pats {
            let t = chars(text);
            let from = leading_len(&t, &chars(pat));
            assert_eq!(string_of(&t, from, t.len()), text.trim_start_matches(pat), "{:?} {:?}", text, pat);
            let to = trailing_start(&t, 0, &chars(pat));
            assert_eq!(string_of(&t, 0, to), text.trim_end_matches(pat), "{:?} {:?}", text, pat);
            let to = trailing_start(&t, from, &chars(pat));
            assert_eq!(
                string_of(&t, from, to),
                text.trim_start_matches(pat).trim_end_matches(pat),
                "{:?} {:?}",
                text,
                pat
            );
        }
    }
}

#[test]
fn remove_all_agrees_with_the_standard_replace() {
    let texts = ["", "a", "aa", "aaa", "aaaa", "abab", "aabab", "xaay", "image/png", "abaabaaab", "ééé"];
    let pats = ["a", "aa", "ab", "aba", "image/", "é", "zz"];
    for text in texts {
        for pat in pats {
            let out: String = remove_all(&chars(text), &chars(pat)).into_iter().collect();
            assert_eq!(out, text.replace(pat, ""), "{:?} {:?}", text, pat);
        }
    }
}

#[test]
fn remove_all_with_an_empty_pattern_removes_nothing() {
    assert_eq!(remove_all(&chars("abc"), &[]), chars("abc"));
    assert_eq!(remove_all(&[], &[]), Vec::<char>::new());
}

#[test]
fn dividing_agrees_with_the_standard_split() {
    for text in ["", "a", ",", "a,b", ",a", "a,", ",,", "a,,b,", "一,二"] {
        let expected: Vec<String> = text.split(',').map(|s| s.to_owned()).collect();
        assert_eq!(split(&chars(text), ','), expected, "{:?}", text);
    }
    assert_eq!(split(&chars("a b  c"), ' '), vec!["a", "b", "", "c"]);
}

#[test]
fn to_lower_changes_ascii_capitals_only() {
    assert_eq!(to_lower('A'), 'a');
    assert_eq!(to_lower('M'), 'm');
    assert_eq!(to_lower('Z'), 'z');
    for c in ['a', 'z', '0', '@', '[', '`', '{', ' ', 'É', 'Σ', '\u{212a}', '\u{10ffff}'] {
        assert_eq!(to_lower(c), c);
    }
    for code in 0u8..128 {
        let c = code as char;
        assert_eq!(to_lower(c), c.to_ascii_lowercase());
    }
}

#[test]
fn lowered_is_compares_without_regard_to_ascii_case() {
    assert!(lowered_is(&chars("JPEG"), &chars("jpeg")));
    assert!(lowered_is(&chars("jPeG"), &chars("jpeg")));
    assert!(lowered_is(&chars(""), &chars("")));
    assert!(!lowered_is(&chars("jpeg"), &chars("JPEG")));
    assert!(!lowered_is(&chars("jpe"), &chars("jpeg")));
    assert!(!lowered_is(&chars("jpegs"), &chars("jpeg")));
    assert!(!lowered_is(&chars("É"), &chars("é")));
}
