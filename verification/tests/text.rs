use cargo_pros::text::{chars_of, find_from, matches_at, str_contains, str_replace};

#[test]
fn chars_of_splits_text_into_characters() {
    assert_eq!(chars_of("aé/"), vec!['a', 'é', '/']);
    assert_eq!(chars_of(""), Vec::<char>::new());
}

#[test]
fn matches_at_checks_one_position() {
    let hay = chars_of("rustc 1.80.0-nightly");
    let needle = chars_of("nightly");
    assert!(matches_at(&hay, &needle, 13));
    assert!(!matches_at(&hay, &needle, 12));
    assert!(!matches_at(&hay, &needle, 14));
    assert!(!matches_at(&hay, &needle, 1000));
    assert!(matches_at(&hay, &Vec::new(), 20));
    assert!(!matches_at(&hay, &Vec::new(), 21));
}

#[test]
fn find_from_finds_the_first_match_behind_the_start() {
    let hay = chars_of("abcabcabc");
    let needle = chars_of("abc");
    assert_eq!(find_from(&hay, &needle, 0), Some(0));
    assert_eq!(find_from(&hay, &needle, 1), Some(3));
    assert_eq!(find_from(&hay, &needle, 4), Some(6));
    assert_eq!(find_from(&hay, &needle, 7), None);
    assert_eq!(find_from(&hay, &chars_of("abcabcabcabc"), 0), None);
}

#[test]
fn str_contains_agrees_with_std() {
    let cases = [
        ("rustc 1.80.0-nightly (abc 2024-05-01)", "nightly"),
        ("rustc 1.80.0 (abc 2024-05-01)", "nightly"),
        ("", "nightly"),
        ("nightl", "nightly"),
        ("xnightly", "nightly"),
        ("anything", ""),
        ("", ""),
        ("ééé", "éé"),
    ];
    for (hay, needle) in cases {
        assert_eq!(str_contains(hay, needle), hay.contains(needle), "{hay:?} {needle:?}");
    }
}

#[test]
fn str_replace_replaces_every_occurrence() {
    assert_eq!(str_replace("a-b-c", "-", "+"), "a+b+c");
    assert_eq!(str_replace("name = \"vexide-template\"", "vexide-template", "robot"), "name = \"robot\"");
    assert_eq!(str_replace("xx", "x", "xx"), "xxxx");
    assert_eq!(str_replace("no match here", "zzz", "y"), "no match here");
    assert_eq!(str_replace("", "a", "b"), "");
    assert_eq!(str_replace("abc", "abc", ""), "");
}

#[test]
fn str_replace_does_not_see_overlapping_occurrences() {
    assert_eq!(str_replace("aaa", "aa", "b"), "ba");
    assert_eq!(str_replace("aaaa", "aa", "b"), "bb");
    assert_eq!(str_replace("ababa", "aba", "x"), "xba");
}

#[test]
fn str_replace_with_empty_pattern_puts_the_text_everywhere() {
    assert_eq!(str_replace("abc", "", "x"), "xaxbxcx");
    assert_eq!(str_replace("", "", "x"), "x");
    assert_eq!(str_replace("é", "", "--"), "--é--");
}

#[test]
fn str_replace_agrees_with_std() {
    let texts = ["", "a", "aaaa", "abcabc", "héllo wörld", "vexide-template vexide-template"];
    let patterns = ["", "a", "aa", "abc", "ö", "vexide-template", "zz"];
    let replacements = ["", "a", "né", "vexide-template-2"];
    for text in texts {
        for pattern in patterns {
            for to in replacements {
                assert_eq!(str_replace(text, pattern, to), text.replace(pattern, to));
            }
        }
    }
}
