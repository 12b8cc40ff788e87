use exex::paths::{
    file_stem, normalize_separators, resolve_from, resolve_path, stem_of_name, Platform,
};
use exex::security::{build_rules, distinct_texts, lowercase_all, rule_from};
use exex::text::{
    chars_of, contains_fragment, first_word_of, is_blank, list_contains, replace_char,
    string_of,
};

#[test]
fn characters_round_trip() {
    let chars = chars_of("héllo");
    assert_eq!(chars, vec!['h', 'é', 'l', 'l', 'o']);
    assert_eq!(string_of(&chars, 0, 5), "héllo");
    assert_eq!(string_of(&chars, 1, 3), "él");
    assert_eq!(string_of(&chars, 2, 2), "");
    assert_eq!(chars_of(""), Vec::<char>::new());
}

#[test]
fn blank_means_only_whitespace() {
    assert!(is_blank(""));
    assert!(is_blank(" \t\r\n"));
    assert!(is_blank("\u{a0}\u{2003}"));
    assert!(!is_blank(" a "));
    assert!(!is_blank("\0"));
}

#[test]
fn first_word_is_the_first_run_without_whitespace() {
    assert_eq!(first_word_of("echo hi"), "echo");
    assert_eq!(first_word_of("   ls\t-la"), "ls");
    assert_eq!(first_word_of("single"), "single");
    assert_eq!(first_word_of(""), "");
    assert_eq!(first_word_of(" \n "), "");
}

#[test]
fn fragment_search_finds_every_position() {
    let hay = chars_of("abcabd");
    assert!(contains_fragment(&hay, &chars_of("abd")));
    assert!(contains_fragment(&hay, &chars_of("abc")));
    assert!(contains_fragment(&hay, &chars_of("d")));
    assert!(contains_fragment(&hay, &chars_of("")));
    assert!(contains_fragment(&hay, &chars_of("abcabd")));
    assert!(!contains_fragment(&hay, &chars_of("abcabda")));
    assert!(!contains_fragment(&hay, &chars_of("ac")));
    assert!(contains_fragment(&chars_of(""), &chars_of("")));
    assert!(!contains_fragment(&chars_of(""), &chars_of("a")));
}

#[test]
fn replacing_a_character_keeps_the_rest() {
    assert_eq!(replace_char("a\\b\\c", '\\', '/'), "a/b/c");
    assert_eq!(replace_char("a/b", '\\', '/'), "a/b");
    assert_eq!(replace_char("", 'a', 'b'), "");
    assert_eq!(normalize_separators("C:/Windows/", Platform::Windows), "C:\\Windows\\");
    assert_eq!(normalize_separators("C:\\Windows/x", Platform::Linux), "C:/Windows/x");
    assert_eq!(normalize_separators("C:\\Windows/x", Platform::MacOs), "C:/Windows/x");
}

#[test]
fn membership_compares_whole_texts() {
    let list = vec!["rm".to_string(), "del".to_string()];
    assert!(list_contains(&list, "del"));
    assert!(!list_contains(&list, "de"));
    assert!(!list_contains(&Vec::new(), ""));
}

#[test]
fn distinct_keeps_first_occurrences() {
    let items = vec!["b".to_string(), "a".to_string(), "b".to_string(), "c".to_string(), "a".to_string()];
    assert_eq!(distinct_texts(&items), vec!["b".to_string(), "a".to_string(), "c".to_string()]);
    assert_eq!(distinct_texts(&Vec::new()), Vec::<String>::new());
}

#[test]
fn rule_is_canonical_form_or_pattern() {
    assert_eq!(rule_from("/a/../b".to_string(), Some("/b".to_string())), "/b");
    assert_eq!(rule_from("/a/../b".to_string(), None), "/a/../b");
    let rules = build_rules(
        &vec!["/no-such-exex\\x".to_string(), "/tmp/..".to_string(), "/".to_string()],
        Platform::Linux,
    );
    assert_eq!(rules, vec!["/no-such-exex/x".to_string(), "/".to_string()]);
}

#[test]
fn resolution_prefers_the_canonical_path() {
    assert_eq!(
        resolve_from("/a/b", Some("/real/b".to_string()), Some("/other".to_string())),
        Some("/real/b".to_string())
    );
    assert_eq!(
        resolve_from("/a/b.txt", None, Some("/real".to_string())),
        Some("/real/b.txt".to_string())
    );
    assert_eq!(resolve_from("/a/b.txt", None, None), None);
    assert_eq!(resolve_from("/", None, Some("/real".to_string())), None);
    assert_eq!(resolve_from("", None, Some("/real".to_string())), None);
    assert_eq!(resolve_from("/a/..", None, Some("/real".to_string())), Some("/real/".to_string()));
}

#[test]
fn resolution_against_the_filesystem() {
    assert_eq!(resolve_path("/"), Some("/".to_string()));
    assert_eq!(resolve_path("/tmp/.."), Some("/".to_string()));
    assert_eq!(resolve_path("/no-such-exex-file"), Some("/no-such-exex-file".to_string()));
    assert_eq!(resolve_path("/no-such-exex-dir/file"), None);
    assert_eq!(resolve_path(""), None);
}

#[test]
fn stem_is_the_name_before_the_last_dot() {
    assert_eq!(stem_of_name("git.exe"), "git");
    assert_eq!(stem_of_name("archive.tar.gz"), "archive.tar");
    assert_eq!(stem_of_name("plain"), "plain");
    assert_eq!(stem_of_name(".profile"), ".profile");
    assert_eq!(stem_of_name(".profile.bak"), ".profile");
    assert_eq!(stem_of_name("trailing."), "trailing");
    assert_eq!(stem_of_name(".."), "..");
    assert_eq!(stem_of_name("..."), "..");
    assert_eq!(stem_of_name("a..b"), "a.");
    assert_eq!(stem_of_name(""), "");
}

#[test]
fn file_stem_needs_a_file_name() {
    assert_eq!(file_stem("/usr/bin/git.exe"), Some("git".to_string()));
    assert_eq!(file_stem("dir/sub/"), Some("sub".to_string()));
    assert_eq!(file_stem("/"), None);
    assert_eq!(file_stem("a/.."), None);
    assert_eq!(file_stem(""), None);
    assert_eq!(
        file_stem("/x/archive.tar.gz"),
        std::path::Path::new("/x/archive.tar.gz")
            .file_stem()
            .map(|stem| stem.to_string_lossy().into_owned())
    );
}

fn in_white_space_set(c: char) -> bool {
    matches!(
        c,
        '\u{9}'..='\u{d}'
            | ' '
            | '\u{85}'
            | '\u{a0}'
            | '\u{1680}'
            | '\u{2000}'..='\u{200a}'
            | '\u{2028}'
            | '\u{2029}'
            | '\u{202f}'
            | '\u{205f}'
            | '\u{3000}'
    )
}

#[test]
fn whitespace_is_the_stated_set_for_every_character() {
    let mut code: u32 = 0;
    while code <= 0x10ffff {
        if let Some(c) = char::from_u32(code) {
            let mut text = String::new();
            text.push(c);
            assert_eq!(is_blank(&text), in_white_space_set(c), "U+{:04X}", code);
        }
        code += 1;
    }
}

#[test]
fn whitespace_at_the_edges_of_the_set() {
    assert!(is_blank("\u{9}\u{a}\u{b}\u{c}\u{d} \u{85}\u{a0}\u{1680}\u{2000}\u{200a}"));
    assert!(is_blank("\u{2028}\u{2029}\u{202f}\u{205f}\u{3000}"));
    assert!(!is_blank("\u{8}"));
    assert!(!is_blank("\u{e}"));
    assert!(!is_blank("\u{1c}"));
    assert!(!is_blank("\u{180e}"));
    assert!(!is_blank("\u{200b}"));
    assert!(!is_blank("\u{feff}"));
    assert_eq!(first_word_of("\u{2003}x\u{2028}y"), "x");
}

fn ascii_lower(c: char) -> char {
    if ('A'..='Z').contains(&c) {
        char::from_u32(c as u32 + 32).unwrap()
    } else {
        c
    }
}

#[test]
fn lowercase_of_ascii_text_changes_capital_letters_only() {
    let mut texts: Vec<String> = Vec::new();
    let mut expected: Vec<String> = Vec::new();
    texts.push(String::new());
    expected.push(String::new());
    for a in 0u8..128 {
        for b in 0u8..128 {
            let (a, b) = (a as char, b as char);
            texts.push([a, b].iter().collect());
            expected.push([ascii_lower(a), ascii_lower(b)].iter().collect());
        }
    }
    texts.push("Net User /ADD C:\\Temp".to_string());
    expected.push("net user /add c:\\temp".to_string());
    assert_eq!(lowercase_all(&texts), expected);
}

#[test]
fn lowercase_of_other_text_follows_unicode() {
    let texts = vec!["ÀÉÎ".to_string(), "ΟΔΟΣ".to_string(), "İ".to_string()];
    assert_eq!(
        lowercase_all(&texts),
        vec!["àéî".to_string(), "οδος".to_string(), "i\u{307}".to_string()]
    );
}
