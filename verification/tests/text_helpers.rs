use rollploy::text::{chars_of, push_owned, push_text, repo_name, same_text, separates, words};

#[test]
fn words_of_empty_text() {
    assert_eq!(words(""), Vec::<String>::new());
    assert_eq!(words(" \n\t "), Vec::<String>::new());
}

#[test]
fn words_are_split_at_any_run_of_separators() {
    assert_eq!(words("a1b2\nc3d4\n"), vec!["a1b2".to_string(), "c3d4".to_string()]);
    assert_eq!(words("  healthy \r\n\tnone"), vec!["healthy".to_string(), "none".to_string()]);
    assert_eq!(words("one"), vec!["one".to_string()]);
}

#[test]
fn words_keep_characters_beyond_ascii() {
    assert_eq!(words("é ü\u{a0}x"), vec!["é".to_string(), "ü\u{a0}x".to_string()]);
}

#[test]
fn separators_are_the_six_ascii_ones() {
    for c in [' ', '\t', '\n', '\x0b', '\x0c', '\r'] {
        assert!(separates(c));
    }
    for c in ['a', '-', '\u{a0}', '0'] {
        assert!(!separates(c));
    }
}

#[test]
fn chars_of_gives_each_char() {
    assert_eq!(chars_of("añb"), vec!['a', 'ñ', 'b']);
    assert_eq!(chars_of(""), Vec::<char>::new());
}

#[test]
fn repo_name_is_the_last_segment_without_git() {
    assert_eq!(repo_name("https://github.com/acme/shop.git"), "shop");
    assert_eq!(repo_name("https://github.com/acme/shop"), "shop");
    assert_eq!(repo_name("git@github.com:acme/shop.git"), "shop");
    assert_eq!(repo_name("shop"), "shop");
}

#[test]
fn repo_name_drops_every_trailing_git() {
    assert_eq!(repo_name("https://host/x.git.git"), "x");
    assert_eq!(repo_name("https://host/.git"), "");
    assert_eq!(repo_name("https://host/agit"), "agit");
    assert_eq!(repo_name("https://host/a.gitx"), "a.gitx");
}

#[test]
fn repo_name_of_a_url_that_ends_in_a_slash_is_empty() {
    assert_eq!(repo_name("https://host/shop/"), "");
    assert_eq!(repo_name(""), "");
}

#[test]
fn repo_name_does_not_reach_over_the_slash() {
    assert_eq!(repo_name("https://host/x.git/git"), "git");
    assert_eq!(repo_name("a/.gi/t"), "t");
}

#[test]
fn same_text_compares_content() {
    assert!(same_text("abc", "abc"));
    assert!(!same_text("abc", "abd"));
    assert!(!same_text("abc", "ab"));
    assert!(same_text("", ""));
}

#[test]
fn push_text_and_push_owned_append() {
    let mut list = vec!["a".to_string()];
    push_text(&mut list, "b");
    push_owned(&mut list, "c".to_string());
    assert_eq!(list, vec!["a".to_string(), "b".to_string(), "c".to_string()]);
}
