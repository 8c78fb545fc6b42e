use nixpkgs_check::text::{
    begins_with, char_count, cat2, cat3, copy_all, dedup, finishes_with, glue, holds, join,
    prefix_before, same_text, split,
};

fn strings(items: &[&str]) -> Vec<String> {
    items.iter().map(|s| s.to_string()).collect()
}

#[test]
fn text_split_on_spaces() {
    assert_eq!(split("--version", ' '), strings(&["--version"]));
    assert_eq!(split("a b", ' '), strings(&["a", "b"]));
    assert_eq!(split("-l  /tmp", ' '), strings(&["-l", "", "/tmp"]));
}

#[test]
fn text_split_keeps_empty_pieces_at_the_ends() {
    assert_eq!(split("", ' '), strings(&[""]));
    assert_eq!(split(" ", ' '), strings(&["", ""]));
    assert_eq!(split(" a ", ' '), strings(&["", "a", ""]));
}

#[test]
fn text_split_counts_characters_not_bytes() {
    assert_eq!(split("é ✔ x", ' '), strings(&["é", "✔", "x"]));
}

#[test]
fn text_prefix_before_first_separator() {
    assert_eq!(prefix_before("hello: 1.0 -> 1.1", ':'), "hello");
    assert_eq!(prefix_before("a:b:c", ':'), "a");
    assert_eq!(prefix_before("no separator", ':'), "no separator");
    assert_eq!(prefix_before(":x", ':'), "");
    assert_eq!(prefix_before("", ':'), "");
}

#[test]
fn text_prefixes_and_suffixes() {
    assert!(begins_with(".foo-wrapped", "."));
    assert!(!begins_with("foo", "."));
    assert!(begins_with("foo", ""));
    assert!(!begins_with("", "."));
    assert!(finishes_with(".foo-wrapped", "-wrapped"));
    assert!(!finishes_with("wrapped", "-wrapped"));
    assert!(finishes_with("x", ""));
    assert!(finishes_with("-wrapped", "-wrapped"));
}

#[test]
fn text_comparison() {
    assert!(same_text("abc", "abc"));
    assert!(!same_text("abc", "abd"));
    assert!(!same_text("abc", "ab"));
    assert!(same_text("", ""));
    assert_eq!(char_count("✔ ok"), 4);
}

#[test]
fn text_concatenation() {
    assert_eq!(cat2("a", "b"), "ab");
    assert_eq!(cat3("a", "", "c"), "ac");
    assert_eq!(glue(&strings(&["a\n", "b\n"])), "a\nb\n");
    assert_eq!(glue(&strings(&[])), "");
    assert_eq!(join(&strings(&["a", "b", "c"]), ", "), "a, b, c");
    assert_eq!(join(&strings(&["a"]), ", "), "a");
    assert_eq!(join(&strings(&[]), ", "), "");
}

#[test]
fn text_membership_and_deduplication() {
    let items = strings(&["a", "b", "a", "c", "b"]);
    assert!(holds(&items, "c"));
    assert!(!holds(&items, "d"));
    assert_eq!(dedup(&items), strings(&["a", "b", "c"]));
    assert_eq!(dedup(&strings(&[])), strings(&[]));
    assert_eq!(copy_all(&items), items);
}
