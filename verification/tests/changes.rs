use nixpkgs_check::changes::{changed_packages, package_of, Commit};
use nixpkgs_check::checks::environment::platform;
use nixpkgs_check::failure::Failure;
use nixpkgs_check::State;

fn commit(id: &str, parents: usize, summary: Option<&str>) -> Commit {
    Commit { id: id.to_string(), parents, summary: summary.map(|text| text.to_string()) }
}

#[test]
fn changes_the_package_stands_in_front_of_the_colon() {
    assert_eq!(package_of("hello: 2.10 -> 2.11"), "hello");
    assert_eq!(package_of("python3Packages.requests: fix build"), "python3Packages.requests");
    assert_eq!(package_of("nixos/nginx: add option: foo"), "nixos/nginx");
}

#[test]
fn changes_a_summary_without_colon_is_taken_whole() {
    assert_eq!(package_of("Merge branch 'master'"), "Merge branch 'master'");
    assert_eq!(package_of(""), "");
}

#[test]
fn changes_each_package_is_guessed_once() {
    let commits = vec![
        commit("c4", 1, Some("hello: 2.10 -> 2.11")),
        commit("c3", 1, Some("world: init at 1.0")),
        commit("c2", 1, Some("hello: add test")),
        commit("c1", 1, Some("treewide")),
    ];
    assert_eq!(
        changed_packages(&commits),
        Ok(vec!["hello".to_string(), "world".to_string(), "treewide".to_string()])
    );
    assert_eq!(changed_packages(&Vec::new()), Ok(Vec::new()));
}

#[test]
fn changes_merges_and_roots_are_passed_over() {
    let commits = vec![
        commit("c3", 2, Some("Merge pull request #1 from x/y")),
        commit("c2", 1, Some("hello: 2.10 -> 2.11")),
        commit("c1", 2, None),
        commit("c0", 0, Some("initial: commit")),
    ];
    assert_eq!(changed_packages(&commits), Ok(vec!["hello".to_string()]));
}

#[test]
fn changes_a_summary_that_is_no_text_is_fatal() {
    let commits = vec![
        commit("c3", 1, Some("hello: 2.10 -> 2.11")),
        commit("0a1b2c", 1, None),
        commit("c1", 1, None),
    ];
    assert_eq!(
        changed_packages(&commits),
        Err(Failure::because("commit 0a1b2c has a non-utf-8 summary"))
    );
}

#[test]
fn changes_naming_the_platform() {
    assert_eq!(platform(Some("20.09.1234".to_string()), "Unknown", "0.0.0"), "NixOS 20.09.1234");
    assert_eq!(platform(Some(String::new()), "Unknown", "0.0.0"), "NixOS ");
    assert_eq!(platform(None, "Ubuntu", "20.04"), "Ubuntu 20.04");
}

#[test]
fn changes_nothing_is_remembered_at_first() {
    assert_eq!(State::default(), State { last_contributing: None });
}
