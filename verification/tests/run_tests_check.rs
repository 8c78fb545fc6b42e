use nixpkgs_check::checks::run_tests::{Chk, Listing};
use nixpkgs_check::exchange::{Arg, Location, Output, Reply, Request, Side, Tone};
use nixpkgs_check::failure::Failure;
use nixpkgs_check::Check;

fn printed(stdout: &str) -> Reply {
    Reply::Ran(Some(Output { success: true, stdout: stdout.as_bytes().to_vec() }))
}

fn ended(verdict: Option<bool>) -> Reply {
    match verdict {
        Some(success) => Reply::Ran(Some(Output { success, stdout: Vec::new() })),
        None => Reply::Ran(None),
    }
}

fn listing_of(tests: &[(&str, Option<bool>)]) -> String {
    let names: Vec<String> = tests.iter().map(|(name, _)| format!("\"{}\"", name)).collect();
    format!("[{}]", names.join(","))
}

/// Runs one side of `check` on a package whose tests end as given.
fn run_side(check: &mut Chk, candidate: bool, tests: &[(&str, Option<bool>)]) {
    let mut step = |check: &mut Chk, reply: Reply| {
        if candidate {
            check.run_after(reply)
        } else {
            check.run_before(reply)
        }
    };
    assert!(matches!(step(check, Reply::Start), Ok(Some(Request::Run { .. }))));
    let mut next = step(check, printed(&listing_of(tests)));
    for (name, verdict) in tests {
        assert_eq!(
            next,
            Ok(Some(Request::Say { line: format!("running test {}", name), tone: Tone::Plain }))
        );
        assert!(matches!(step(check, Reply::Said), Ok(Some(Request::Run { .. }))));
        next = step(check, ended(*verdict));
    }
    assert_eq!(next, Ok(None));
}

fn compared(before: &[(&str, Option<bool>)], after: &[(&str, Option<bool>)]) -> Chk {
    let mut check = Chk::new("hello".to_string());
    run_side(&mut check, false, before);
    run_side(&mut check, true, after);
    check
}

#[test]
fn run_tests_name_and_identity() {
    let check = Chk::new("hello".to_string());
    assert_eq!(check.name(), "run-tests(hello)");
    assert_eq!(check.uuid().text(), "4ff16bd3-b116-c189-63d4-2d2620f0e7f9-hello");
    assert!(check.additional_needed_tests().unwrap().is_empty());
}

#[test]
fn run_tests_the_tests_are_listed_then_built_one_by_one() {
    let mut check = Chk::new("hello".to_string());
    assert_eq!(
        check.run_before(Reply::Start),
        Ok(Some(Request::Run {
            capture_stdout: true,
            program: Location { root: "nix".to_string(), parts: Vec::new() },
            args: vec![
                Arg::Text("eval".to_string()),
                Arg::Text("--json".to_string()),
                Arg::Text(
                    "(builtins.attrNames (import ./. { overlays = []; }).hello.passthru.tests or {})"
                        .to_string()
                ),
            ],
        }))
    );
    assert_eq!(
        check.run_before(printed("[\"simple\",\"version\"]")),
        Ok(Some(Request::Say { line: "running test simple".to_string(), tone: Tone::Plain }))
    );
    assert_eq!(
        check.run_before(Reply::Said),
        Ok(Some(Request::Run {
            capture_stdout: false,
            program: Location { root: "nix".to_string(), parts: Vec::new() },
            args: vec![
                Arg::Text("build".to_string()),
                Arg::Text("((import ./. { overlays = []; }).hello.passthru.tests.simple)".to_string()),
            ],
        }))
    );
    assert_eq!(
        check.run_before(ended(Some(true))),
        Ok(Some(Request::Say { line: "running test version".to_string(), tone: Tone::Plain }))
    );
    assert!(matches!(check.run_before(Reply::Said), Ok(Some(Request::Run { .. }))));
    assert_eq!(check.run_before(ended(None)), Ok(None));
}

#[test]
fn run_tests_report_without_tests() {
    assert_eq!(compared(&[], &[]).report(), "**tests of hello:** 😢 there are no tests");
}

#[test]
fn run_tests_report_of_a_check_that_never_ran() {
    let check = Chk::new("hello".to_string());
    assert_eq!(check.listing_of(Side::Base), Listing::NotAttempted);
    assert_eq!(
        check.report(),
        "**tests of hello:** 😢 no comparison: base tests not attempted, to-check tests not attempted"
    );
    let mut half = Chk::new("hello".to_string());
    run_side(&mut half, false, &[("a", Some(true))]);
    assert_eq!(half.listing_of(Side::Base), Listing::Listed);
    assert_eq!(
        half.report(),
        "**tests of hello:** 😢 no comparison: base tests run, to-check tests not attempted"
    );
}

#[test]
fn run_tests_report_of_removed_added_and_updated_tests() {
    let check = compared(
        &[("a", Some(true)), ("b", Some(false))],
        &[("b", Some(true)), ("c", None)],
    );
    assert_eq!(
        check.report(),
        "**tests of hello:**\n\
         \x20 * *removed tests:* 😢 {\"a\": Some(true)}\n\
         \x20 * *added tests:*\n\
         \x20   * 😢 c was interrupted\n\
         \n\
         \x20 * *updated tests:*\n\
         \x20   * 💚 b started running successfully again\n\
         \n"
    );
}

#[test]
fn run_tests_report_of_removed_tests_only() {
    let check = compared(&[("a", Some(false)), ("b", None), ("c", Some(true))], &[]);
    assert_eq!(
        check.report(),
        "**tests of hello:**\n  * *removed tests:* 😢 {\"a\": Some(false), \"b\": None, \"c\": Some(true)}\n"
    );
}

#[test]
fn run_tests_report_of_added_tests_only() {
    let check = compared(&[], &[("a", Some(true)), ("b", Some(false)), ("c", None)]);
    assert_eq!(
        check.report(),
        "**tests of hello:**\n  * *added tests:*\n    * ✔ a was run successfully\n    * 😢 b was run unsuccessfully\n    * 😢 c was interrupted\n\n"
    );
}

#[test]
fn run_tests_report_of_every_kind_of_update() {
    let before = [
        ("ss", Some(true)),
        ("sf", Some(true)),
        ("fs", Some(false)),
        ("ff", Some(false)),
        ("ii", None),
    ];
    let after = [
        ("ss", Some(true)),
        ("sf", Some(false)),
        ("fs", Some(true)),
        ("ff", Some(false)),
        ("ii", None),
    ];
    assert_eq!(
        compared(&before, &after).report(),
        "**tests of hello:**\n  * *updated tests:*\n    * ✔ ss continued running successfully\n    * ❌ sf started failing\n    * 💚 fs started running successfully again\n    * 😢 ff still fails\n    * 😢 ii was interrupted twice\n\n"
    );
}

#[test]
fn run_tests_a_test_interrupted_on_one_side_is_reported_under_the_name_of_the_package() {
    assert_eq!(
        compared(&[("t", None)], &[("t", Some(true))]).report(),
        "**tests of hello:**\n  * *updated tests:*\n    * 😢 hello base build interrupted, to-check build passed\n"
    );
    assert_eq!(
        compared(&[("t", None)], &[("t", Some(false))]).report(),
        "**tests of hello:**\n  * *updated tests:*\n    * 😢 hello base build interrupted, to-check build did not pass\n"
    );
    assert_eq!(
        compared(&[("t", Some(true))], &[("t", None)]).report(),
        "**tests of hello:**\n  * *updated tests:*\n    * 😢 hello to-check build interrupted, base build passed\n"
    );
    assert_eq!(
        compared(&[("t", Some(false))], &[("t", None)]).report(),
        "**tests of hello:**\n  * *updated tests:*\n    * 😢 hello to-check build interrupted, base build did not pass\n"
    );
}

#[test]
fn run_tests_names_are_quoted_as_strings_in_the_list_of_removed_tests() {
    let check = compared(&[("with space", Some(true))], &[]);
    assert_eq!(
        check.report(),
        "**tests of hello:**\n  * *removed tests:* 😢 {\"with space\": Some(true)}\n"
    );
}

#[test]
fn run_tests_a_test_that_is_named_twice_counts_once_with_its_last_outcome() {
    let check = compared(&[], &[("a", Some(false)), ("b", Some(true)), ("a", Some(true))]);
    assert_eq!(
        check.report(),
        "**tests of hello:**\n  * *added tests:*\n    * ✔ a was run successfully\n    * ✔ b was run successfully\n\n"
    );
}

#[test]
fn run_tests_an_interrupted_listing_is_told_apart_from_a_listing_of_no_tests() {
    let mut check = compared(&[], &[]);
    check.run_after(Reply::Start).unwrap();
    assert_eq!(check.run_after(Reply::Ran(None)), Ok(None));
    assert_eq!(check.listing_of(Side::Base), Listing::Listed);
    assert_eq!(check.listing_of(Side::Candidate), Listing::Interrupted);
    assert_eq!(
        check.report(),
        "**tests of hello:** 😢 no comparison: base tests run, to-check tests interrupted"
    );
}

#[test]
fn run_tests_a_listing_that_reports_failure_is_kept_as_a_failure() {
    let mut check = compared(&[("a", Some(true))], &[("a", Some(true))]);
    check.run_before(Reply::Start).unwrap();
    let reply = Reply::Ran(Some(Output { success: false, stdout: b"not json".to_vec() }));
    assert_eq!(check.run_before(reply), Ok(None));
    assert_eq!(check.listing_of(Side::Base), Listing::Failed);
    assert_eq!(
        check.report(),
        "**tests of hello:** 😢 no comparison: base tests could not be listed, to-check tests run"
    );
}

#[test]
fn run_tests_a_listing_of_another_shape_names_no_test() {
    for stdout in ["{}", "null", "[\"a\", 1]", "\"a\"", "[[\"a\"]]"] {
        let mut check = Chk::new("hello".to_string());
        check.run_before(Reply::Start).unwrap();
        assert_eq!(check.run_before(printed(stdout)), Ok(None));
    }
}

#[test]
fn run_tests_a_malformed_listing_is_fatal() {
    let mut check = Chk::new("hello".to_string());
    check.run_before(Reply::Start).unwrap();
    assert_eq!(
        check.run_before(printed("[")),
        Err(Failure {
            cause: "EOF while parsing a list at line 1 column 1".to_string(),
            contexts: vec![
                "parsing the output of the nix command".to_string(),
                "recovering the list of tests for hello".to_string(),
            ],
        })
    );
    // The check is back at the start.
    assert!(matches!(check.run_before(Reply::Start), Ok(Some(Request::Run { .. }))));
}

#[test]
fn run_tests_commands_that_cannot_run_are_fatal() {
    let mut check = Chk::new("hello".to_string());
    check.run_after(Reply::Start).unwrap();
    assert_eq!(
        check.run_after(Reply::Failed(Failure::because("nix: not found"))),
        Err(Failure {
            cause: "nix: not found".to_string(),
            contexts: vec!["recovering the list of tests for hello".to_string()],
        })
    );
    check.run_after(Reply::Start).unwrap();
    check.run_after(printed("[\"simple\"]")).unwrap();
    check.run_after(Reply::Said).unwrap();
    assert_eq!(
        check.run_after(Reply::Failed(Failure::because("nix: not found"))),
        Err(Failure {
            cause: "nix: not found".to_string(),
            contexts: vec!["building to-check version of test simple in package hello".to_string()],
        })
    );
}

#[test]
fn run_tests_a_run_that_is_given_up_leaves_the_earlier_results() {
    let mut check = compared(&[("a", Some(true))], &[("a", Some(true))]);
    check.run_after(Reply::Start).unwrap();
    check.run_after(printed("[\"b\"]")).unwrap();
    check.run_after(Reply::Said).unwrap();
    assert!(check.run_after(Reply::Failed(Failure::because("gone"))).is_err());
    assert_eq!(
        check.report(),
        "**tests of hello:**\n  * *updated tests:*\n    * ✔ a continued running successfully\n\n"
    );
}

#[test]
fn run_tests_a_new_run_replaces_the_results_of_its_side() {
    let mut check = compared(&[("a", Some(true))], &[("a", Some(true))]);
    run_side(&mut check, true, &[("b", Some(false))]);
    assert_eq!(
        check.report(),
        "**tests of hello:**\n  * *removed tests:* 😢 {\"a\": Some(true)}\n  * *added tests:*\n    * 😢 b was run unsuccessfully\n\n"
    );
}

#[test]
fn run_tests_replies_out_of_turn_are_refused() {
    let refusal = Failure::because("the reply does not answer the request that was made");
    let mut check = Chk::new("hello".to_string());
    assert_eq!(check.run_before(Reply::Said), Err(refusal.clone()));
    check.run_before(Reply::Start).unwrap();
    assert_eq!(check.run_before(Reply::Said), Err(refusal.clone()));
    check.run_before(printed("[\"a\"]")).unwrap();
    assert_eq!(check.run_before(ended(Some(true))), Err(refusal.clone()));
    check.run_before(Reply::Said).unwrap();
    assert_eq!(check.run_before(Reply::Said), Err(refusal));
    assert_eq!(check.run_before(ended(Some(true))), Ok(None));
}
