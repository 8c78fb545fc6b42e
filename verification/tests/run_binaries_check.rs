use nixpkgs_check::checks::run_binaries::{binaries_among, is_wrapped, Chk};
use nixpkgs_check::exchange::{Arg, Location, Output, Reply, Request};
use nixpkgs_check::failure::Failure;
use nixpkgs_check::Check;

fn strings(items: &[&str]) -> Vec<String> {
    items.iter().map(|s| s.to_string()).collect()
}

fn entries(names: &[&str]) -> Vec<Option<String>> {
    names.iter().map(|name| Some(name.to_string())).collect()
}

fn bin_dir(side: &str) -> Location {
    Location { root: "/tmp/outs".to_string(), parts: strings(&[side, "bin"]) }
}

fn binary(side: &str, bin: &str) -> Location {
    Location { root: "/tmp/outs".to_string(), parts: strings(&[side, "bin", bin]) }
}

fn asking(side: &str, bin: &str, initial: Option<&str>) -> Request {
    Request::Ask {
        prompt: format!(
            "what arguments should we pass to the {} version of {} in package hello?",
            side, bin
        ),
        initial: initial.map(|text| text.to_string()),
    }
}

fn judging() -> Request {
    Request::Pick {
        prompt: "did the binary work?".to_string(),
        items: strings(&["Yes", "No", "Try again with other arguments"]),
        preselected: 2,
    }
}

fn ran() -> Reply {
    Reply::Ran(Some(Output { success: true, stdout: Vec::new() }))
}

/// A check that has listed `base` and `candidate` and offers the choice of binaries.
fn offered(base: &[&str], candidate: &[&str]) -> Chk {
    let mut check = Chk::new("hello".to_string(), "/tmp/outs".to_string());
    assert_eq!(
        check.run_after(Reply::Start),
        Ok(Some(Request::List { dir: bin_dir("base"), optional: true }))
    );
    assert_eq!(
        check.run_after(Reply::Listed(Some(entries(base)))),
        Ok(Some(Request::List { dir: bin_dir("to-check"), optional: false }))
    );
    assert!(matches!(
        check.run_after(Reply::Listed(Some(entries(candidate)))),
        Ok(Some(Request::Choose { .. }))
    ));
    check
}

/// Goes through one run of a binary, with the operator accepting the arguments offered
/// and saying `worked`.
fn try_once(check: &mut Chk, side: &str, bin: &str, worked: bool) -> Result<Option<Request>, Failure> {
    assert_eq!(
        check.run_after(Reply::Answered("--version".to_string())),
        Ok(Some(Request::Run {
            capture_stdout: false,
            program: binary(side, bin),
            args: vec![Arg::Text("--version".to_string())],
        }))
    );
    assert_eq!(check.run_after(ran()), Ok(Some(judging())));
    check.run_after(Reply::Picked(if worked { 0 } else { 1 }))
}

#[test]
fn run_binaries_name_and_identity() {
    let check = Chk::new("hello".to_string(), "/tmp/outs".to_string());
    assert_eq!(check.name(), "run-binaries(hello)");
    assert_eq!(check.uuid().text(), "72a00d38-3565-7d0f-526f-ac33a9764ba8-hello");
    assert!(check.additional_needed_tests().unwrap().is_empty());
}

#[test]
fn run_binaries_nothing_is_done_on_the_base_side() {
    let mut check = Chk::new("hello".to_string(), "/tmp/outs".to_string());
    assert_eq!(check.run_before(Reply::Start), Ok(None));
    assert_eq!(check.report(), "**binaries of hello:** 😢 binaries were not attempted");
}

#[test]
fn run_binaries_wrapped_programs_are_no_binaries() {
    assert!(is_wrapped(".hello-wrapped"));
    assert!(is_wrapped(".-wrapped"));
    assert!(!is_wrapped("hello-wrapped"));
    assert!(!is_wrapped(".hello"));
    assert!(!is_wrapped(".hello-wrapped_"));
    assert!(!is_wrapped(""));
    assert_eq!(
        binaries_among(&strings(&["hello", ".hello-wrapped", ".hidden", "x-wrapped", "hello"])),
        strings(&["hello", ".hidden", "x-wrapped"])
    );
}

#[test]
fn run_binaries_a_base_build_without_binaries_ends_the_check() {
    let mut check = Chk::new("hello".to_string(), "/tmp/outs".to_string());
    check.run_after(Reply::Start).unwrap();
    assert_eq!(check.run_after(Reply::Listed(None)), Ok(None));
    assert_eq!(
        check.report(),
        "**binaries of hello:** 😢 binaries were not attempted: the base build has none"
    );
    // It can be run again.
    assert!(matches!(check.run_after(Reply::Start), Ok(Some(Request::List { .. }))));
}

#[test]
fn run_binaries_the_binaries_of_the_candidate_are_offered() {
    let mut check = Chk::new("hello".to_string(), "/tmp/outs".to_string());
    check.run_after(Reply::Start).unwrap();
    check.run_after(Reply::Listed(Some(entries(&["old", "both", ".both-wrapped"])))).unwrap();
    assert_eq!(
        check.run_after(Reply::Listed(Some(entries(&["both", ".both-wrapped", "new"])))),
        Ok(Some(Request::Choose {
            prompt: "which binaries of package hello do you want to run?".to_string(),
            items: strings(&["both", "new"]),
            all_ticked: false,
        }))
    );
}

#[test]
fn run_binaries_nothing_ticked_means_nothing_run() {
    let mut check = offered(&["old", "both"], &["both", "new"]);
    assert_eq!(check.run_after(Reply::Chosen(Vec::new())), Ok(None));
    assert_eq!(
        check.report(),
        "**binaries of hello:**\n  * *removed binaries:* 😢 {\"old\"}\n  * *added binaries:*\n    * 😢 new was not run\n\n  * *updated binaries:*\n    * 😢 both was not run\n\n"
    );
}

#[test]
fn run_binaries_new_binaries_are_run_on_the_candidate_side_then_the_others_on_both() {
    let mut check = offered(&["old", "both"], &["both", "new", "skipped"]);
    assert_eq!(
        check.run_after(Reply::Chosen(vec![0, 1])),
        Ok(Some(asking("to-check", "new", Some("--version"))))
    );
    assert_eq!(
        try_once(&mut check, "to-check", "new", true),
        Ok(Some(asking("base", "both", Some("--version"))))
    );
    assert_eq!(
        try_once(&mut check, "base", "both", true),
        Ok(Some(asking("to-check", "both", Some("--version"))))
    );
    assert_eq!(try_once(&mut check, "to-check", "both", false), Ok(None));
    assert_eq!(
        check.report(),
        "**binaries of hello:**\n  * *removed binaries:* 😢 {\"old\"}\n  * *added binaries:*\n    * ✔ new was run successfully\n    * 😢 skipped was not run\n\n  * *updated binaries:*\n    * ❌ both started failing\n\n"
    );
}

#[test]
fn run_binaries_every_kind_of_update() {
    let bins = ["ss", "sf", "fs", "ff", "no"];
    let mut check = offered(&bins, &bins);
    let mut next = check.run_after(Reply::Chosen(vec![3, 2, 1, 0]));
    for (bin, before, after) in
        [("ss", true, true), ("sf", true, false), ("fs", false, true), ("ff", false, false)]
    {
        assert_eq!(next, Ok(Some(asking("base", bin, Some("--version")))));
        assert_eq!(
            try_once(&mut check, "base", bin, before),
            Ok(Some(asking("to-check", bin, Some("--version"))))
        );
        next = try_once(&mut check, "to-check", bin, after);
    }
    assert_eq!(next, Ok(None));
    assert_eq!(
        check.report(),
        "**binaries of hello:**\n  * *updated binaries:*\n    * ✔ ss continued running successfully\n    * ❌ sf started failing\n    * 💚 fs started running successfully again\n    * 😢 ff still fails\n    * 😢 no was not run\n\n"
    );
}

#[test]
fn run_binaries_added_binaries_only() {
    let mut check = offered(&[], &["a", "b", "c"]);
    assert_eq!(
        check.run_after(Reply::Chosen(vec![0, 1])),
        Ok(Some(asking("to-check", "a", Some("--version"))))
    );
    assert_eq!(
        try_once(&mut check, "to-check", "a", true),
        Ok(Some(asking("to-check", "b", Some("--version"))))
    );
    assert_eq!(try_once(&mut check, "to-check", "b", false), Ok(None));
    assert_eq!(
        check.report(),
        "**binaries of hello:**\n  * *added binaries:*\n    * ✔ a was run successfully\n    * 😢 b was run unsuccessfully\n    * 😢 c was not run\n\n"
    );
}

#[test]
fn run_binaries_removed_binaries_only() {
    let mut check = offered(&["a", "with \"quote\""], &[]);
    assert_eq!(check.run_after(Reply::Chosen(vec![0])), Ok(None));
    assert_eq!(
        check.report(),
        "**binaries of hello:**\n  * *removed binaries:* 😢 {\"a\", \"with \\\"quote\\\"\"}\n"
    );
}

#[test]
fn run_binaries_ticks_beyond_the_list_are_passed_over() {
    let mut check = offered(&[], &["a"]);
    assert_eq!(check.run_after(Reply::Chosen(vec![5, 1])), Ok(None));
    assert_eq!(
        check.report(),
        "**binaries of hello:**\n  * *added binaries:*\n    * 😢 a was not run\n\n"
    );
}

#[test]
fn run_binaries_the_operator_can_try_other_arguments() {
    let mut check = offered(&[], &["a"]);
    assert_eq!(
        check.run_after(Reply::Chosen(vec![0])),
        Ok(Some(asking("to-check", "a", Some("--version"))))
    );
    let offers = [Some("--help"), Some("-h"), Some("-V"), None, None, None];
    for offer in offers {
        assert!(matches!(
            check.run_after(Reply::Answered("x".to_string())),
            Ok(Some(Request::Run { .. }))
        ));
        assert_eq!(check.run_after(ran()), Ok(Some(judging())));
        assert_eq!(check.run_after(Reply::Picked(2)), Ok(Some(asking("to-check", "a", offer))));
    }
    assert!(check.run_after(Reply::Answered("x".to_string())).is_ok());
    check.run_after(ran()).unwrap();
    assert_eq!(check.run_after(Reply::Picked(1)), Ok(None));
    assert_eq!(
        check.report(),
        "**binaries of hello:**\n  * *added binaries:*\n    * 😢 a was run unsuccessfully\n\n"
    );
}

#[test]
fn run_binaries_the_offers_start_over_for_each_run() {
    let mut check = offered(&["a"], &["a"]);
    check.run_after(Reply::Chosen(vec![0])).unwrap();
    check.run_after(Reply::Answered(String::new())).unwrap();
    check.run_after(ran()).unwrap();
    assert_eq!(check.run_after(Reply::Picked(7)), Ok(Some(asking("base", "a", Some("--help")))));
    check.run_after(Reply::Answered(String::new())).unwrap();
    check.run_after(ran()).unwrap();
    assert_eq!(
        check.run_after(Reply::Picked(0)),
        Ok(Some(asking("to-check", "a", Some("--version"))))
    );
}

#[test]
fn run_binaries_the_line_of_the_operator_is_split_at_spaces() {
    let mut check = offered(&[], &["a"]);
    check.run_after(Reply::Chosen(vec![0])).unwrap();
    assert_eq!(
        check.run_after(Reply::Answered("-n  7 ".to_string())),
        Ok(Some(Request::Run {
            capture_stdout: false,
            program: binary("to-check", "a"),
            args: vec![
                Arg::Text("-n".to_string()),
                Arg::Text(String::new()),
                Arg::Text("7".to_string()),
                Arg::Text(String::new()),
            ],
        }))
    );
}

#[test]
fn run_binaries_an_empty_line_is_one_empty_argument() {
    let mut check = offered(&[], &["a"]);
    check.run_after(Reply::Chosen(vec![0])).unwrap();
    assert_eq!(
        check.run_after(Reply::Answered(String::new())),
        Ok(Some(Request::Run {
            capture_stdout: false,
            program: binary("to-check", "a"),
            args: vec![Arg::Text(String::new())],
        }))
    );
}

#[test]
fn run_binaries_the_status_of_the_binary_does_not_matter() {
    let mut check = offered(&[], &["a"]);
    check.run_after(Reply::Chosen(vec![0])).unwrap();
    check.run_after(Reply::Answered(String::new())).unwrap();
    let failed = Reply::Ran(Some(Output { success: false, stdout: Vec::new() }));
    assert_eq!(check.run_after(failed), Ok(Some(judging())));
    assert_eq!(check.run_after(Reply::Picked(0)), Ok(None));
    assert_eq!(
        check.report(),
        "**binaries of hello:**\n  * *added binaries:*\n    * ✔ a was run successfully\n\n"
    );
}

#[test]
fn run_binaries_an_interrupted_run_has_no_verdict_and_the_next_run_follows() {
    let mut check = offered(&["both"], &["both", "new"]);
    assert_eq!(
        check.run_after(Reply::Chosen(vec![0, 1])),
        Ok(Some(asking("to-check", "new", Some("--version"))))
    );
    check.run_after(Reply::Answered(String::new())).unwrap();
    assert_eq!(
        check.run_after(Reply::Ran(None)),
        Ok(Some(asking("base", "both", Some("--version"))))
    );
    assert_eq!(
        try_once(&mut check, "base", "both", true),
        Ok(Some(asking("to-check", "both", Some("--version"))))
    );
    check.run_after(Reply::Answered(String::new())).unwrap();
    assert_eq!(check.run_after(Reply::Ran(None)), Ok(None));
    assert_eq!(
        check.report(),
        "**binaries of hello:**\n  * *added binaries:*\n    * 😢 new was interrupted\n\n  * *updated binaries:*\n    * 😢 both was interrupted\n\n"
    );
}

#[test]
fn run_binaries_failures_say_what_was_under_way() {
    let gone = || Reply::Failed(Failure::because("gone"));
    let failed = |context: &str| {
        Err(Failure { cause: "gone".to_string(), contexts: vec![context.to_string()] })
    };
    let mut check = Chk::new("hello".to_string(), "/tmp/outs".to_string());
    check.run_after(Reply::Start).unwrap();
    assert_eq!(check.run_after(gone()), failed("listing the base binaries for hello"));

    check.run_after(Reply::Start).unwrap();
    check.run_after(Reply::Listed(Some(Vec::new()))).unwrap();
    assert_eq!(check.run_after(gone()), failed("listing the to-check binaries for hello"));

    let mut check = offered(&[], &["a"]);
    assert_eq!(
        check.run_after(gone()),
        failed("asking the user which binaries they want to run")
    );

    let mut check = offered(&[], &["a"]);
    check.run_after(Reply::Chosen(vec![0])).unwrap();
    assert_eq!(check.run_after(gone()), failed("asking the user what parameters to pass"));

    let mut check = offered(&[], &["a"]);
    check.run_after(Reply::Chosen(vec![0])).unwrap();
    check.run_after(Reply::Answered(String::new())).unwrap();
    assert_eq!(check.run_after(gone()), failed("running binary a of package hello"));

    let mut check = offered(&[], &["a"]);
    check.run_after(Reply::Chosen(vec![0])).unwrap();
    check.run_after(Reply::Answered(String::new())).unwrap();
    check.run_after(ran()).unwrap();
    assert_eq!(check.run_after(gone()), failed("asking the user whether the binary worked"));
}

#[test]
fn run_binaries_replies_out_of_turn_are_refused() {
    let refusal = Failure::because("the reply does not answer the request that was made");
    let mut check = Chk::new("hello".to_string(), "/tmp/outs".to_string());
    assert_eq!(check.run_after(Reply::Listed(None)), Err(refusal.clone()));
    assert_eq!(check.run_before(Reply::Said), Err(refusal.clone()));
    check.run_after(Reply::Start).unwrap();
    check.run_after(Reply::Listed(Some(Vec::new()))).unwrap();
    // The directory of the candidate side must exist.
    assert_eq!(check.run_after(Reply::Listed(None)), Err(refusal.clone()));
    let mut check = offered(&[], &["a"]);
    assert_eq!(check.run_after(Reply::Picked(0)), Err(refusal));
}

#[test]
fn run_binaries_a_name_that_is_no_text_is_fatal() {
    let mut check = Chk::new("hello".to_string(), "/tmp/outs".to_string());
    check.run_after(Reply::Start).unwrap();
    assert_eq!(
        check.run_after(Reply::Listed(Some(vec![Some("a".to_string()), None]))),
        Err(Failure::because("a base binary for {} had a non-utf8 name"))
    );
    check.run_after(Reply::Start).unwrap();
    check.run_after(Reply::Listed(Some(entries(&["a"])))).unwrap();
    assert_eq!(
        check.run_after(Reply::Listed(Some(vec![None]))),
        Err(Failure::because("a to-check binary for {} had a non-utf8 name"))
    );
    assert_eq!(check.report(), "**binaries of hello:** 😢 binaries were not attempted");
}

#[test]
fn run_binaries_builds_without_any_binary() {
    let mut check = offered(&[], &[]);
    assert_eq!(check.run_after(Reply::Chosen(Vec::new())), Ok(None));
    assert_eq!(check.report(), "**binaries of hello:** 😢 there are no binaries");
}

#[test]
fn run_binaries_a_binary_that_only_the_candidate_has_is_run_from_its_build() {
    let mut check = offered(&["old"], &["new"]);
    assert_eq!(
        check.run_after(Reply::Chosen(vec![0])),
        Ok(Some(asking("to-check", "new", Some("--version"))))
    );
    assert_eq!(
        check.run_after(Reply::Answered("--version".to_string())),
        Ok(Some(Request::Run {
            capture_stdout: false,
            program: binary("to-check", "new"),
            args: vec![Arg::Text("--version".to_string())],
        }))
    );
    assert_eq!(check.run_after(ran()), Ok(Some(judging())));
    assert_eq!(check.run_after(Reply::Picked(0)), Ok(None));
    assert_eq!(
        check.report(),
        "**binaries of hello:**\n  * *removed binaries:* 😢 {\"old\"}\n  * *added binaries:*\n    * ✔ new was run successfully\n\n"
    );
}
