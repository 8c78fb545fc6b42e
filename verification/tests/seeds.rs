use nixpkgs_check::checks::{
    ask_other_tests, ask_pkg_names, confirm_contributing, environment, self_version,
};
use nixpkgs_check::exchange::{Arg, Location, Output, Reply, Request, Tone};
use nixpkgs_check::failure::Failure;
use nixpkgs_check::{Check, State};

fn strings(items: &[&str]) -> Vec<String> {
    items.iter().map(|s| s.to_string()).collect()
}

fn printed(stdout: &str) -> Reply {
    Reply::Ran(Some(Output { success: true, stdout: stdout.as_bytes().to_vec() }))
}

fn more_packages() -> Request {
    Request::Ask {
        prompt: "what other packages do you want to test? [empty to stop]".to_string(),
        initial: None,
    }
}

fn more_tests() -> Request {
    Request::Ask {
        prompt: "what other manual tests did you run? [empty to stop]".to_string(),
        initial: None,
    }
}

fn say(tone: Tone, line: &str) -> Request {
    Request::Say { line: line.to_string(), tone }
}

fn confirm(prompt: &str) -> Request {
    Request::Confirm { prompt: prompt.to_string() }
}

#[test]
fn seeds_packages_are_offered_then_asked_for() {
    let mut check = ask_pkg_names::Chk::new(strings(&["hello", "world", "hello"]));
    assert_eq!(
        check.setup(Reply::Start),
        Ok(Some(Request::Choose {
            prompt: "which packages do you want to test? [space to select, enter to validate]"
                .to_string(),
            items: strings(&["hello", "world"]),
            all_ticked: true,
        }))
    );
    assert_eq!(check.setup(Reply::Chosen(vec![1, 0, 7, 1])), Ok(Some(more_packages())));
    assert_eq!(check.packages(), strings(&["world", "hello"]));
    assert_eq!(check.setup(Reply::Answered("extra".to_string())), Ok(Some(more_packages())));
    assert_eq!(check.setup(Reply::Answered("hello".to_string())), Ok(Some(more_packages())));
    assert_eq!(check.setup(Reply::Answered(String::new())), Ok(None));
    assert_eq!(check.packages(), strings(&["world", "hello", "extra"]));
}

#[test]
fn seeds_declared_packages_are_built() {
    let mut check = ask_pkg_names::Chk::new(strings(&["hello", "world"]));
    check.setup(Reply::Start).unwrap();
    check.setup(Reply::Chosen(vec![0, 1])).unwrap();
    check.setup(Reply::Answered(String::new())).unwrap();
    assert_eq!(check.name(), "ask-package-names");
    assert_eq!(check.uuid().text(), "d173872f-19b0-a1d3-0b96-ed9929e23250");
    assert_eq!(check.run_before(Reply::Start), Ok(None));
    assert_eq!(check.run_after(Reply::Start), Ok(None));
    let found: Vec<String> = check.additional_needed_tests().unwrap().iter().map(|c| c.name()).collect();
    assert_eq!(found, strings(&["build(hello)", "build(world)"]));
    assert_eq!(check.report(), "**packages declared changed:** {\"hello\", \"world\"}");
}

#[test]
fn seeds_no_package_declared() {
    let mut check = ask_pkg_names::Chk::new(Vec::new());
    check.setup(Reply::Start).unwrap();
    check.setup(Reply::Chosen(Vec::new())).unwrap();
    check.setup(Reply::Answered(String::new())).unwrap();
    assert!(check.additional_needed_tests().unwrap().is_empty());
    assert_eq!(check.report(), "**packages declared changed:** {}");
    assert_eq!(
        ask_pkg_names::Chk::new(Vec::new()).report(),
        "**packages declared changed:** 😢 the operator was not asked"
    );
}

#[test]
fn seeds_package_questions_that_fail() {
    let failed = Err(Failure {
        cause: "not a terminal".to_string(),
        contexts: strings(&["asking the user for package names"]),
    });
    let mut check = ask_pkg_names::Chk::new(Vec::new());
    check.setup(Reply::Start).unwrap();
    assert_eq!(check.setup(Reply::Failed(Failure::because("not a terminal"))), failed);
    check.setup(Reply::Chosen(Vec::new())).unwrap();
    assert_eq!(check.setup(Reply::Failed(Failure::because("not a terminal"))), failed);
    assert_eq!(
        check.setup(Reply::Said),
        Err(Failure::because("the reply does not answer the request that was made"))
    );
    assert!(check.run_before(Reply::Said).is_err());
}

#[test]
fn seeds_manual_tests_are_declared() {
    let mut check = ask_other_tests::Chk::new();
    assert_eq!(
        check.setup(Reply::Start),
        Ok(Some(Request::Choose {
            prompt: "on what machines did you already attempt building? [space to select, enter to validate]".to_string(),
            items: strings(&["NixOS", "MacOS", "Other Linux distributions"]),
            all_ticked: false,
        }))
    );
    assert_eq!(check.setup(Reply::Chosen(vec![2, 0])), Ok(Some(more_tests())));
    assert_eq!(
        check.setup(Reply::Answered("ran hello --version".to_string())),
        Ok(Some(more_tests()))
    );
    assert_eq!(check.setup(Reply::Answered(String::new())), Ok(None));
    assert_eq!(
        check.tests(),
        strings(&[
            "✔ built on NixOS",
            "😢 not built on MacOS",
            "✔ built on Other Linux distributions",
            "ran hello --version",
        ])
    );
    assert_eq!(
        check.report(),
        "**manual tests declared performed:**\n * ✔ built on NixOS\n * 😢 not built on MacOS\n * ✔ built on Other Linux distributions\n * ran hello --version\n"
    );
    assert_eq!(check.name(), "ask-other-tests");
    assert_eq!(check.uuid().text(), "ddcd70b4-62d6-ff6d-9371-88828a142d7b");
    assert_eq!(check.run_before(Reply::Start), Ok(None));
    assert_eq!(check.run_after(Reply::Start), Ok(None));
    assert!(check.additional_needed_tests().unwrap().is_empty());
}

#[test]
fn seeds_manual_tests_before_any_answer() {
    assert_eq!(
        ask_other_tests::Chk::new().report(),
        "**manual tests declared performed:** 😢 the operator was not asked"
    );
}

#[test]
fn seeds_manual_test_questions_that_fail() {
    let mut check = ask_other_tests::Chk::new();
    check.setup(Reply::Start).unwrap();
    assert_eq!(
        check.setup(Reply::Failed(Failure::because("not a terminal"))),
        Err(Failure {
            cause: "not a terminal".to_string(),
            contexts: strings(&["asking the user on which machine they already attempted building"]),
        })
    );
    check.setup(Reply::Chosen(Vec::new())).unwrap();
    assert_eq!(
        check.setup(Reply::Failed(Failure::because("not a terminal"))),
        Err(Failure {
            cause: "not a terminal".to_string(),
            contexts: strings(&["asking the user for other tests"]),
        })
    );
}

#[test]
fn seeds_guidelines_that_were_read_are_not_shown_again() {
    let state = State { last_contributing: Some("be kind\n".to_string()) };
    let mut check = confirm_contributing::Chk::new(&state, "be kind\n".to_string());
    assert_eq!(
        check.setup(Reply::Start),
        Ok(Some(confirm("do the changes respect the rules of CONTRIBUTING.md?")))
    );
    assert_eq!(check.setup(Reply::Confirmed(true)), Ok(None));
    assert!(check.confirmed());
    assert_eq!(check.report(), "**complies with contributing.md:** ✔ yes");
}

#[test]
fn seeds_guidelines_that_were_never_read_are_shown_whole() {
    let mut state = State::default();
    let mut check = confirm_contributing::Chk::new(&state, "be kind\nbe brief\n".to_string());
    assert_eq!(
        check.setup(Reply::Start),
        Ok(Some(say(Tone::Strong, "CONTRIBUTING.md changed since you last read it")))
    );
    assert_eq!(check.setup(Reply::Said), Ok(Some(say(Tone::Plain, "--------------------"))));
    assert_eq!(check.setup(Reply::Said), Ok(Some(say(Tone::Added, "+be kind"))));
    assert_eq!(check.setup(Reply::Said), Ok(Some(say(Tone::Added, "+be brief"))));
    assert_eq!(check.setup(Reply::Said), Ok(Some(say(Tone::Added, "+"))));
    assert_eq!(check.setup(Reply::Said), Ok(Some(say(Tone::Plain, "--------------------"))));
    assert_eq!(check.setup(Reply::Said), Ok(Some(confirm("did you read the changes?"))));
    // Nothing is remembered before the operator says that they read it.
    check.remember(&mut state);
    assert_eq!(state, State::default());
    assert_eq!(
        check.setup(Reply::Confirmed(false)),
        Ok(Some(say(Tone::Plain, "please read the changes to CONTRIBUTING.md to proceed")))
    );
    assert_eq!(check.setup(Reply::Said), Ok(Some(confirm("did you read the changes?"))));
    assert_eq!(
        check.setup(Reply::Confirmed(true)),
        Ok(Some(confirm("do the changes respect the rules of CONTRIBUTING.md?")))
    );
    assert_eq!(check.setup(Reply::Confirmed(false)), Ok(None));
    assert!(!check.confirmed());
    assert_eq!(check.report(), "**complies with contributing.md:** 😢 no");
    check.remember(&mut state);
    assert_eq!(state, State { last_contributing: Some("be kind\nbe brief\n".to_string()) });
}

#[test]
fn seeds_changes_to_the_guidelines_are_set_off() {
    let state = State { last_contributing: Some("be kind\nbe brief".to_string()) };
    let mut check = confirm_contributing::Chk::new(&state, "be kind\nbe clear".to_string());
    let mut shown = Vec::new();
    let mut step = check.setup(Reply::Start);
    while let Ok(Some(Request::Say { line, tone })) = step {
        shown.push((tone, line));
        step = check.setup(Reply::Said);
    }
    assert_eq!(step, Ok(Some(confirm("did you read the changes?"))));
    assert_eq!(
        shown,
        vec![
            (Tone::Strong, "CONTRIBUTING.md changed since you last read it".to_string()),
            (Tone::Plain, "--------------------".to_string()),
            (Tone::Plain, " be kind".to_string()),
            (Tone::Removed, "-be brief".to_string()),
            (Tone::Added, "+be clear".to_string()),
            (Tone::Plain, "--------------------".to_string()),
        ]
    );
}

#[test]
fn seeds_guidelines_check_by_itself() {
    let mut check = confirm_contributing::Chk::new(&State::default(), String::new());
    assert_eq!(check.name(), "confirm-contributing");
    assert_eq!(check.uuid().text(), "5281f549-2247-19a2-b610-4c3a5fbc9c12");
    assert_eq!(
        check.report(),
        "**complies with contributing.md:** 😢 the operator was not asked"
    );
    assert_eq!(check.run_before(Reply::Start), Ok(None));
    assert_eq!(check.run_after(Reply::Start), Ok(None));
    assert!(check.additional_needed_tests().unwrap().is_empty());
    assert!(check.setup(Reply::Confirmed(true)).is_err());
}

#[test]
fn seeds_guideline_questions_that_fail() {
    let state = State { last_contributing: Some("x".to_string()) };
    let mut check = confirm_contributing::Chk::new(&state, "x".to_string());
    check.setup(Reply::Start).unwrap();
    assert_eq!(
        check.setup(Reply::Failed(Failure::because("not a terminal"))),
        Err(Failure {
            cause: "not a terminal".to_string(),
            contexts: strings(&["asking the user whether the changes respect CONTRIBUTING.md"]),
        })
    );
    let mut check = confirm_contributing::Chk::new(&State::default(), String::new());
    let mut step = check.setup(Reply::Start);
    while let Ok(Some(Request::Say { .. })) = step {
        step = check.setup(Reply::Said);
    }
    assert_eq!(
        check.setup(Reply::Failed(Failure::because("not a terminal"))),
        Err(Failure {
            cause: "not a terminal".to_string(),
            contexts: strings(&["asking the user for reading the contributing.md changes"]),
        })
    );
}

fn probe() -> environment::Chk {
    environment::Chk::new(
        "nixpkgs-check".to_string(),
        "0.1.0".to_string(),
        "NixOS 20.09".to_string(),
    )
}

#[test]
fn seeds_the_environment_is_probed() {
    let mut check = probe();
    assert_eq!(
        check.setup(Reply::Start),
        Ok(Some(Request::Run {
            capture_stdout: true,
            program: Location { root: "nix".to_string(), parts: Vec::new() },
            args: vec![Arg::Text("show-config".to_string()), Arg::Text("--json".to_string())],
        }))
    );
    assert_eq!(
        check.setup(printed("{\"sandbox\": {\"value\": \"true\"}, \"cores\": {\"value\": 0}}")),
        Ok(None)
    );
    assert_eq!(check.sandboxing(), Some("true".to_string()));
    assert_eq!(
        check.report(),
        "**version:** `nixpkgs-check v0.1.0` on NixOS 20.09, sandbox = \"true\""
    );
    assert_eq!(check.name(), "environment");
    assert_eq!(check.uuid().text(), "d203e52c-069e-ce82-dde3-c43cf82723f8");
    assert_eq!(check.run_before(Reply::Start), Ok(None));
    assert_eq!(check.run_after(Reply::Start), Ok(None));
    assert!(check.additional_needed_tests().unwrap().is_empty());
}

#[test]
fn seeds_the_environment_before_the_probe() {
    assert_eq!(probe().sandboxing(), None);
    assert_eq!(
        probe().report(),
        "**version:** `nixpkgs-check v0.1.0` on NixOS 20.09, sandbox unknown (probe not attempted)"
    );
}

#[test]
fn seeds_an_interrupted_probe_is_no_error() {
    let mut check = probe();
    check.setup(Reply::Start).unwrap();
    assert_eq!(check.setup(Reply::Ran(None)), Ok(None));
    assert_eq!(check.sandboxing(), None);
    assert_eq!(
        check.report(),
        "**version:** `nixpkgs-check v0.1.0` on NixOS 20.09, sandbox unknown (probe interrupted)"
    );
    assert_eq!(check.run_before(Reply::Start), Ok(None));
}

#[test]
fn seeds_a_probe_that_reports_failure_is_no_error() {
    let mut check = probe();
    check.setup(Reply::Start).unwrap();
    let reply = Reply::Ran(Some(Output { success: false, stdout: b"{".to_vec() }));
    assert_eq!(check.setup(reply), Ok(None));
    assert_eq!(
        check.report(),
        "**version:** `nixpkgs-check v0.1.0` on NixOS 20.09, sandbox unknown (probe failed)"
    );
}

#[test]
fn seeds_a_probe_that_cannot_be_read_is_fatal() {
    let mut check = probe();
    check.setup(Reply::Start).unwrap();
    assert_eq!(
        check.setup(printed("{")),
        Err(Failure {
            cause: "EOF while parsing an object at line 1 column 1".to_string(),
            contexts: strings(&[
                "parsing the output of the nix command",
                "reading nix's config",
                "checking the environment",
            ]),
        })
    );
    check.setup(Reply::Start).unwrap();
    assert_eq!(
        check.setup(printed("{\"sandbox\": {}}")),
        Err(Failure {
            cause: "nix show-config does not give the value of the sandboxing state".to_string(),
            contexts: strings(&["checking the environment"]),
        })
    );
    check.setup(Reply::Start).unwrap();
    assert_eq!(
        check.setup(Reply::Failed(Failure::because("nix: not found"))),
        Err(Failure {
            cause: "nix: not found".to_string(),
            contexts: strings(&["reading nix's config", "checking the environment"]),
        })
    );
}

#[test]
fn seeds_the_version_of_the_tool() {
    let mut check =
        self_version::Chk::new("nixpkgs-check".to_string(), "0.1.0".to_string(), "Arch 1".to_string());
    assert_eq!(check.name(), "check-self-version");
    assert_eq!(check.uuid().text(), "9c1f4a7e-2d3b-48c6-a5e0-f1b27d8c3e49");
    assert_eq!(check.report(), "**version:** `nixpkgs-check v0.1.0` on Arch 1");
    assert_eq!(check.run_before(Reply::Start), Ok(None));
    assert_eq!(check.run_after(Reply::Start), Ok(None));
    assert!(check.run_after(Reply::Said).is_err());
    assert!(check.additional_needed_tests().unwrap().is_empty());
}
