use nixpkgs_check::checks::closure_size::{closure_size_of, Chk, Measure};
use nixpkgs_check::exchange::{Arg, Location, Output, Reply, Request, Side};
use nixpkgs_check::failure::Failure;
use nixpkgs_check::json::parse;
use nixpkgs_check::Check;

fn printed(stdout: &str) -> Reply {
    Reply::Ran(Some(Output { success: true, stdout: stdout.as_bytes().to_vec() }))
}

fn sized(before: u64, after: u64) -> Chk {
    let mut check = Chk::new("hello".to_string());
    check.run_before(Reply::Start).unwrap();
    check.run_before(printed(&format!("[{{\"closureSize\": {}}}]", before))).unwrap();
    check.run_after(Reply::Start).unwrap();
    check.run_after(printed(&format!("[{{\"closureSize\": {}}}]", after))).unwrap();
    check
}

#[test]
fn closure_size_name_and_identity() {
    let check = Chk::new("hello".to_string());
    assert_eq!(check.name(), "closure-size(hello)");
    assert_eq!(check.uuid().text(), "04949d10-6429-2d3b-9f70-48307b0e9ce7-hello");
    assert!(check.additional_needed_tests().unwrap().is_empty());
}

#[test]
fn closure_size_the_measuring_command() {
    let mut check = Chk::new("hello".to_string());
    assert_eq!(
        check.run_before(Reply::Start),
        Ok(Some(Request::Run {
            capture_stdout: true,
            program: Location { root: "nix".to_string(), parts: Vec::new() },
            args: vec![
                Arg::Text("path-info".to_string()),
                Arg::Text("--json".to_string()),
                Arg::Text("-S".to_string()),
                Arg::Text("((import ./. { overlays = []; }).hello)".to_string()),
            ],
        }))
    );
}

#[test]
fn closure_size_sizes_are_kept_by_side() {
    let check = sized(1000, 2000);
    assert_eq!(check.measure(Side::Base), Measure::Size(1000));
    assert_eq!(check.measure(Side::Candidate), Measure::Size(2000));
}

#[test]
fn closure_size_a_command_that_reports_failure_is_kept_as_a_failure() {
    let mut check = sized(1000, 2000);
    check.run_before(Reply::Start).unwrap();
    let reply = Reply::Ran(Some(Output {
        success: false,
        stdout: b"[{\"closureSize\": 7}]".to_vec(),
    }));
    assert_eq!(check.run_before(reply), Ok(None));
    assert_eq!(check.measure(Side::Base), Measure::Failed);
    assert_eq!(
        check.report(),
        "**closure size for hello:** 😢 size query failed: base measurement failed, to-check measurement done"
    );
}

#[test]
fn closure_size_what_a_failed_command_printed_is_not_read() {
    let mut check = Chk::new("hello".to_string());
    check.run_after(Reply::Start).unwrap();
    let reply = Reply::Ran(Some(Output { success: false, stdout: b"error: no".to_vec() }));
    assert_eq!(check.run_after(reply), Ok(None));
    assert_eq!(check.measure(Side::Candidate), Measure::Failed);
    assert_eq!(
        check.report(),
        "**closure size for hello:** 😢 check was interrupted"
    );
}

#[test]
fn closure_size_an_interrupted_measurement_leaves_no_size() {
    let mut check = sized(1000, 2000);
    check.run_after(Reply::Start).unwrap();
    assert_eq!(check.run_after(Reply::Ran(None)), Ok(None));
    assert_eq!(check.measure(Side::Base), Measure::Size(1000));
    assert_eq!(check.measure(Side::Candidate), Measure::Interrupted);
    assert_eq!(
        check.report(),
        "**closure size for hello:** 😢 check was interrupted"
    );
}

#[test]
fn closure_size_report_of_a_check_that_never_ran() {
    let check = Chk::new("hello".to_string());
    assert_eq!(check.measure(Side::Base), Measure::NotAttempted);
    assert_eq!(
        check.report(),
        "**closure size for hello:** 😢 check was interrupted"
    );
}

#[test]
fn closure_size_a_small_change_is_fine() {
    assert_eq!(
        sized(1000, 1000).report(),
        "**closure size for hello:** ✔ decreased by 0 B, from 1.0 KB to 1.0 KB"
    );
    assert_eq!(
        sized(1000, 1090).report(),
        "**closure size for hello:** ✔ increased by 90 B, from 1.0 KB to 1.1 KB"
    );
    assert_eq!(
        sized(2000, 1801).report(),
        "**closure size for hello:** ✔ decreased by 199 B, from 2.0 KB to 1.8 KB"
    );
}

#[test]
fn closure_size_a_tenth_of_the_size_is_no_small_change() {
    assert_eq!(
        sized(1000, 1100).report(),
        "**closure size for hello:** 💚 increased by 100 B, from 1.0 KB to 1.1 KB"
    );
    assert_eq!(
        sized(1000, 900).report(),
        "**closure size for hello:** 😢 decreased by 100 B, from 1.0 KB to 900 B"
    );
    // The tenth is rounded down.
    assert_eq!(
        sized(19, 20).report(),
        "**closure size for hello:** 💚 increased by 1 B, from 19 B to 20 B"
    );
}

#[test]
fn closure_size_large_changes() {
    assert_eq!(
        sized(1000, 2000).report(),
        "**closure size for hello:** 💚 increased by 1.0 KB, from 1.0 KB to 2.0 KB"
    );
    assert_eq!(
        sized(3_000_000, 1_500_000).report(),
        "**closure size for hello:** 😢 decreased by 1.5 MB, from 3.0 MB to 1.5 MB"
    );
    assert_eq!(
        sized(0, 0).report(),
        "**closure size for hello:** 😢 decreased by 0 B, from 0 B to 0 B"
    );
}

#[test]
fn closure_size_sizes_beyond_the_signed_range_are_reported_too() {
    assert_eq!(
        sized(u64::MAX, 0).report(),
        "**closure size for hello:** 😢 decreased by 18.4 EB, from 18.4 EB to 0 B"
    );
    assert_eq!(
        sized(0, u64::MAX).report(),
        "**closure size for hello:** 💚 increased by 18.4 EB, from 0 B to 18.4 EB"
    );
}

#[test]
fn closure_size_reading_the_size_off_a_document() {
    let document = parse(b"[{\"path\": \"/nix/store/x\", \"closureSize\": 123456}, {\"closureSize\": 1}]").unwrap();
    assert_eq!(closure_size_of(&document), Ok(123456));
    let largest = parse(b"[{\"closureSize\": 18446744073709551615}]").unwrap();
    assert_eq!(closure_size_of(&largest), Ok(u64::MAX));
}

#[test]
fn closure_size_a_document_that_is_no_array() {
    let refusal = Err(Failure::because("output of nix path-info -S is not an array"));
    assert_eq!(closure_size_of(&parse(b"{\"closureSize\": 1}").unwrap()), refusal);
    assert_eq!(closure_size_of(&parse(b"[]").unwrap()), refusal);
    assert_eq!(closure_size_of(&parse(b"null").unwrap()), refusal);
    assert_eq!(closure_size_of(&parse(b"12").unwrap()), refusal);
}

#[test]
fn closure_size_a_path_without_closure_size() {
    let refusal =
        Err(Failure::because("output of nix path-info -S does not have closureSize element"));
    assert_eq!(closure_size_of(&parse(b"[{\"narSize\": 1}]").unwrap()), refusal);
    assert_eq!(closure_size_of(&parse(b"[[1]]").unwrap()), refusal);
    assert_eq!(closure_size_of(&parse(b"[\"closureSize\"]").unwrap()), refusal);
}

#[test]
fn closure_size_a_closure_size_that_is_no_integer() {
    let refusal =
        Err(Failure::because("output of nix path-info -S has a non-integer closureSize"));
    assert_eq!(closure_size_of(&parse(b"[{\"closureSize\": \"big\"}]").unwrap()), refusal);
    assert_eq!(closure_size_of(&parse(b"[{\"closureSize\": -1}]").unwrap()), refusal);
    assert_eq!(closure_size_of(&parse(b"[{\"closureSize\": 1.5}]").unwrap()), refusal);
    assert_eq!(closure_size_of(&parse(b"[{\"closureSize\": null}]").unwrap()), refusal);
}

#[test]
fn closure_size_a_malformed_document_is_fatal_and_says_where_it_was_read() {
    let mut check = Chk::new("hello".to_string());
    check.run_after(Reply::Start).unwrap();
    assert_eq!(
        check.run_after(printed("not json")),
        Err(Failure {
            cause: "expected ident at line 1 column 2".to_string(),
            contexts: vec![
                "parsing the output of the nix command".to_string(),
                "getting closure size of the to-check version of package hello".to_string(),
            ],
        })
    );
    assert_eq!(check.measure(Side::Candidate), Measure::NotAttempted);
}

#[test]
fn closure_size_a_document_of_the_wrong_shape_is_fatal() {
    let mut check = Chk::new("hello".to_string());
    check.run_before(Reply::Start).unwrap();
    assert_eq!(
        check.run_before(printed("{}")),
        Err(Failure::because("output of nix path-info -S is not an array"))
    );
}

#[test]
fn closure_size_a_command_that_cannot_run_is_fatal() {
    let mut check = Chk::new("hello".to_string());
    check.run_before(Reply::Start).unwrap();
    assert_eq!(
        check.run_before(Reply::Failed(Failure::because("nix: not found"))),
        Err(Failure {
            cause: "nix: not found".to_string(),
            contexts: vec!["getting closure size of the base version of package hello".to_string()],
        })
    );
}

#[test]
fn closure_size_replies_out_of_turn_are_refused() {
    let refusal = Failure::because("the reply does not answer the request that was made");
    let mut check = Chk::new("hello".to_string());
    assert_eq!(check.run_before(printed("[]")), Err(refusal.clone()));
    check.run_before(Reply::Start).unwrap();
    assert_eq!(check.run_before(Reply::Start), Err(refusal.clone()));
    assert_eq!(check.run_before(Reply::Said), Err(refusal));
}

#[test]
fn closure_size_both_measurements_failed() {
    let mut check = Chk::new("hello".to_string());
    let failed = || Reply::Ran(Some(Output { success: false, stdout: Vec::new() }));
    check.run_before(Reply::Start).unwrap();
    check.run_before(failed()).unwrap();
    check.run_after(Reply::Start).unwrap();
    check.run_after(failed()).unwrap();
    assert_eq!(
        check.report(),
        "**closure size for hello:** 😢 size query failed: base measurement failed, to-check measurement failed"
    );
}

#[test]
fn closure_size_the_paragraph_is_built_from_the_texts_of_the_sizes() {
    let check = sized(1000, 1090);
    assert_eq!(
        check.paragraph("a", "b", "c"),
        "**closure size for hello:** ✔ increased by a, from b to c"
    );
    assert_eq!(check.paragraph("90 B", "1.0 KB", "1.1 KB"), check.report());
    let fresh = Chk::new("hello".to_string());
    assert_eq!(fresh.paragraph("a", "b", "c"), "**closure size for hello:** 😢 check was interrupted");
}

#[test]
fn closure_size_sizes_below_a_thousand_bytes_are_shown_in_bytes() {
    assert_eq!(
        sized(0, 999).report(),
        "**closure size for hello:** 💚 increased by 999 B, from 0 B to 999 B"
    );
    assert_eq!(
        sized(100, 7).report(),
        "**closure size for hello:** 😢 decreased by 93 B, from 100 B to 7 B"
    );
}
