use nixpkgs_check::checks::environment::sandboxing_of;
use nixpkgs_check::failure::Failure;
use nixpkgs_check::json::{parse, texts};

#[test]
fn json_parsing_what_nix_prints() {
    let document = parse(b" {\"a\": [1, 2, {\"b\": null}]} ").unwrap();
    assert_eq!(document["a"][2]["b"], serde_json::Value::Null);
    assert_eq!(document["a"][1], serde_json::Value::from(2u64));
}

#[test]
fn json_parsing_fails_with_the_complaint_of_the_parser() {
    assert_eq!(
        parse(b""),
        Err(Failure {
            cause: "EOF while parsing a value at line 1 column 0".to_string(),
            contexts: vec!["parsing the output of the nix command".to_string()],
        })
    );
    assert_eq!(
        parse(b"[1,"),
        Err(Failure {
            cause: "EOF while parsing a value at line 1 column 3".to_string(),
            contexts: vec!["parsing the output of the nix command".to_string()],
        })
    );
    assert!(parse(b"[1] x").is_err());
    assert!(parse(&[0xff, 0xfe]).is_err());
}

#[test]
fn json_texts_of_an_array_of_strings() {
    assert_eq!(
        texts(&parse(b"[\"simple\", \"with space\", \"\"]").unwrap()),
        Some(vec!["simple".to_string(), "with space".to_string(), String::new()])
    );
    assert_eq!(texts(&parse(b"[]").unwrap()), Some(Vec::new()));
}

#[test]
fn json_texts_of_anything_else() {
    assert_eq!(texts(&parse(b"[\"a\", 1]").unwrap()), None);
    assert_eq!(texts(&parse(b"[[\"a\"]]").unwrap()), None);
    assert_eq!(texts(&parse(b"{\"a\": \"b\"}").unwrap()), None);
    assert_eq!(texts(&parse(b"\"a\"").unwrap()), None);
    assert_eq!(texts(&parse(b"null").unwrap()), None);
}

#[test]
fn json_the_sandbox_setting() {
    let document = parse(b"{\"sandbox\": {\"value\": \"true\", \"description\": \"x\"}}").unwrap();
    assert_eq!(sandboxing_of(&document), Ok("true".to_string()));
    let relaxed = parse(b"{\"cores\": {\"value\": 0}, \"sandbox\": {\"value\": \"relaxed\"}}").unwrap();
    assert_eq!(sandboxing_of(&relaxed), Ok("relaxed".to_string()));
}

#[test]
fn json_a_configuration_without_sandbox_setting() {
    let refusal = Err(Failure::because("nix show-config does not list the sandboxing state"));
    assert_eq!(sandboxing_of(&parse(b"{}").unwrap()), refusal);
    assert_eq!(sandboxing_of(&parse(b"[\"sandbox\"]").unwrap()), refusal);
    assert_eq!(sandboxing_of(&parse(b"{\"Sandbox\": {\"value\": \"true\"}}").unwrap()), refusal);
}

#[test]
fn json_a_sandbox_setting_without_value() {
    let refusal = Err(Failure::because(
        "nix show-config does not give the value of the sandboxing state",
    ));
    assert_eq!(sandboxing_of(&parse(b"{\"sandbox\": {}}").unwrap()), refusal);
    assert_eq!(sandboxing_of(&parse(b"{\"sandbox\": \"true\"}").unwrap()), refusal);
    assert_eq!(sandboxing_of(&parse(b"{\"sandbox\": [\"value\"]}").unwrap()), refusal);
}

#[test]
fn json_a_sandbox_setting_that_is_no_string() {
    let refusal = Err(Failure::because("nix show-config's sandboxing state is not a string"));
    assert_eq!(sandboxing_of(&parse(b"{\"sandbox\": {\"value\": true}}").unwrap()), refusal);
    assert_eq!(sandboxing_of(&parse(b"{\"sandbox\": {\"value\": 1}}").unwrap()), refusal);
    assert_eq!(sandboxing_of(&parse(b"{\"sandbox\": {\"value\": null}}").unwrap()), refusal);
}

#[test]
fn json_of_repeated_keys_the_last_counts() {
    let document = parse(b"{\"sandbox\": {\"value\": \"false\"}, \"sandbox\": {\"value\": \"true\"}}").unwrap();
    assert_eq!(sandboxing_of(&document), Ok("true".to_string()));
}
