use nixpkgs_check::{nix_eval_for, nixpkgs};

#[test]
fn expressions_package_set_expression_is_fixed() {
    assert_eq!(nixpkgs(), "(import ./. { overlays = []; })");
}

#[test]
fn expressions_attribute_expression_wraps_the_package_set() {
    assert_eq!(nix_eval_for("hello"), "((import ./. { overlays = []; }).hello)");
}
