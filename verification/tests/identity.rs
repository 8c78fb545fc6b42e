use nixpkgs_check::checks::{build_pkg, closure_size, environment, self_version};
use nixpkgs_check::identity::CheckId;
use nixpkgs_check::Check;

#[test]
fn identity_plain_identity_is_the_hyphenated_kind() {
    let id = CheckId::from_uuid(0xd203e52c069ece82dde3c43cf82723f8);
    assert_eq!(id.text(), "d203e52c-069e-ce82-dde3-c43cf82723f8");
}

#[test]
fn identity_leading_zero_digits_are_written_out() {
    let id = CheckId::from_uuid(0x4949d1064292d3b9f7048307b0e9ce7);
    assert_eq!(id.text(), "04949d10-6429-2d3b-9f70-48307b0e9ce7");
}

#[test]
fn identity_smallest_and_largest_values() {
    assert_eq!(CheckId::from_uuid(0).text(), "00000000-0000-0000-0000-000000000000");
    assert_eq!(CheckId::from_uuid(u128::MAX).text(), "ffffffff-ffff-ffff-ffff-ffffffffffff");
    assert_eq!(
        CheckId::from_uuid(0x0123456789abcdef0123456789abcdef).text(),
        "01234567-89ab-cdef-0123-456789abcdef"
    );
}

#[test]
fn identity_parameter_follows_a_hyphen() {
    let id = CheckId::from_uuid_param(0xe2ab3c62ae1f22bd6eee85fb675eaa53, "hello");
    assert_eq!(id.text(), "e2ab3c62-ae1f-22bd-6eee-85fb675eaa53-hello");
}

#[test]
fn identity_empty_parameter_still_differs_from_plain() {
    let plain = CheckId::from_uuid(0xe2ab3c62ae1f22bd6eee85fb675eaa53);
    let with_empty = CheckId::from_uuid_param(0xe2ab3c62ae1f22bd6eee85fb675eaa53, "");
    assert_eq!(with_empty.text(), "e2ab3c62-ae1f-22bd-6eee-85fb675eaa53-");
    assert!(plain != with_empty);
}

#[test]
fn identity_identities_compare_by_text() {
    let a = CheckId::from_uuid_param(1, "x");
    let b = CheckId::from_uuid_param(1, "x");
    let c = CheckId::from_uuid_param(1, "y");
    let d = CheckId::from_uuid_param(2, "x");
    assert!(a == b);
    assert!(a != c);
    assert!(a != d);
    assert!(a.duplicate() == a);
}

#[test]
fn identity_same_kind_and_package_share_an_identity() {
    let one = build_pkg::Chk::new("hello".to_string());
    let other = build_pkg::Chk::new("hello".to_string());
    let third = build_pkg::Chk::new("world".to_string());
    assert!(one.uuid() == other.uuid());
    assert!(one.uuid() != third.uuid());
}

#[test]
fn identity_different_kinds_of_one_package_differ() {
    let build = build_pkg::Chk::new("hello".to_string());
    let size = closure_size::Chk::new("hello".to_string());
    assert!(build.uuid() != size.uuid());
    assert_eq!(size.uuid().text(), "04949d10-6429-2d3b-9f70-48307b0e9ce7-hello");
}

#[test]
fn identity_every_kind_has_a_token_of_its_own() {
    let env = environment::Chk::new("t".to_string(), "1".to_string(), "p".to_string());
    let own = self_version::Chk::new("t".to_string(), "1".to_string(), "p".to_string());
    assert!(env.uuid() != own.uuid());
    assert_eq!(env.uuid().text(), "d203e52c-069e-ce82-dde3-c43cf82723f8");
    assert_eq!(own.uuid().text(), "9c1f4a7e-2d3b-48c6-a5e0-f1b27d8c3e49");
}
