use vbranch::branch::BranchCreateRequest;
use vbranch::branch::BranchUpdateRequest;
use vbranch::oid::Oid;
use vbranch::ownership::Ownership;
use vbranch::refname::RemoteBranchName;
use vbranch::text::parse_bool;
use vbranch::text::parse_u128;
use vbranch::text::parse_usize;
use vbranch::text::str_eq;

#[test]
fn parse_u128_exact_values() {
    assert_eq!(parse_u128("0"), Some(0));
    assert_eq!(parse_u128("1000"), Some(1000));
    assert_eq!(parse_u128("007"), Some(7));
    assert_eq!(
        parse_u128("340282366920938463463374607431768211455"),
        Some(u128::MAX)
    );
}

#[test]
fn parse_u128_rejects_malformed_and_overflow() {
    assert_eq!(parse_u128(""), None);
    assert_eq!(parse_u128("12x3"), None);
    assert_eq!(parse_u128("-1"), None);
    assert_eq!(parse_u128(" 1"), None);
    assert_eq!(parse_u128("340282366920938463463374607431768211456"), None);
}

#[test]
fn parse_usize_exact_values() {
    assert_eq!(parse_usize("0"), Some(0));
    assert_eq!(parse_usize("42"), Some(42));
    assert_eq!(parse_usize(""), None);
    assert_eq!(parse_usize("9one"), None);
    assert_eq!(parse_usize("340282366920938463463374607431768211455"), None);
}

#[test]
fn parse_bool_accepts_exactly_true_and_false() {
    assert_eq!(parse_bool("true"), Some(true));
    assert_eq!(parse_bool("false"), Some(false));
    assert_eq!(parse_bool("True"), None);
    assert_eq!(parse_bool("1"), None);
    assert_eq!(parse_bool(""), None);
}

#[test]
fn decimal_round_trip_on_rendered_values() {
    for v in [0u128, 9, 10, 1000, u128::MAX] {
        assert_eq!(parse_u128(&v.to_string()), Some(v));
    }
    for v in [0usize, 3, usize::MAX] {
        assert_eq!(parse_usize(&v.to_string()), Some(v));
    }
}

#[test]
fn str_eq_matches_string_equality() {
    assert!(str_eq("", ""));
    assert!(str_eq("abc", "abc"));
    assert!(!str_eq("abc", "abd"));
    assert!(!str_eq("abc", "abcd"));
}

#[test]
fn oid_round_trip() {
    let text = "0123456789abcdef0123456789abcdef01234567";
    let o = Oid::parse(text).unwrap();
    assert_eq!(o.encode(), text);
    assert_eq!(Oid::parse(&o.encode()).unwrap(), o);
}

#[test]
fn oid_rejects_malformed_text() {
    assert!(Oid::parse("").is_none());
    assert!(Oid::parse("0123456789abcdef").is_none());
    assert!(Oid::parse("0123456789abcdef0123456789abcdef0123456g").is_none());
    assert!(Oid::parse("0123456789ABCDEF0123456789abcdef01234567").is_none());
}

#[test]
fn remote_branch_name_round_trip() {
    let u = RemoteBranchName::parse("origin/feature-x").unwrap();
    assert_eq!(u.encode(), "origin/feature-x");
    // the branch part may itself contain slashes
    let v = RemoteBranchName::parse("origin/feature/nested").unwrap();
    assert_eq!(v.encode(), "origin/feature/nested");
    assert_eq!(RemoteBranchName::parse(&v.encode()).unwrap(), v);
}

#[test]
fn remote_branch_name_rejects_malformed_text() {
    assert!(RemoteBranchName::parse("not-a-ref").is_none());
    assert!(RemoteBranchName::parse("").is_none());
    assert!(RemoteBranchName::parse("/branch").is_none());
    assert!(RemoteBranchName::parse("origin/").is_none());
    assert!(RemoteBranchName::parse("/").is_none());
}

#[test]
fn ownership_round_trip() {
    for text in ["", "src/main.rs:1-10", "src/main.rs:1-10\nsrc/lib.rs:5-20"] {
        let o = Ownership::parse(text).unwrap();
        assert_eq!(o.encode(), text);
        assert_eq!(Ownership::parse(&o.encode()).unwrap(), o);
    }
}

#[test]
fn ownership_rejects_malformed_text() {
    assert!(Ownership::parse("\n").is_none());
    assert!(Ownership::parse("\nsrc/main.rs:1-10").is_none());
    assert!(Ownership::parse("src/main.rs:1-10\n").is_none());
    assert!(Ownership::parse("a\n\nb").is_none());
}

#[test]
fn create_request_default_is_all_absent() {
    let r = BranchCreateRequest::default();
    assert!(r.name.is_none());
    assert!(r.ownership.is_none());
    assert!(r.order.is_none());
}

#[test]
fn update_request_default_is_all_absent() {
    let r = BranchUpdateRequest::default();
    assert_eq!(r.id, "");
    assert!(r.name.is_none());
    assert!(r.notes.is_none());
    assert!(r.ownership.is_none());
    assert!(r.order.is_none());
}
