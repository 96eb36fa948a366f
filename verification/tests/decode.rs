use vbranch::branch::Branch;
use vbranch::branch::DecodeCause;
use vbranch::reader::MemReader;

const TREE: &str = "0123456789abcdef0123456789abcdef01234567";
const HEAD: &str = "fedcba9876543210fedcba9876543210fedcba98";
const OWNERSHIP: &str = "src/main.rs:1-10,12-15\nsrc/lib.rs:5-20";

fn required_only() -> MemReader {
    let mut r = MemReader::new();
    r.set_value("id", "b1");
    r.set_value("meta/name", "feature-x");
    r.set_value("meta/tree", TREE);
    r.set_value("meta/head", HEAD);
    r.set_value("meta/created_timestamp_ms", "1000");
    r.set_value("meta/updated_timestamp_ms", "2000");
    r.set_value("meta/ownership", OWNERSHIP);
    r
}

fn full_record() -> MemReader {
    let mut r = required_only();
    r.set_value("meta/notes", "some notes");
    r.set_value("meta/applied", "true");
    r.set_value("meta/order", "3");
    r.set_value("meta/upstream", "origin/feature-x");
    r
}

#[test]
fn full_record_decodes() {
    let b = Branch::try_from(&full_record()).unwrap();
    assert_eq!(b.id, "b1");
    assert_eq!(b.name, "feature-x");
    assert_eq!(b.notes, "some notes");
    assert!(b.applied);
    assert_eq!(b.order, 3);
    assert_eq!(b.upstream.as_ref().unwrap().encode(), "origin/feature-x");
    assert_eq!(b.created_timestamp_ms, 1000);
    assert_eq!(b.updated_timestamp_ms, 2000);
    assert_eq!(b.tree.encode(), TREE);
    assert_eq!(b.head.encode(), HEAD);
    assert_eq!(b.ownership.encode(), OWNERSHIP);
}

#[test]
fn required_only_record_decodes_with_defaults() {
    let b = Branch::try_from(&required_only()).unwrap();
    assert_eq!(b.id, "b1");
    assert_eq!(b.name, "feature-x");
    assert_eq!(b.notes, "");
    assert!(!b.applied);
    assert_eq!(b.order, 0);
    assert!(b.upstream.is_none());
    assert_eq!(b.created_timestamp_ms, 1000);
    assert_eq!(b.updated_timestamp_ms, 2000);
    assert_eq!(b.tree.encode(), TREE);
    assert_eq!(b.head.encode(), HEAD);
    assert_eq!(b.ownership.encode(), OWNERSHIP);
}

#[test]
fn empty_upstream_decodes_to_none() {
    let mut r = full_record();
    r.set_value("meta/upstream", "");
    let b = Branch::try_from(&r).unwrap();
    assert!(b.upstream.is_none());
}

#[test]
fn applied_missing_is_false() {
    let baseline = Branch::try_from(&full_record()).unwrap();
    let mut missing = required_only();
    missing.set_value("meta/notes", "some notes");
    missing.set_value("meta/order", "3");
    missing.set_value("meta/upstream", "origin/feature-x");
    let b = Branch::try_from(&missing).unwrap();
    assert!(!b.applied);
    assert!(baseline.applied);
    // every other field decodes unaffected
    assert_eq!(b.id, baseline.id);
    assert_eq!(b.name, baseline.name);
    assert_eq!(b.notes, baseline.notes);
    assert_eq!(b.upstream, baseline.upstream);
    assert_eq!(b.order, baseline.order);
    assert_eq!(b.tree, baseline.tree);
    assert_eq!(b.head, baseline.head);
    assert_eq!(b.ownership, baseline.ownership);
}

#[test]
fn applied_malformed_is_false() {
    let mut r = full_record();
    r.set_value("meta/applied", "certainly");
    let b = Branch::try_from(&r).unwrap();
    assert!(!b.applied);
    assert_eq!(b.id, "b1");
    assert_eq!(b.order, 3);
}

#[test]
fn applied_fault_is_false() {
    let mut r = full_record();
    r.set_fault("meta/applied", "disk error");
    let b = Branch::try_from(&r).unwrap();
    assert!(!b.applied);
    assert_eq!(b.name, "feature-x");
}

#[test]
fn missing_required_keys_fail_naming_the_key() {
    for key in [
        "id",
        "meta/name",
        "meta/tree",
        "meta/head",
        "meta/created_timestamp_ms",
        "meta/updated_timestamp_ms",
        "meta/ownership",
    ] {
        let mut r = MemReader::new();
        for (k, v) in [
            ("id", "b1"),
            ("meta/name", "feature-x"),
            ("meta/tree", TREE),
            ("meta/head", HEAD),
            ("meta/created_timestamp_ms", "1000"),
            ("meta/updated_timestamp_ms", "2000"),
            ("meta/ownership", OWNERSHIP),
        ] {
            if k != key {
                r.set_value(k, v);
            }
        }
        let e = Branch::try_from(&r).unwrap_err();
        assert_eq!(e.key, key);
        assert_eq!(e.cause, DecodeCause::NotFound);
    }
}

#[test]
fn malformed_tree_fails_naming_the_key() {
    let mut r = full_record();
    r.set_value("meta/tree", "not-an-object-id");
    let e = Branch::try_from(&r).unwrap_err();
    assert_eq!(e.key, "meta/tree");
    assert_eq!(e.cause, DecodeCause::Malformed("not-an-object-id".to_string()));
}

#[test]
fn malformed_head_fails_naming_the_key() {
    let mut r = full_record();
    // right length, but an uppercase digit is not canonical
    r.set_value("meta/head", "0123456789ABCDEF0123456789abcdef01234567");
    let e = Branch::try_from(&r).unwrap_err();
    assert_eq!(e.key, "meta/head");
    assert!(matches!(e.cause, DecodeCause::Malformed(_)));
}

#[test]
fn malformed_timestamp_fails_naming_the_key() {
    let mut r = full_record();
    r.set_value("meta/created_timestamp_ms", "12x3");
    let e = Branch::try_from(&r).unwrap_err();
    assert_eq!(e.key, "meta/created_timestamp_ms");
    assert_eq!(e.cause, DecodeCause::Io("12x3".to_string()));
}

#[test]
fn malformed_order_fails_naming_the_key() {
    let mut r = full_record();
    r.set_value("meta/order", "-1");
    let e = Branch::try_from(&r).unwrap_err();
    assert_eq!(e.key, "meta/order");
    assert_eq!(e.cause, DecodeCause::Io("-1".to_string()));
}

#[test]
fn malformed_ownership_fails_naming_the_key() {
    let mut r = full_record();
    r.set_value("meta/ownership", "src/a.rs:1-2\n\nsrc/b.rs:3-4");
    let e = Branch::try_from(&r).unwrap_err();
    assert_eq!(e.key, "meta/ownership");
    assert!(matches!(e.cause, DecodeCause::Malformed(_)));
}

#[test]
fn invalid_upstream_fails_naming_the_key() {
    let mut r = full_record();
    r.set_value("meta/upstream", "not-a-ref");
    let e = Branch::try_from(&r).unwrap_err();
    assert_eq!(e.key, "meta/upstream");
    assert_eq!(e.cause, DecodeCause::Malformed("not-a-ref".to_string()));
}

#[test]
fn io_fault_on_required_key_fails_naming_the_key() {
    let mut r = full_record();
    r.set_fault("meta/name", "disk error");
    let e = Branch::try_from(&r).unwrap_err();
    assert_eq!(e.key, "meta/name");
    assert_eq!(e.cause, DecodeCause::Io("disk error".to_string()));
}

#[test]
fn io_fault_on_optional_key_fails_naming_the_key() {
    let mut r = full_record();
    r.set_fault("meta/notes", "disk error");
    let e = Branch::try_from(&r).unwrap_err();
    assert_eq!(e.key, "meta/notes");
    assert_eq!(e.cause, DecodeCause::Io("disk error".to_string()));
}

#[test]
fn first_failing_key_in_protocol_order_is_reported() {
    let mut r = full_record();
    r.set_fault("meta/name", "disk error");
    r.set_value("meta/tree", "junk");
    let e = Branch::try_from(&r).unwrap_err();
    assert_eq!(e.key, "meta/name");
}

#[test]
fn later_write_for_a_key_wins() {
    let mut r = full_record();
    r.set_value("meta/order", "7");
    let b = Branch::try_from(&r).unwrap();
    assert_eq!(b.order, 7);
}

#[test]
fn decode_is_repeatable() {
    let r = full_record();
    let a = Branch::try_from(&r).unwrap();
    let b = Branch::try_from(&r).unwrap();
    assert_eq!(a, b);
}
