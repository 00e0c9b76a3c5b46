//! Allow/block filter semantics.

use ifcgen::options::{Options, TestOptions, FilteredState};

#[test]
fn empty_allow_list_blocks_only_matched_names() {
    let t = TestOptions {
        blocklist_type: &["^::Blocked$"],
        ..Default::default()
    };
    let o = Options::for_testing(&t).unwrap();
    let f = o.type_filter();
    assert_eq!(f.filter("::Blocked"), FilteredState::Blocked);
    assert_eq!(f.filter("::Other"), FilteredState::Allowed);
    assert_eq!(f.filter("::Blocked2"), FilteredState::Allowed);
}

#[test]
fn nonempty_allow_list_excludes_everything_unmatched() {
    let t = TestOptions {
        allowlist_type: &["^::Keep.*$"],
        blocklist_type: &["^::KeepBlocked$"],
        ..Default::default()
    };
    let o = Options::for_testing(&t).unwrap();
    let f = o.type_filter();
    assert_eq!(f.filter("::KeepThis"), FilteredState::Allowed);
    // not on the allow-list: excluded whatever the block-list holds
    assert_eq!(f.filter("::Other"), FilteredState::NotAllowed);
    // allowed but then blocked
    assert_eq!(f.filter("::KeepBlocked"), FilteredState::Blocked);
}

#[test]
fn no_filters_allow_everything() {
    let o = Options::default_for_testing();
    let f = o.macro_filter();
    assert_eq!(f.filter("anything"), FilteredState::Allowed);
    assert!(f.is_allowed("FOO"));
}

#[test]
fn invalid_pattern_is_reported() {
    let t = TestOptions {
        allowlist_type: &["("],
        ..Default::default()
    };
    assert!(Options::for_testing(&t).is_none());
}

#[test]
fn qualified_name_filter_builds_the_joined_name() {
    let t = TestOptions {
        allowlist_function: &["^::N::f$"],
        ..Default::default()
    };
    let o = Options::for_testing(&t).unwrap();
    let f = o.function_filter();
    assert_eq!(f.filter_qualified_name("f", "::N"), FilteredState::Allowed);
    assert_eq!(f.filter_qualified_name("g", "::N"), FilteredState::NotAllowed);
}
