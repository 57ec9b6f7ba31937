use smwc2wav::extract::{base_name, entry_disposition, is_safe_entry, plan_extraction, EntryAction};

fn plan(names: &[&str]) -> Vec<String> {
    plan_extraction(&names.iter().map(|s| s.to_string()).collect())
}

#[test]
fn archive_scenario_yields_exactly_the_target_entry() {
    // an archive with a text file, a directory, and one target entry
    let outs = plan(&["a.txt", "b/", "c.spc"]);
    assert_eq!(outs, vec!["c.spc".to_string()]);
}

#[test]
fn nested_target_entries_are_flattened_to_their_base_name() {
    let outs = plan(&["music/deep/song.spc", "music/"]);
    assert_eq!(outs, vec!["song.spc".to_string()]);
}

#[test]
fn traversal_entries_are_rejected_not_followed() {
    let outs = plan(&["../evil.spc", "a/../../evil.spc", "..", "good.spc"]);
    assert_eq!(outs, vec!["good.spc".to_string()]);
}

#[test]
fn absolute_entries_are_rejected() {
    let outs = plan(&["/etc/owned.spc", "fine.spc"]);
    assert_eq!(outs, vec!["fine.spc".to_string()]);
}

#[test]
fn entry_order_is_kept() {
    let outs = plan(&["b.spc", "x.txt", "a.spc"]);
    assert_eq!(outs, vec!["b.spc".to_string(), "a.spc".to_string()]);
}

#[test]
fn safety_check_accepts_inner_dots() {
    assert!(is_safe_entry("a..b/x.spc"));
    assert!(is_safe_entry("./x.spc"));
    assert!(is_safe_entry("a.spc"));
    assert!(!is_safe_entry("../x.spc"));
    assert!(!is_safe_entry("a/.."));
    assert!(!is_safe_entry("a/../b.spc"));
    assert!(!is_safe_entry("/a.spc"));
    assert!(!is_safe_entry(""));
}

#[test]
fn dispositions_cover_all_three_outcomes() {
    assert!(matches!(entry_disposition("../x.spc"), EntryAction::SkipUnsafe));
    assert!(matches!(entry_disposition("readme.txt"), EntryAction::SkipOther));
    assert!(matches!(entry_disposition("b/"), EntryAction::SkipOther));
    // a bare dot-file has no stem, hence no extension
    assert!(matches!(entry_disposition(".spc"), EntryAction::SkipOther));
    match entry_disposition("dir/tune.spc") {
        EntryAction::Extract(out) => assert_eq!(out, "tune.spc"),
        _ => panic!("expected an extraction"),
    }
}

#[test]
fn base_name_strips_directories() {
    assert_eq!(base_name("a/b/c.spc"), "c.spc");
    assert_eq!(base_name("c.spc"), "c.spc");
    assert_eq!(base_name("a/b/"), "");
    assert_eq!(base_name(""), "");
}
