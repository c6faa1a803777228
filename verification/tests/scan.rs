//! The scan engine, on concrete listings and filters.

use okh_tool::pattern::PathMatcher;
use okh_tool::scan::PathProjection;
use okh_tool::scan::ScanEntry;
use okh_tool::scan::iter_exts;
use okh_tool::scan::project;
use okh_tool::scan::scan;
use okh_tool::scan::shortest;
use okh_tool::scan::slash_count;

fn entry(path: &str, is_file: bool) -> ScanEntry {
    ScanEntry { rel_path: path.to_string(), is_file }
}

#[test]
fn depth_bound_limits_to_direct_children() {
    let entries = vec![entry("a.txt", true), entry("sub", false), entry("sub/b.txt", true)];
    let txt = PathMatcher::new("txt").unwrap();
    let flat = iter_exts(&entries, false, &txt);
    assert_eq!(flat, vec!["a.txt".to_string()]);
    let deep = iter_exts(&entries, true, &txt);
    assert_eq!(deep, vec!["a.txt".to_string(), "sub/b.txt".to_string()]);
}

#[test]
fn independent_filters_group_independently() {
    let entries = vec![entry("a.txt", true), entry("a.md", true), entry("a.png", true)];
    let filters = vec![PathMatcher::new("^txt$").unwrap(), PathMatcher::new("^md$").unwrap()];
    let groups = scan(&entries, true, &filters, PathProjection::Extension);
    assert_eq!(groups.len(), 2);
    assert_eq!(groups[0], vec!["a.txt".to_string()]);
    assert_eq!(groups[1], vec!["a.md".to_string()]);
}

#[test]
fn a_path_may_land_in_several_groups() {
    let entries = vec![entry("readme.md", true), entry("notes.md", true)];
    let filters = vec![PathMatcher::new("^md$").unwrap(), PathMatcher::new("^(md|txt)$").unwrap()];
    let groups = scan(&entries, true, &filters, PathProjection::Extension);
    assert_eq!(groups[0], groups[1]);
    assert_eq!(groups[0].len(), 2);
}

#[test]
fn directories_are_not_scanned() {
    let entries = vec![entry("dir.txt", false), entry("file.txt", true)];
    let txt = PathMatcher::new("txt").unwrap();
    assert_eq!(iter_exts(&entries, true, &txt), vec!["file.txt".to_string()]);
}

#[test]
fn file_name_projection_matches_whole_names() {
    let entries = vec![
        entry("README.md", true),
        entry("docs/README.md", true),
        entry("CHANGELOG", true),
    ];
    let filters = vec![PathMatcher::new("README.*").unwrap()];
    let direct = scan(&entries, false, &filters, PathProjection::FileName);
    assert_eq!(direct[0], vec!["README.md".to_string()]);
    let recursive = scan(&entries, true, &filters, PathProjection::FileName);
    assert_eq!(recursive[0], vec!["README.md".to_string(), "docs/README.md".to_string()]);
}

#[test]
fn projection_semantics() {
    assert_eq!(project("src/main.c", PathProjection::Extension), Some("c".to_string()));
    assert_eq!(project("src/main.c", PathProjection::FileName), Some("main.c".to_string()));
    assert_eq!(project("archive.tar.gz", PathProjection::Extension), Some("gz".to_string()));
    // A leading dot alone does not make an extension.
    assert_eq!(project(".gitignore", PathProjection::Extension), None);
    assert_eq!(project(".config.yml", PathProjection::Extension), Some("yml".to_string()));
    // A trailing dot yields an empty extension.
    assert_eq!(project("odd.", PathProjection::Extension), Some(String::new()));
    assert_eq!(project("no_extension", PathProjection::Extension), None);
    // A path that ends in a separator has no file name.
    assert_eq!(project("src/", PathProjection::FileName), None);
    assert_eq!(project("src/", PathProjection::Extension), None);
}

#[test]
fn slash_count_counts_separators() {
    assert_eq!(slash_count("a.txt"), 0);
    assert_eq!(slash_count("sub/b.txt"), 1);
    assert_eq!(slash_count("a/b/c/"), 3);
    assert_eq!(slash_count(""), 0);
}

#[test]
fn shortest_picks_the_earliest_shortest_path() {
    assert_eq!(shortest(&vec![]), None);
    let group = vec![
        "README.markdown".to_string(),
        "README.md".to_string(),
        "NOTES.md".to_string(),
        "TODO.txt".to_string(),
    ];
    // Two of length eight; the earlier one wins.
    assert_eq!(shortest(&group), Some("NOTES.md".to_string()));
    assert_eq!(shortest(&vec!["only".to_string()]), Some("only".to_string()));
}

#[test]
fn invalid_filter_patterns_are_refused() {
    assert!(PathMatcher::new("(").is_none());
    assert!(PathMatcher::new("^src/.*$").is_some());
}

#[test]
fn matcher_keeps_its_pattern_text() {
    let m = PathMatcher::new("^a+b$").unwrap();
    assert_eq!(m.pattern(), "^a+b$");
    assert!(m.is_match("aab"));
    assert!(!m.is_match("b"));
}
