use toshokan::component::{clone_entries, list_directory, DirEntry};
use toshokan::listing::{arrange, precedes};

fn entry(name: &str, is_dir: bool) -> DirEntry {
    DirEntry { name: name.to_string(), is_dir, path: format!("/base/{}", name) }
}

fn names(entries: &[DirEntry]) -> Vec<String> {
    entries.iter().map(|entry| entry.name.clone()).collect()
}

#[test]
fn directories_come_first_then_names() {
    let found =
        vec![entry("b.txt", false), entry("A", true), entry("a.txt", false), entry("B", true)];
    let listed = list_directory(Some(found));
    assert_eq!(names(&listed), vec!["A", "B", "a.txt", "b.txt"]);
    assert!(listed[0].is_dir && listed[1].is_dir);
    assert!(!listed[2].is_dir && !listed[3].is_dir);
    assert_eq!(listed[2].path, "/base/a.txt");
}

#[test]
fn unreadable_directory_lists_as_empty() {
    assert!(list_directory(None).is_empty());
    assert!(list_directory(Some(Vec::new())).is_empty());
}

#[test]
fn names_are_compared_case_sensitively() {
    let found = vec![entry("a.txt", false), entry("Z.txt", false), entry("B.txt", false)];
    assert_eq!(names(&list_directory(Some(found))), vec!["B.txt", "Z.txt", "a.txt"]);
}

#[test]
fn names_are_compared_byte_by_byte() {
    let found = vec![
        entry("\u{e9}cole", false),
        entry("zebra", false),
        entry("ab", false),
        entry("a", false),
        entry("", false),
        entry("a b", false),
        entry("\u{1f600}", false),
        entry("\u{ffff}", false),
    ];
    let mut by_std = names(&found);
    by_std.sort();
    let listed = list_directory(Some(found));
    assert_eq!(names(&listed), by_std);
    assert_eq!(
        names(&listed),
        vec!["", "a", "a b", "ab", "zebra", "\u{e9}cole", "\u{ffff}", "\u{1f600}"]
    );
}

#[test]
fn a_file_never_precedes_a_directory() {
    let found = vec![entry("0", false), entry("zz", true), entry("a", false), entry("m", true)];
    assert_eq!(names(&list_directory(Some(found))), vec!["m", "zz", "0", "a"]);
    assert!(precedes(&entry("zz", true), &entry("0", false)));
    assert!(!precedes(&entry("0", false), &entry("zz", true)));
    assert!(precedes(&entry("a", false), &entry("a", false)));
    assert!(precedes(&entry("a", false), &entry("b", false)));
    assert!(!precedes(&entry("b", false), &entry("a", false)));
}

#[test]
fn entries_of_one_name_keep_their_order() {
    let mut found = Vec::new();
    for (i, name) in ["same", "other", "same", "first", "same", "other"].iter().enumerate() {
        found.push(DirEntry { name: name.to_string(), is_dir: false, path: format!("/{}", i) });
    }
    let listed = list_directory(Some(found));
    let seen: Vec<(String, String)> =
        listed.iter().map(|entry| (entry.name.clone(), entry.path.clone())).collect();
    let wanted = [
        ("first", "/3"),
        ("other", "/1"),
        ("other", "/5"),
        ("same", "/0"),
        ("same", "/2"),
        ("same", "/4"),
    ];
    assert_eq!(seen.len(), wanted.len());
    for (got, want) in seen.iter().zip(wanted.iter()) {
        assert_eq!((got.0.as_str(), got.1.as_str()), *want);
    }
}

#[test]
fn arranging_loses_nothing() {
    let mut found = Vec::new();
    let mut state: u32 = 12345;
    for i in 0..200u32 {
        state = state.wrapping_mul(1664525).wrapping_add(1013904223);
        let name = format!("n{}", state % 37);
        found.push(DirEntry { name, is_dir: state % 3 == 0, path: format!("/{}", i) });
    }
    let mut wanted: Vec<(bool, String, String)> = found
        .iter()
        .map(|entry| (!entry.is_dir, entry.name.clone(), entry.path.clone()))
        .collect();
    wanted.sort_by(|a, b| (a.0, &a.1).cmp(&(b.0, &b.1)));
    let copy = clone_entries(&found);
    assert_eq!(copy, found);
    let arranged = arrange(found);
    let got: Vec<(bool, String, String)> = arranged
        .iter()
        .map(|entry| (!entry.is_dir, entry.name.clone(), entry.path.clone()))
        .collect();
    assert_eq!(got, wanted);
}

#[test]
fn listing_a_listing_changes_nothing() {
    let found = vec![entry("b", false), entry("a", true), entry("c", false), entry("a", false)];
    let once = list_directory(Some(found));
    let twice = list_directory(Some(clone_entries(&once)));
    assert_eq!(once, twice);
}

#[test]
fn entry_from_a_path_is_named_by_its_last_component() {
    let file = DirEntry::from_path("/home/user/notes.txt".to_string(), false);
    assert_eq!(file.name, "notes.txt");
    assert_eq!(file.path, "/home/user/notes.txt");
    assert!(!file.is_dir);
    let directory = DirEntry::from_path("projects/toshokan/".to_string(), true);
    assert_eq!(directory.name, "toshokan");
    assert!(directory.is_dir);
    assert_eq!(DirEntry::from_path("/".to_string(), true).name, "");
    assert_eq!(DirEntry::from_path("a/..".to_string(), true).name, "");
    assert_eq!(DirEntry::from_path(String::new(), false).name, "");
}

#[test]
fn entries_are_equal_field_by_field() {
    assert_eq!(entry("a", false), entry("a", false));
    assert_ne!(entry("a", false), entry("a", true));
    assert_ne!(entry("a", false), entry("b", false));
    let mut moved = entry("a", false);
    moved.path = "/elsewhere/a".to_string();
    assert_ne!(entry("a", false), moved);
    assert_eq!(moved.clone(), moved);
}
