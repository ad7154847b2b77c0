//! Directory lister behavior: directories kept, files skipped, failures.

use test_vectors::listdir::list_dir;
use test_vectors::{DirRead, EntryInfo};

fn dir_entry(name: &str) -> EntryInfo {
    EntryInfo::Entry {
        name: Some(String::from(name)),
        is_dir: true,
    }
}

fn file_entry(name: &str) -> EntryInfo {
    EntryInfo::Entry {
        name: Some(String::from(name)),
        is_dir: false,
    }
}

#[test]
fn test_listing_returns_only_directories() {
    let read = DirRead::Entries(vec![
        file_entry("README.md"),
        dir_entry("alpha"),
        file_entry("data.bin"),
        dir_entry("beta"),
        file_entry("notes.txt"),
    ]);
    let names = list_dir(&read).unwrap();
    assert_eq!(names, vec!["alpha", "beta"]);
}

#[test]
fn test_listing_empty_directory() {
    let read = DirRead::Entries(vec![]);
    let names = list_dir(&read).unwrap();
    assert!(names.is_empty());
}

#[test]
fn test_symlinked_directory_listed_under_link_name() {
    // A symlink to a directory resolves to a directory, and the entry keeps
    // the link's own name, not the target's.
    let read = DirRead::Entries(vec![EntryInfo::Entry {
        name: Some(String::from("casedir-link")),
        is_dir: true,
    }]);
    let names = list_dir(&read).unwrap();
    assert_eq!(names.len(), 1);
    assert_eq!(names[0].as_str(), "casedir-link");
}

#[test]
fn test_unreadable_entry_fails_listing() {
    let read = DirRead::Entries(vec![
        dir_entry("alpha"),
        EntryInfo::ReadFailed(String::from("permission denied")),
        dir_entry("beta"),
    ]);
    let e = list_dir(&read).unwrap_err();
    assert_eq!(e, "permission denied");
}

#[test]
fn test_non_utf8_directory_name_fails_listing() {
    let read = DirRead::Entries(vec![EntryInfo::Entry {
        name: None,
        is_dir: true,
    }]);
    let e = list_dir(&read).unwrap_err();
    assert_eq!(e, "invalid directory name");
}

#[test]
fn test_non_utf8_file_name_is_skipped() {
    let read = DirRead::Entries(vec![
        EntryInfo::Entry {
            name: None,
            is_dir: false,
        },
        dir_entry("alpha"),
    ]);
    let names = list_dir(&read).unwrap();
    assert_eq!(names, vec!["alpha"]);
}

#[test]
fn test_unopenable_directory_fails_listing() {
    let read = DirRead::Failed(String::from("no such directory"));
    let e = list_dir(&read).unwrap_err();
    assert_eq!(e, "no such directory");
}
