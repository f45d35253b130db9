use java2php::mapper::{map_dir, map_file, single_file_destination, PathError, TreePath};
use java2php::path::has_extension;
use java2php::walker::{include_entry, Entry, EntryKind};

fn tp(parts: &[&str]) -> TreePath {
    TreePath::from_components(parts.iter().map(|s| s.to_string()).collect())
}

fn parts(path: &TreePath) -> Vec<&str> {
    path.components.iter().map(|s| s.as_str()).collect()
}

#[test]
fn empty_path_has_no_components() {
    let p = TreePath::new();
    assert_eq!(p.len(), 0);
    assert!(p.file_name().is_none());
    assert_eq!(p.display(), "");
}

#[test]
fn push_appends_a_component() {
    let mut p = tp(&["src"]);
    p.push("Foo.java".to_string());
    assert_eq!(parts(&p), vec!["src", "Foo.java"]);
    assert_eq!(p.len(), 2);
    assert_eq!(p.file_name().map(|s| s.as_str()), Some("Foo.java"));
}

#[test]
fn extend_from_copies_a_range() {
    let mut p = tp(&["out"]);
    p.extend_from(&tp(&["a", "b", "c", "d"]), 1, 3);
    assert_eq!(parts(&p), vec!["out", "b", "c"]);
    p.extend_from(&tp(&["a", "b"]), 2, 2);
    assert_eq!(parts(&p), vec!["out", "b", "c"]);
}

#[test]
fn display_joins_with_slashes() {
    assert_eq!(tp(&["out", "a", "B.php"]).display(), "out/a/B.php");
    assert_eq!(tp(&["", "out", "Foo.php"]).display(), "/out/Foo.php");
    assert_eq!(tp(&["out"]).display(), "out");
}

#[test]
fn starts_with_compares_whole_components() {
    let p = tp(&["src", "main", "A.java"]);
    assert!(p.starts_with(&tp(&[])));
    assert!(p.starts_with(&tp(&["src"])));
    assert!(p.starts_with(&tp(&["src", "main"])));
    assert!(p.starts_with(&tp(&["src", "main", "A.java"])));
    assert!(!p.starts_with(&tp(&["sr"])));
    assert!(!p.starts_with(&tp(&["src", "test"])));
    assert!(!p.starts_with(&tp(&["src", "main", "A.java", "x"])));
}

#[test]
fn file_is_mirrored_with_new_extension() {
    let r = map_file(&tp(&["src"]), &tp(&["out"]), &tp(&["src", "a", "b", "C.java"]), "php");
    assert_eq!(parts(&r.unwrap()), vec!["out", "a", "b", "C.php"]);
}

#[test]
fn file_directly_under_root_is_mirrored() {
    let r = map_file(&tp(&["", "work", "src"]), &tp(&["", "out"]), &tp(&["", "work", "src", "A.java"]), "php");
    assert_eq!(r.unwrap().display(), "/out/A.php");
}

#[test]
fn file_outside_root_is_invalid() {
    let r = map_file(&tp(&["src"]), &tp(&["out"]), &tp(&["other", "A.java"]), "php");
    assert_eq!(r.err(), Some(PathError::InvalidPath));
    let r = map_file(&tp(&["src", "main"]), &tp(&["out"]), &tp(&["src", "A.java"]), "php");
    assert_eq!(r.err(), Some(PathError::InvalidPath));
}

#[test]
fn root_itself_is_no_file_under_it() {
    let r = map_file(&tp(&["src"]), &tp(&["out"]), &tp(&["src"]), "php");
    assert_eq!(r.err(), Some(PathError::InvalidPath));
}

#[test]
fn directory_is_mirrored_unchanged() {
    let r = map_dir(&tp(&["src"]), &tp(&["out"]), &tp(&["src", "a.b", "c"]));
    assert_eq!(parts(&r.unwrap()), vec!["out", "a.b", "c"]);
}

#[test]
fn root_is_mirrored_by_destination_root() {
    let r = map_dir(&tp(&["src"]), &tp(&["", "out"]), &tp(&["src"]));
    assert_eq!(parts(&r.unwrap()), vec!["", "out"]);
}

#[test]
fn directory_outside_root_is_invalid() {
    let r = map_dir(&tp(&["src"]), &tp(&["out"]), &tp(&["srcs", "a"]));
    assert_eq!(r.err(), Some(PathError::InvalidPath));
}

#[test]
fn mapped_file_lies_in_mapped_directory() {
    let src = tp(&["src"]);
    let dst = tp(&["out", "php"]);
    let file = map_file(&src, &dst, &tp(&["src", "a", "b", "C.java"]), "php").unwrap();
    let dir = map_dir(&src, &dst, &tp(&["src", "a", "b"])).unwrap();
    assert!(file.starts_with(&dir));
    assert_eq!(file.len(), dir.len() + 1);
    assert!(has_extension(file.file_name().unwrap(), "php"));
}

#[test]
fn distinct_sources_have_distinct_destinations() {
    let src = tp(&["src"]);
    let dst = tp(&["out"]);
    let files = [
        tp(&["src", "A.java"]),
        tp(&["src", "a", "A.java"]),
        tp(&["src", "b", "A.java"]),
        tp(&["src", "a", "B.java"]),
    ];
    let mapped: Vec<String> =
        files.iter().map(|f| map_file(&src, &dst, f, "php").unwrap().display()).collect();
    for i in 0..mapped.len() {
        for j in 0..mapped.len() {
            if i != j {
                assert_ne!(mapped[i], mapped[j]);
            }
        }
    }
}

#[test]
fn single_file_lands_directly_under_destination() {
    let r = single_file_destination(&tp(&["", "out"]), &tp(&["", "home", "me", "Foo.java"]), "php");
    let p = r.unwrap();
    assert_eq!(parts(&p), vec!["", "out", "Foo.php"]);
    assert_eq!(p.display(), "/out/Foo.php");
}

#[test]
fn single_file_without_name_is_invalid() {
    let r = single_file_destination(&tp(&["out"]), &tp(&[]), "php");
    assert_eq!(r.err(), Some(PathError::InvalidPath));
}

#[test]
fn walk_keeps_every_directory() {
    let e = Entry { path: tp(&["src", "a.txt"]), kind: EntryKind::Directory };
    assert!(include_entry(&e, "java"));
    let e = Entry { path: tp(&[]), kind: EntryKind::Directory };
    assert!(include_entry(&e, "java"));
}

#[test]
fn walk_keeps_files_with_the_extension() {
    let e = Entry { path: tp(&["src", "A.java"]), kind: EntryKind::File };
    assert!(include_entry(&e, "java"));
}

#[test]
fn walk_skips_other_files() {
    for name in ["A.txt", "A.JAVA", "A", ".java", "A.java.bak"] {
        let e = Entry { path: tp(&["src", name]), kind: EntryKind::File };
        assert!(!include_entry(&e, "java"), "{}", name);
    }
    let e = Entry { path: tp(&[]), kind: EntryKind::File };
    assert!(!include_entry(&e, "java"));
}

#[test]
fn walk_skips_what_is_neither_file_nor_directory() {
    let e = Entry { path: tp(&["src", "A.java"]), kind: EntryKind::Other };
    assert!(!include_entry(&e, "java"));
}
