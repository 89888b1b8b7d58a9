use pty_manager::listing::sort_listing;
use pty_manager::FileEntry;

fn entry(name: &str, is_dir: bool) -> FileEntry {
    FileEntry::from_metadata(
        name.to_string(),
        format!("/d/{}", name),
        false,
        false,
        is_dir,
        1,
        None,
    )
}

fn names(v: &[FileEntry]) -> Vec<String> {
    v.iter().map(|e| e.name.clone()).collect()
}

#[test]
fn read_directory_dirs_first() {
    let sorted = sort_listing(vec![
        entry("alpha.txt", false),
        entry("beta.rs", false),
        entry("gamma_dir", true),
    ]);
    assert!(sorted[0].is_dir);
    assert_eq!(sorted[0].name, "gamma_dir");
    assert_eq!(names(&sorted), vec!["gamma_dir", "alpha.txt", "beta.rs"]);
}

#[test]
fn listing_ignores_case() {
    let sorted = sort_listing(vec![
        entry("b.txt", false),
        entry("C.txt", false),
        entry("A.txt", false),
        entry("Zdir", true),
        entry("adir", true),
    ]);
    assert_eq!(names(&sorted), vec!["adir", "Zdir", "A.txt", "b.txt", "C.txt"]);
}

#[test]
fn listing_keeps_order_of_equal_names() {
    let sorted = sort_listing(vec![entry("X", false), entry("x", false), entry("a", false)]);
    assert_eq!(names(&sorted), vec!["a", "X", "x"]);
}

#[test]
fn listing_of_nothing_is_empty() {
    assert!(sort_listing(Vec::new()).is_empty());
}

#[test]
fn listing_orders_by_code_point() {
    let sorted = sort_listing(vec![
        entry("é.txt", false),
        entry("z.txt", false),
        entry("ab", false),
        entry("a", false),
    ]);
    assert_eq!(names(&sorted), vec!["a", "ab", "z.txt", "é.txt"]);
}
