use train_vocab::files::{file_extension, select_files_with_ext, DirEntry};

fn entry(path: &str, file_name: &str, is_file: bool) -> DirEntry {
    DirEntry { path: path.to_string(), file_name: file_name.to_string(), is_file }
}

#[test]
fn extension_is_what_follows_the_last_dot() {
    assert_eq!(file_extension("a.txt"), Some("txt".to_string()));
    assert_eq!(file_extension("archive.tar.gz"), Some("gz".to_string()));
    assert_eq!(file_extension(".hidden.txt"), Some("txt".to_string()));
    assert_eq!(file_extension("trailing."), Some(String::new()));
}

#[test]
fn names_without_an_extension() {
    assert_eq!(file_extension("README"), None);
    assert_eq!(file_extension(".bashrc"), None);
    assert_eq!(file_extension(""), None);
    assert_eq!(file_extension(".."), None);
    assert_eq!(file_extension("."), None);
}

#[test]
fn selects_exactly_the_matching_files() {
    let entries = vec![
        entry("d/a.txt", "a.txt", true),
        entry("d/b.md", "b.md", true),
        entry("d/c.txt", "c.txt", true),
        entry("d/sub.txt", "sub.txt", false),
        entry("d/d.TXT", "d.TXT", true),
        entry("d/e.txt.bak", "e.txt.bak", true),
        entry("d/.txt", ".txt", true),
        entry("d/f", "f", true),
    ];
    assert_eq!(select_files_with_ext(&entries, "txt"), vec!["d/a.txt", "d/c.txt"]);
    assert_eq!(select_files_with_ext(&entries, "md"), vec!["d/b.md"]);
    assert!(select_files_with_ext(&entries, "json").is_empty());
}

#[test]
fn n_matching_among_m_others() {
    let mut entries = Vec::new();
    for i in 0..7 {
        entries.push(entry(&format!("in/{i}.txt"), &format!("{i}.txt"), true));
        entries.push(entry(&format!("in/{i}.csv"), &format!("{i}.csv"), true));
        entries.push(entry(&format!("in/{i}"), &format!("{i}"), true));
    }
    let found = select_files_with_ext(&entries, "txt");
    assert_eq!(found.len(), 7);
    assert!(found.iter().all(|p| p.ends_with(".txt")));
}

#[test]
fn empty_directory_gives_no_files() {
    assert!(select_files_with_ext(&Vec::new(), "txt").is_empty());
}
