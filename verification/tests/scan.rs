use wallpaper_manager::path::join;
use wallpaper_manager::scan::{contains, regular_files, DirEntry};

fn entry(name: &str, is_file: bool) -> DirEntry {
    DirEntry { name: name.to_string(), is_file }
}

#[test]
fn only_regular_files_are_yielded() {
    let entries = vec![
        entry("b.mp4", true),
        entry("dir", false),
        entry("a.mp4", true),
        entry("socket", false),
        entry("c", true),
    ];
    assert_eq!(regular_files(&entries), vec!["b.mp4", "a.mp4", "c"]);
}

#[test]
fn empty_listing() {
    assert!(regular_files(&vec![]).is_empty());
    assert!(regular_files(&vec![entry("dir", false)]).is_empty());
}

#[test]
fn contains_compares_whole_strings() {
    let list = vec!["a.jpg".to_string(), "b.jpg".to_string()];
    assert!(contains(&list, &"a.jpg".to_string()));
    assert!(contains(&list, &"b.jpg".to_string()));
    assert!(!contains(&list, &"a".to_string()));
    assert!(!contains(&list, &"a.jpg ".to_string()));
    assert!(!contains(&vec![], &"a.jpg".to_string()));
}

#[test]
fn keys_by_name_are_keys_by_path() {
    let names = ["a.jpg", "b.jpg", ".hidden.jpg", "a", "a.jpg.jpg", "b"];
    for dir in ["/c/wallpapers-thumbnail", "/c/wallpapers-thumbnail/", "", "rel"] {
        let live = vec!["a.jpg".to_string(), ".hidden.jpg".to_string(), "b".to_string()];
        let live_paths: Vec<String> = live.iter().map(|key| join(dir, key)).collect();
        for name in names {
            assert_eq!(
                contains(&live_paths, &join(dir, name)),
                contains(&live, &name.to_string()),
                "{:?} in {:?}",
                name,
                dir
            );
        }
    }
}
