use image_rename_tool::config::{config_dir_path, config_file_path, config_or_default, default_config, Config};
use image_rename_tool::paths::{extension_chars, file_name_chars, parent_chars, with_file_name_chars};
use image_rename_tool::scanner::{filter_image_entries, is_image_path, FsEntry};

fn chars(s: &str) -> Vec<char> {
    s.chars().collect()
}

fn text(v: &[char]) -> String {
    v.iter().collect()
}

fn entry(path: &str, is_file: bool) -> FsEntry {
    FsEntry { path: path.to_string(), is_file }
}

#[test]
fn image_paths_by_extension() {
    assert!(is_image_path("/d/a.jpg"));
    assert!(is_image_path("/d/a.JPEG"));
    assert!(is_image_path("relative.png"));
    assert!(!is_image_path("/d/a.gif"));
    assert!(!is_image_path("/d/a.txt"));
    assert!(!is_image_path("/d/noext"));
    // a leading dot alone is a hidden name, not an extension
    assert!(!is_image_path("/d/.jpg"));
}

#[test]
fn filter_keeps_image_files_in_order() {
    let entries = vec![
        entry("/d/b.png", true),
        entry("/d/sub", false),
        entry("/d/sub/c.txt", true),
        entry("/d/sub/d.JPG", true),
        entry("/d/a.jpeg", true),
        entry("/d/e.png", false),
    ];
    let r = filter_image_entries(&entries);
    assert_eq!(r, vec!["/d/b.png", "/d/sub/d.JPG", "/d/a.jpeg"]);
}

#[test]
fn rescanning_unchanged_entries_gives_the_same_paths() {
    let entries = vec![
        entry("/d/a.jpg", true),
        entry("/d/b.txt", true),
        entry("/d/c.png", true),
    ];
    let first = filter_image_entries(&entries);
    let second = filter_image_entries(&entries);
    assert_eq!(first, second);
}

#[test]
fn default_record_values() {
    let c = default_config();
    assert_eq!(c.last_number, 1);
    assert_eq!(c.last_prefix, "img");
}

#[test]
fn loaded_record_is_used_as_it_is() {
    let loaded = Config { last_number: 42, last_prefix: "trip".to_string() };
    let (c, persist) = config_or_default(Some(loaded));
    assert_eq!(c.last_number, 42);
    assert_eq!(c.last_prefix, "trip");
    assert!(!persist);
}

#[test]
fn failed_load_falls_back_to_defaults_and_persists() {
    let (c, persist) = config_or_default(None);
    assert_eq!(c.last_number, 1);
    assert_eq!(c.last_prefix, "img");
    assert!(persist);
}

#[test]
fn config_lives_under_a_dotted_home_subdirectory() {
    assert_eq!(config_dir_path("/home/u"), "/home/u/.image_rename_tool");
    assert_eq!(
        config_file_path("/home/u"),
        "/home/u/.image_rename_tool/config.json"
    );
    // a home path with a trailing slash is not doubled
    assert_eq!(
        config_file_path("/home/u/"),
        "/home/u/.image_rename_tool/config.json"
    );
}

#[test]
fn path_parts() {
    assert_eq!(text(&file_name_chars(&chars("/d/a.jpg"))), "a.jpg");
    assert_eq!(text(&file_name_chars(&chars("plain.png"))), "plain.png");
    assert_eq!(
        extension_chars(&chars("/d/a.tar.gz")).map(|e| text(&e)),
        Some(".gz".to_string())
    );
    assert_eq!(extension_chars(&chars("/d/noext")), None);
    assert_eq!(extension_chars(&chars("/d/.hidden")), None);
    assert_eq!(parent_chars(&chars("/d/a.jpg")).map(|p| text(&p)), Some("/d".to_string()));
    assert_eq!(parent_chars(&chars("/top")).map(|p| text(&p)), Some("/".to_string()));
    assert_eq!(parent_chars(&chars("lonely")), None);
    assert_eq!(
        text(&with_file_name_chars(&chars("/d/a.jpg"), &chars("b.png"))),
        "/d/b.png"
    );
    assert_eq!(
        text(&with_file_name_chars(&chars("bare.jpg"), &chars("b.png"))),
        "b.png"
    );
}
