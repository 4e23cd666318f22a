use image_watcher::paths::default_output_path;

#[test]
fn derives_with_parent_directory() {
    assert_eq!(
        default_output_path("imgs/photo.jpg"),
        Some("imgs/photo.min.jpg".to_string())
    );
}

#[test]
fn derives_without_parent_directory() {
    assert_eq!(default_output_path("a.png"), Some("a.min.png".to_string()));
}

#[test]
fn derives_for_absolute_path() {
    assert_eq!(
        default_output_path("/abs/pic.png"),
        Some("/abs/pic.min.png".to_string())
    );
}

#[test]
fn derives_with_dotted_directory_and_double_extension() {
    assert_eq!(
        default_output_path("dir.v2/file.tar.gz"),
        Some("dir.v2/file.tar.min.gz".to_string())
    );
}

#[test]
fn rejects_path_without_extension() {
    assert_eq!(default_output_path("noext"), None);
}

#[test]
fn rejects_hidden_file_without_extension() {
    assert_eq!(default_output_path(".hidden"), None);
}

#[test]
fn rejects_path_without_file_name() {
    assert_eq!(default_output_path("dir/"), None);
}

#[test]
fn rejects_empty_path() {
    assert_eq!(default_output_path(""), None);
}
