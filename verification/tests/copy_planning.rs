use image_resolution_finder::copying::{destination_path, file_name};

#[test]
fn file_name_is_the_last_component() {
    assert_eq!(file_name("/a/b/img1.jpg"), Some("img1.jpg".to_string()));
    assert_eq!(file_name("img1.jpg"), Some("img1.jpg".to_string()));
    assert_eq!(file_name("a/deeply/nested/x.png"), Some("x.png".to_string()));
}

#[test]
fn trailing_separator_has_no_file_name() {
    assert_eq!(file_name("/a/b/"), None);
    assert_eq!(file_name("/"), None);
    assert_eq!(file_name(""), None);
}

#[test]
fn destination_joins_directory_and_file_name() {
    assert_eq!(
        destination_path("image_data", "/a/img1.jpg"),
        Some("image_data/img1.jpg".to_string())
    );
    assert_eq!(
        destination_path("out", "nested/dir/pic.png"),
        Some("out/pic.png".to_string())
    );
}

#[test]
fn destination_is_refused_without_a_file_name() {
    assert_eq!(destination_path("image_data", "/a/b/"), None);
    assert_eq!(destination_path("image_data", ""), None);
}

#[test]
fn repeated_copies_target_the_same_file() {
    // Copying the same passing file twice plans the identical target
    // both times: the second copy overwrites the first in place.
    let first = destination_path("image_data", "/a/img1.jpg");
    let second = destination_path("image_data", "/a/img1.jpg");
    assert_eq!(first, second);
    assert_eq!(first, Some("image_data/img1.jpg".to_string()));
}

#[test]
fn name_collisions_from_different_directories_collide() {
    // Two sources with the same file name flatten onto one target:
    // last write wins, by design.
    let a = destination_path("image_data", "/a/img.jpg");
    let b = destination_path("image_data", "/b/img.jpg");
    assert_eq!(a, b);
}
