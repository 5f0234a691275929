use rhyve::image::{image_path, stored_message, valid_image_name};

#[test]
fn image_names_cannot_leave_the_directory() {
    assert!(valid_image_name("hello"));
    assert!(valid_image_name("hello_world.elf"));
    assert!(valid_image_name("."));
    assert!(valid_image_name("a.b.c"));
    assert!(!valid_image_name(""));
    assert!(!valid_image_name("a/b"));
    assert!(!valid_image_name("/"));
    assert!(!valid_image_name(".."));
    assert!(!valid_image_name("a..b"));
}

#[test]
fn image_path_is_in_the_upload_directory() {
    assert_eq!(image_path("hello"), Some(String::from("/image/hello")));
    assert_eq!(image_path("../etc"), None);
    assert_eq!(image_path(""), None);
}

#[test]
fn stored_message_names_size_and_path() {
    assert_eq!(
        stored_message(1234, "/image/hello"),
        "stored 1234 bytes at /image/hello\n"
    );
    assert_eq!(stored_message(0, "/image/x"), "stored 0 bytes at /image/x\n");
}
