use media_ingest::media::{get_file_mime_type, is_media_file, scan_folder, ScanEntry};

#[test]
fn txt_is_not_media() {
    assert!(!is_media_file("pictures/note.txt", true));
}

#[test]
fn mp4_is_media() {
    assert!(is_media_file("pictures/clip.mp4", true));
}

#[test]
fn png_is_media() {
    assert!(is_media_file("pictures/photo.png", true));
}

#[test]
fn non_file_is_not_media() {
    assert!(!is_media_file("pictures/photo.png", false));
}

#[test]
fn no_extension_is_not_media() {
    assert!(!is_media_file("pictures/README", true));
    assert!(!is_media_file("pictures/.hidden", true));
}

#[test]
fn mime_type_of_png() {
    assert_eq!(
        get_file_mime_type("a/photo.png", true),
        Some(String::from("image/png"))
    );
}

#[test]
fn mime_type_of_mp4() {
    assert_eq!(
        get_file_mime_type("a/clip.mp4", true),
        Some(String::from("video/mp4"))
    );
}

#[test]
fn mime_type_of_directory_is_none() {
    assert_eq!(get_file_mime_type("a/photo.png", false), None);
}

#[test]
fn mime_extension_lookup_is_case_insensitive() {
    assert_eq!(
        get_file_mime_type("a/photo.PNG", true),
        Some(String::from("image/png"))
    );
}

fn entry(path: &str, is_file: bool, size: u64) -> ScanEntry {
    ScanEntry {
        path: String::from(path),
        is_file,
        size,
    }
}

#[test]
fn scan_tallies_by_category_and_size() {
    let entries = vec![
        entry("root", false, 0),
        entry("root/a.png", true, 10),
        entry("root/b.mp4", true, 20),
        entry("root/c.txt", true, 5),
        entry("root/sub", false, 4096),
        entry("root/sub/d.jpg", true, 7),
    ];
    let (videos, images, total) = scan_folder(&entries);
    assert_eq!(videos, 1);
    assert_eq!(images, 2);
    assert_eq!(total, 37);
}

#[test]
fn scan_of_empty_listing_is_zero() {
    let entries: Vec<ScanEntry> = Vec::new();
    assert_eq!(scan_folder(&entries), (0, 0, 0));
}
