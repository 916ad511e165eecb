use photos_to_json::models::image::Candidate;
use photos_to_json::models::image::Error;
use photos_to_json::models::image::ImageKind;
use photos_to_json::utils::path::extension;
use std::path::Path;

#[test]
fn extension_is_what_follows_the_last_dot() {
    assert_eq!(extension("photo.png"), Some("png"));
    assert_eq!(extension("archive.tar.gz"), Some("gz"));
    assert_eq!(extension("photo."), Some(""));
    assert_eq!(extension("..png"), Some("png"));
    assert_eq!(extension("p\u{e9}ch\u{e9}.JPG"), Some("JPG"));
}

#[test]
fn extension_is_absent_without_a_dot_past_the_start() {
    assert_eq!(extension("photo"), None);
    assert_eq!(extension(".hidden"), None);
    assert_eq!(extension(""), None);
    assert_eq!(extension("."), None);
}

#[test]
fn extension_agrees_with_the_standard_library() {
    let names = [
        "a.png", "a", ".a", "a.", "a.b.c", "..a", "a..", "a..b", ".a.b", "x.JPEG", "\u{e9}.\u{e9}",
        "...", "a b.c d", "-.-",
    ];
    for name in names {
        let expected = Path::new(name).extension().map(|e| e.to_str().unwrap());
        assert_eq!(extension(name), expected, "{}", name);
    }
}

#[test]
fn candidate_of_a_png_path() {
    let candidate = Candidate::of_path(Ok("/photos/holiday/beach.PNG")).unwrap();
    assert_eq!(candidate.path(), "/photos/holiday/beach.PNG");
    assert_eq!(candidate.file_name(), "beach.PNG");
    assert_eq!(candidate.kind(), ImageKind::Png);
}

#[test]
fn candidate_of_a_jpeg_path() {
    let candidate = Candidate::of_path(Ok("relative/dir.d/cat.jpeg")).unwrap();
    assert_eq!(candidate.path(), "relative/dir.d/cat.jpeg");
    assert_eq!(candidate.file_name(), "cat.jpeg");
    assert_eq!(candidate.kind(), ImageKind::Jpeg);
}

#[test]
fn candidate_takes_the_name_of_the_last_component() {
    let candidate = Candidate::of_path(Ok("/photos/album.jpg/")).unwrap();
    assert_eq!(candidate.path(), "/photos/album.jpg/");
    assert_eq!(candidate.file_name(), "album.jpg");
}

#[test]
fn path_that_is_not_text_is_invalid() {
    match Candidate::of_path(Err("/photos/caf\u{fffd}.png")) {
        Err(Error::InvalidPath { entry }) => assert_eq!(entry, "/photos/caf\u{fffd}.png"),
        other => panic!("{:?}", other),
    }
    match Candidate::from_parts(Err("\u{fffd}"), Some("png"), Some("a.png")) {
        Err(Error::InvalidPath { entry }) => assert_eq!(entry, "\u{fffd}"),
        other => panic!("{:?}", other),
    }
}

#[test]
fn path_that_is_not_text_is_refused_before_its_parts_are_looked_at() {
    assert!(matches!(Candidate::from_parts(Err("x"), None, None), Err(Error::InvalidPath { .. })));
}

#[test]
fn path_without_extension_is_refused() {
    for path in ["/photos", "/photos/readme", "/", "", "/photos/.hidden", "/photos/x.png/.."] {
        match Candidate::of_path(Ok(path)) {
            Err(Error::MissingExtension { entry }) => assert_eq!(entry, path),
            other => panic!("{:?}", other),
        }
    }
}

#[test]
fn path_without_file_name_is_refused() {
    match Candidate::from_parts(Ok("a.png"), Some("png"), None) {
        Err(Error::MissingFilename { entry }) => assert_eq!(entry, "a.png"),
        other => panic!("{:?}", other),
    }
}

#[test]
fn missing_extension_is_found_before_missing_file_name() {
    assert!(matches!(
        Candidate::from_parts(Ok("a"), None, None),
        Err(Error::MissingExtension { .. })
    ));
}

#[test]
fn path_with_other_extension_is_refused() {
    match Candidate::of_path(Ok("/photos/notes.txt")) {
        Err(Error::InvalidExtension { ext }) => assert_eq!(ext, "txt"),
        other => panic!("{:?}", other),
    }
    match Candidate::of_path(Ok("/photos/empty.")) {
        Err(Error::InvalidExtension { ext }) => assert_eq!(ext, ""),
        other => panic!("{:?}", other),
    }
}

#[test]
fn candidate_from_parts_keeps_what_it_is_given() {
    let candidate = Candidate::from_parts(Ok("x/y.jpg"), Some("JpG"), Some("y.jpg")).unwrap();
    assert_eq!(candidate.path(), "x/y.jpg");
    assert_eq!(candidate.file_name(), "y.jpg");
    assert_eq!(candidate.kind(), ImageKind::Jpeg);
}
