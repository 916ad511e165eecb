use photos_to_json::models::image::Error;
use photos_to_json::models::image::ImageKind;

#[test]
fn jpg_in_any_case_is_jpeg() {
    for ext in ["jpg", "jpeg", "JPG", "JPEG", "Jpg", "jPeG"] {
        assert_eq!(ImageKind::from_str(ext).unwrap(), ImageKind::Jpeg);
    }
}

#[test]
fn png_in_any_case_is_png() {
    for ext in ["png", "PNG", "Png"] {
        assert_eq!(ImageKind::from_str(ext).unwrap(), ImageKind::Png);
    }
}

#[test]
fn other_extensions_are_refused() {
    for ext in ["", "gif", "jpe", "jpgx", "pngg", ".png", "j\u{212A}g", "pn"] {
        match ImageKind::from_str(ext) {
            Err(Error::InvalidExtension { ext: refused }) => assert_eq!(refused, ext),
            other => panic!("{:?}", other),
        }
    }
}

#[test]
fn extension_parses_into_a_kind() {
    assert_eq!("JPEG".parse::<ImageKind>().unwrap(), ImageKind::Jpeg);
    assert_eq!("png".parse::<ImageKind>().unwrap(), ImageKind::Png);
    assert!(matches!("bmp".parse::<ImageKind>(), Err(Error::InvalidExtension { .. })));
}

#[test]
fn kind_is_written_by_its_name() {
    assert_eq!(ImageKind::Jpeg.as_str(), "Jpeg");
    assert_eq!(ImageKind::Png.as_str(), "Png");
}
