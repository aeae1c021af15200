use wallpaper_cli::{extension_of, str_eq, validate_path, ModeOption, PathError};

#[test]
fn six_mode_strings_parse_to_unique_variants() {
    let cases = [
        ("center", ModeOption::Center),
        ("crop", ModeOption::Crop),
        ("fit", ModeOption::Fit),
        ("span", ModeOption::Span),
        ("stretch", ModeOption::Stretch),
        ("tile", ModeOption::Tile),
    ];
    for (name, variant) in cases {
        assert_eq!(ModeOption::from_str(name), Some(variant));
    }
    for (i, (left, _)) in cases.iter().enumerate() {
        for (j, (right, _)) in cases.iter().enumerate() {
            assert_eq!(
                ModeOption::from_str(left) == ModeOption::from_str(right),
                i == j
            );
        }
    }
}

#[test]
fn other_mode_strings_fail_to_parse() {
    for s in ["", "Tile", "TILE", "tiled", "til", "mosaic", " tile", "tile "] {
        assert_eq!(ModeOption::from_str(s), None);
    }
}

#[test]
fn mode_names_round_trip() {
    for (i, name) in ModeOption::possible_values().into_iter().enumerate() {
        let mode = ModeOption::from_str(name).unwrap();
        assert_eq!(mode.name(), name);
        assert_eq!(ModeOption::possible_values()[i], name);
    }
    assert_eq!(
        ModeOption::possible_values(),
        vec!["center", "crop", "fit", "span", "stretch", "tile"]
    );
}

#[test]
fn extension_of_final_segment() {
    assert_eq!(extension_of("wallpaper.png"), Some("png".to_owned()));
    assert_eq!(extension_of("a/b/c.jpg"), Some("jpg".to_owned()));
    assert_eq!(extension_of("archive.tar.gz"), Some("gz".to_owned()));
    assert_eq!(extension_of("dir.d/file"), None);
    assert_eq!(extension_of("wallpaper"), None);
    assert_eq!(extension_of(".hidden"), None);
    assert_eq!(extension_of("a/.hidden"), None);
    assert_eq!(extension_of("trailing."), Some("".to_owned()));
    assert_eq!(extension_of(""), None);
}

#[test]
fn validate_path_whitelist() {
    assert_eq!(validate_path("a.png"), Ok(()));
    assert_eq!(validate_path("a.jpg"), Ok(()));
    assert_eq!(validate_path("a.jpeg"), Err(PathError::UnsupportedExtension));
    assert_eq!(validate_path("a.PNG"), Err(PathError::UnsupportedExtension));
    assert_eq!(validate_path("a."), Err(PathError::UnsupportedExtension));
    assert_eq!(validate_path("a"), Err(PathError::InvalidImagePath));
    assert_eq!(validate_path("b.png/a"), Err(PathError::InvalidImagePath));
}

#[test]
fn str_eq_decides_equality() {
    assert!(str_eq("", ""));
    assert!(str_eq("png", "png"));
    assert!(!str_eq("png", "pnG"));
    assert!(!str_eq("png", "pngs"));
    assert!(str_eq("na\u{ef}ve", "na\u{ef}ve"));
    assert!(!str_eq("na\u{ef}ve", "naive"));
}
