use folderify::icon_conversion::{iconset_file_path, IconResolution};

#[test]
fn values_lists_all_ten_largest_first() {
    let values = IconResolution::values();
    assert_eq!(values.len(), 10);
    assert_eq!(values[0], IconResolution::Retina512);
    assert_eq!(values[1], IconResolution::NonRetina512);
    assert_eq!(values[8], IconResolution::Retina16);
    assert_eq!(values[9], IconResolution::NonRetina16);
}

#[test]
fn sizes_match_table() {
    assert_eq!(IconResolution::NonRetina16.size(), 16);
    assert_eq!(IconResolution::Retina16.size(), 32);
    assert_eq!(IconResolution::NonRetina32.size(), 32);
    assert_eq!(IconResolution::Retina32.size(), 64);
    assert_eq!(IconResolution::NonRetina128.size(), 128);
    assert_eq!(IconResolution::Retina128.size(), 256);
    assert_eq!(IconResolution::NonRetina256.size(), 256);
    assert_eq!(IconResolution::Retina256.size(), 512);
    assert_eq!(IconResolution::NonRetina512.size(), 512);
    assert_eq!(IconResolution::Retina512.size(), 1024);
}

#[test]
fn offsets_match_table() {
    assert_eq!(IconResolution::NonRetina16.offset_y(), -2);
    assert_eq!(IconResolution::Retina32.offset_y(), -3);
    assert_eq!(IconResolution::NonRetina128.offset_y(), -6);
    assert_eq!(IconResolution::Retina256.offset_y(), -24);
    assert_eq!(IconResolution::Retina512.offset_y(), -48);
}

#[test]
fn bottom_bezel_parameters_match_table() {
    let b = IconResolution::NonRetina16.bottom_bezel_blur_down();
    assert_eq!(b.spread_px, 1);
    assert_eq!(b.page_y, 0);
    let b = IconResolution::Retina512.bottom_bezel_blur_down();
    assert_eq!(b.spread_px, 2);
    assert_eq!(b.page_y, 1);

    assert_eq!(IconResolution::NonRetina16.bottom_bezel_alpha().hundredths, 50);
    assert_eq!(IconResolution::Retina16.bottom_bezel_alpha().hundredths, 35);
    assert_eq!(IconResolution::Retina32.bottom_bezel_alpha().hundredths, 60);
    assert_eq!(IconResolution::Retina256.bottom_bezel_alpha().hundredths, 75);
    assert_eq!(IconResolution::Retina512.bottom_bezel_alpha().hundredths, 75);
}

#[test]
fn labels_follow_iconset_convention() {
    assert_eq!(IconResolution::NonRetina16.label(), "16x16");
    assert_eq!(IconResolution::Retina16.label(), "16x16@2x");
    assert_eq!(IconResolution::NonRetina512.label(), "512x512");
    assert_eq!(IconResolution::Retina512.label(), "512x512@2x");
}

#[test]
fn icon_file_names_follow_iconset_convention() {
    assert_eq!(IconResolution::NonRetina16.icon_file(), "icon_16x16.png");
    assert_eq!(IconResolution::Retina256.icon_file(), "icon_256x256@2x.png");
}

#[test]
fn all_ten_icon_file_names_are_distinct() {
    let names: Vec<String> = IconResolution::values()
        .iter()
        .map(|r| r.icon_file())
        .collect();
    assert_eq!(names.len(), 10);
    for i in 0..names.len() {
        for j in 0..i {
            assert_ne!(names[i], names[j]);
        }
    }
    let expected = [
        "icon_512x512@2x.png",
        "icon_512x512.png",
        "icon_256x256@2x.png",
        "icon_256x256.png",
        "icon_128x128@2x.png",
        "icon_128x128.png",
        "icon_32x32@2x.png",
        "icon_32x32.png",
        "icon_16x16@2x.png",
        "icon_16x16.png",
    ];
    for (name, want) in names.iter().zip(expected.iter()) {
        assert_eq!(name, want);
    }
}

#[test]
fn iconset_paths_are_distinct_per_resolution() {
    let paths: Vec<String> = IconResolution::values()
        .iter()
        .map(|r| iconset_file_path("/out/mask.iconset", r))
        .collect();
    assert_eq!(paths[0], "/out/mask.iconset/icon_512x512@2x.png");
    for i in 0..paths.len() {
        for j in 0..i {
            assert_ne!(paths[i], paths[j]);
        }
    }
}

#[test]
fn labels_contain_no_underscore() {
    for r in IconResolution::values() {
        assert!(!r.label().contains('_'));
    }
}
