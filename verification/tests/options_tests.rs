use folderify::icon_conversion::ProgressBarType;
use folderify::options::{
    classify_macos_version, is_major_macos_version_one_of, map_color_scheme,
    resolve_set_icon_using, Badge, ColorScheme, ColorSchemeOrAuto, FolderStyle, Options,
    SetIconUsing, SetIconUsingOrAuto, VersionVerdict,
};

fn options() -> Options {
    Options {
        mask_path: "/tmp/mask.png".to_string(),
        color_scheme: ColorScheme::Light,
        no_trim: false,
        target: None,
        folder_style: FolderStyle::BigSur,
        empty_folder: false,
        output_icns: None,
        output_iconset: None,
        set_icon_using: SetIconUsing::Osascript,
        show_progress: false,
        badge: None,
        reveal: false,
        verbose: false,
        debug: false,
    }
}

#[test]
fn classify_big_sur_era_versions() {
    for v in ["11", "12.6", "13.0.1", "14.2.1", "15.0"] {
        assert_eq!(classify_macos_version(v), VersionVerdict::BigSurEra);
    }
}

#[test]
fn classify_rejects_legacy_macos_ten() {
    for v in [
        "10.5", "10.6", "10.7", "10.8", "10.9", "10.10", "10.11", "10.12", "10.13", "10.14",
        "10.15",
    ] {
        assert_eq!(classify_macos_version(v), VersionVerdict::UnsupportedLegacy);
    }
}

#[test]
fn classify_macos_ten_sixteen_is_unknown_not_legacy() {
    // macOS 11 sometimes reports itself as 10.16; it must not hit the
    // legacy rejection, which matches exact values only.
    assert_eq!(
        classify_macos_version("10.16"),
        VersionVerdict::UnknownAssumeBigSur
    );
    assert_eq!(
        classify_macos_version("10.15.7"),
        VersionVerdict::UnknownAssumeBigSur
    );
}

#[test]
fn classify_tahoe_beta() {
    assert_eq!(classify_macos_version("26"), VersionVerdict::TahoeBeta);
    assert_eq!(classify_macos_version("26.0.1"), VersionVerdict::TahoeBeta);
}

#[test]
fn classify_unknown_versions() {
    for v in ["9000", "16.1", "1", ""] {
        assert_eq!(classify_macos_version(v), VersionVerdict::UnknownAssumeBigSur);
    }
}

#[test]
fn verdicts_map_to_folder_styles() {
    assert_eq!(VersionVerdict::UnsupportedLegacy.folder_style(), None);
    assert_eq!(
        VersionVerdict::BigSurEra.folder_style(),
        Some(FolderStyle::BigSur)
    );
    assert_eq!(
        VersionVerdict::TahoeBeta.folder_style(),
        Some(FolderStyle::Tahoe)
    );
    assert_eq!(
        VersionVerdict::UnknownAssumeBigSur.folder_style(),
        Some(FolderStyle::BigSur)
    );
}

#[test]
fn major_version_matching() {
    let versions = ["15", "14", "13", "12", "11"];
    assert!(is_major_macos_version_one_of("14.2.1", &versions));
    assert!(is_major_macos_version_one_of("11", &versions));
    assert!(!is_major_macos_version_one_of("110", &versions));
    assert!(!is_major_macos_version_one_of("1.4", &versions));
    assert!(!is_major_macos_version_one_of("26.0", &versions));
}

#[test]
fn color_scheme_resolution() {
    // The Tahoe style ignores the request entirely.
    for request in [
        ColorSchemeOrAuto::Auto,
        ColorSchemeOrAuto::Light,
        ColorSchemeOrAuto::Dark,
    ] {
        assert_eq!(
            map_color_scheme(request, FolderStyle::Tahoe, true),
            ColorScheme::Light
        );
    }
    // Big Sur honors explicit requests and falls back to the system answer.
    assert_eq!(
        map_color_scheme(ColorSchemeOrAuto::Dark, FolderStyle::BigSur, false),
        ColorScheme::Dark
    );
    assert_eq!(
        map_color_scheme(ColorSchemeOrAuto::Light, FolderStyle::BigSur, true),
        ColorScheme::Light
    );
    assert_eq!(
        map_color_scheme(ColorSchemeOrAuto::Auto, FolderStyle::BigSur, true),
        ColorScheme::Dark
    );
    assert_eq!(
        map_color_scheme(ColorSchemeOrAuto::Auto, FolderStyle::BigSur, false),
        ColorScheme::Light
    );
}

#[test]
fn dark_and_light_mode_identity_per_style() {
    assert!(!FolderStyle::BigSur.dark_mode_and_light_mode_are_identical());
    assert!(FolderStyle::Tahoe.dark_mode_and_light_mode_are_identical());
}

#[test]
fn style_and_scheme_names() {
    assert_eq!(FolderStyle::BigSur.name(), "Big Sur");
    assert_eq!(FolderStyle::Tahoe.name(), "Tahoe");
    assert_eq!(ColorScheme::Light.name(), "light");
    assert_eq!(ColorScheme::Dark.name(), "dark");
}

#[test]
fn set_icon_using_defaults_to_osascript() {
    assert_eq!(resolve_set_icon_using(None), SetIconUsing::Osascript);
    assert_eq!(
        resolve_set_icon_using(Some(SetIconUsingOrAuto::Auto)),
        SetIconUsing::Osascript
    );
    assert_eq!(
        resolve_set_icon_using(Some(SetIconUsingOrAuto::Osascript)),
        SetIconUsing::Osascript
    );
    assert_eq!(
        resolve_set_icon_using(Some(SetIconUsingOrAuto::Rez)),
        SetIconUsing::Rez
    );
    assert_eq!(
        resolve_set_icon_using(Some(SetIconUsingOrAuto::Fileicon)),
        SetIconUsing::Fileicon
    );
}

#[test]
fn progress_bar_step_counts() {
    let plain = options();
    assert_eq!(ProgressBarType::Input.num_steps(&plain), 1);
    assert_eq!(ProgressBarType::Conversion.num_steps(&plain), 13);
    assert_eq!(ProgressBarType::OutputWithAssignment.num_steps(&plain), 2);
    assert_eq!(ProgressBarType::OutputIcns.num_steps(&plain), 1);

    let mut badged = options();
    badged.badge = Some(Badge::Alias);
    assert_eq!(ProgressBarType::Conversion.num_steps(&badged), 14);

    let mut rez = options();
    rez.set_icon_using = SetIconUsing::Rez;
    assert_eq!(ProgressBarType::OutputWithAssignment.num_steps(&rez), 9);
}
