use folderify::primitives::{Dimensions, Extent, Offset, Opacity, RGBColor};

#[test]
fn dimensions_string_is_width_x_height() {
    let d = Dimensions {
        width: 768,
        height: 384,
    };
    assert_eq!(d.to_cli_string(), "768x384");
}

#[test]
fn dimensions_string_has_no_whitespace() {
    let d = Dimensions {
        width: 1024,
        height: 0,
    };
    let s = d.to_cli_string();
    assert_eq!(s, "1024x0");
    assert!(!s.contains(' '));
    assert!(!s.contains('\t'));
}

#[test]
fn square_dimensions() {
    let d = Dimensions::square(512);
    assert_eq!(d.width, 512);
    assert_eq!(d.height, 512);
    assert_eq!(d.to_cli_string(), "512x512");
}

#[test]
fn rgb_string_format() {
    assert_eq!(RGBColor::new(8, 134, 206).to_cli_string(), "rgb(8, 134, 206)");
    assert_eq!(RGBColor::new(0, 0, 0).to_cli_string(), "rgb(0, 0, 0)");
    assert_eq!(
        RGBColor::new(255, 255, 255).to_cli_string(),
        "rgb(255, 255, 255)"
    );
}

#[test]
fn offset_zero_has_explicit_plus_signs() {
    let o = Offset { x: 0, y: 0 };
    assert_eq!(o.to_cli_string(), "+0+0");
}

#[test]
fn offset_signs_on_both_components() {
    assert_eq!(Offset { x: 5, y: -3 }.to_cli_string(), "+5-3");
    assert_eq!(Offset { x: -12, y: 7 }.to_cli_string(), "-12+7");
    assert_eq!(Offset::from_y(-24).to_cli_string(), "+0-24");
    assert_eq!(Offset { x: 0, y: -48 }.to_cli_string(), "+0-48");
}

#[test]
fn extent_no_offset_appends_plus_zero_plus_zero() {
    let size = Dimensions {
        width: 512,
        height: 512,
    };
    let e = Extent::no_offset(&size);
    let expected = format!("{}+0+0", size.to_cli_string());
    assert_eq!(e.to_cli_string(), expected);
    assert_eq!(e.to_cli_string(), "512x512+0+0");
}

#[test]
fn extent_with_offset() {
    let e = Extent {
        size: Dimensions::square(512),
        offset: Offset::from_y(-24),
    };
    assert_eq!(e.to_cli_string(), "512x512+0-24");
}

#[test]
fn opacity_strings_match_unit_fractions() {
    assert_eq!(Opacity::new(100).to_cli_string(), "1");
    assert_eq!(Opacity::new(0).to_cli_string(), "0");
    assert_eq!(Opacity::new(50).to_cli_string(), "0.5");
    assert_eq!(Opacity::new(35).to_cli_string(), "0.35");
    assert_eq!(Opacity::new(60).to_cli_string(), "0.6");
    assert_eq!(Opacity::new(75).to_cli_string(), "0.75");
    assert_eq!(Opacity::new(5).to_cli_string(), "0.05");
}
