use folderify::convert::{
    density, height_query_args, width_query_args, BlurDown, CommandArgs, CompositingOperation,
};
use folderify::error::FolderifyError;
use folderify::primitives::{Dimensions, Extent, Offset, Opacity, RGBColor};

fn strings(v: &[&str]) -> Vec<String> {
    v.iter().map(|s| s.to_string()).collect()
}

#[test]
fn background_and_fixed_token_groups() {
    let mut args = CommandArgs::new();
    args.background_transparent();
    args.trim();
    args.center();
    args.negate();
    args.flatten();
    assert_eq!(
        args.args,
        strings(&[
            "-background",
            "transparent",
            "-trim",
            "-gravity",
            "Center",
            "-negate",
            "-flatten",
        ])
    );
}

#[test]
fn resize_and_extent_tokens() {
    let mut args = CommandArgs::new();
    args.resize(&Dimensions {
        width: 768,
        height: 384,
    });
    args.extent(&Extent {
        size: Dimensions::square(512),
        offset: Offset::from_y(-24),
    });
    assert_eq!(
        args.args,
        strings(&["-resize", "768x384", "-extent", "512x512+0-24"])
    );
}

#[test]
fn fill_colorize_tokens() {
    let mut args = CommandArgs::new();
    args.fill_colorize(&RGBColor::new(8, 134, 206));
    assert_eq!(
        args.args,
        strings(&["-fill", "rgb(8, 134, 206)", "-colorize", "100, 100, 100"])
    );
}

#[test]
fn opacity_tokens() {
    let mut args = CommandArgs::new();
    args.opacity(Opacity::new(35));
    assert_eq!(
        args.args,
        strings(&["-channel", "Alpha", "-evaluate", "multiply", "0.35"])
    );
}

#[test]
fn page_and_motion_blur_tokens() {
    let mut args = CommandArgs::new();
    args.motion_blur_down(2);
    args.page(&Offset { x: 0, y: 1 });
    assert_eq!(args.args, strings(&["-motion-blur", "0x2-90", "-page", "+0+1"]));
}

#[test]
fn blur_down_composite_operation() {
    let mut args = CommandArgs::new();
    args.blur_down(&BlurDown {
        spread_px: 2,
        page_y: 1,
    });
    assert_eq!(
        args.args,
        strings(&[
            "-motion-blur",
            "0x2-90",
            "-page",
            "+0+1",
            "-background",
            "transparent",
            "-flatten",
        ])
    );
}

#[test]
fn composite_mode_tokens() {
    for (op, name) in [
        (CompositingOperation::Dst_In, "Dst_In"),
        (CompositingOperation::Dst_Out, "Dst_Out"),
        (CompositingOperation::dissolve, "dissolve"),
    ] {
        let mut args = CommandArgs::new();
        args.composite(&op);
        assert_eq!(args.args, strings(&["-compose", name, "-composite"]));
    }
}

#[test]
fn mask_down_tokens() {
    let mut args = CommandArgs::new();
    args.mask_down("/tmp/mask.png", &CompositingOperation::Dst_Out);
    assert_eq!(
        args.args,
        strings(&[
            "/tmp/mask.png",
            "-alpha",
            "Set",
            "-compose",
            "Dst_Out",
            "-composite",
        ])
    );
}

#[test]
fn query_args_request_single_fields() {
    let w = width_query_args("/tmp/mask.png");
    assert_eq!(w.args, strings(&["-format", "%w", "/tmp/mask.png"]));
    let h = height_query_args("/tmp/mask.png");
    assert_eq!(h.args, strings(&["-format", "%h", "/tmp/mask.png"]));
}

#[test]
fn density_scales_with_target() {
    let native = Dimensions {
        width: 128,
        height: 128,
    };
    let centering = Dimensions {
        width: 768,
        height: 384,
    };
    // max(144 * 768 / 128, 144 * 384 / 128) = max(864, 432)
    assert_eq!(density(&native, &centering).unwrap(), 864);
}

#[test]
fn density_equals_base_at_native_size() {
    let native = Dimensions {
        width: 768,
        height: 384,
    };
    let centering = Dimensions {
        width: 768,
        height: 384,
    };
    assert_eq!(density(&native, &centering).unwrap(), 144);
}

#[test]
fn density_monotone_in_target() {
    let native = Dimensions {
        width: 100,
        height: 100,
    };
    let mut last = 0;
    for w in [100u32, 200, 300, 768, 1000] {
        let centering = Dimensions {
            width: w,
            height: w / 2,
        };
        let d = density(&native, &centering).unwrap();
        assert!(d >= last);
        last = d;
    }
    // Covering the native size in both axes keeps the density at or above
    // the base density.
    assert!(last >= 144);
}

#[test]
fn density_zero_native_width_fails() {
    let native = Dimensions {
        width: 0,
        height: 128,
    };
    let centering = Dimensions {
        width: 768,
        height: 384,
    };
    match density(&native, &centering) {
        Err(FolderifyError::General(g)) => {
            assert_eq!(g.message, "Mask dimensions must be positive");
        }
        other => panic!("expected a general error, got {:?}", other),
    }
}

#[test]
fn density_zero_native_height_fails() {
    let native = Dimensions {
        width: 128,
        height: 0,
    };
    let centering = Dimensions {
        width: 768,
        height: 384,
    };
    assert!(matches!(
        density(&native, &centering),
        Err(FolderifyError::General(_))
    ));
}

#[test]
fn append_args_concatenates() {
    let mut a = CommandArgs::new();
    a.push("one");
    let mut b = CommandArgs::new();
    b.push("two");
    b.push("three");
    a.append_args(&mut b);
    assert_eq!(a.args, strings(&["one", "two", "three"]));
    assert!(b.args.is_empty());
}
