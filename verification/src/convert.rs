//! The compositing-argument builder and the density computation.
//!
//! Every visual effect is assembled from a small vocabulary of token groups
//! appended to an ordered argument list; the external engine is
//! order-sensitive, so each append states exactly which tokens it adds.

use vstd::prelude::*;
use vstd::string::*;

use crate::error::{FolderifyError, GeneralError};
use crate::primitives::{Dimensions, Extent, Offset, Opacity, RGBColor};
use crate::primitives::{
    spec_dimensions_string, spec_extent_string, spec_offset_string, spec_opacity_string,
    spec_rgb_string,
};
use crate::strutil::{append_u32, dec_str};

verus! {

/// The base rasterization density (dots per inch) for a mask rendered at
/// exactly its native size.
pub const DEFAULT_DENSITY: u32 = 144;

/// An ordered, append-only list of string tokens for one invocation of the
/// external processing engine.
#[derive(Debug)]
pub struct CommandArgs {
    pub args: Vec<String>,
}

impl View for CommandArgs {
    type V = Seq<Seq<char>>;

    open spec fn view(&self) -> Seq<Seq<char>> {
        self.args.deep_view()
    }
}

impl CommandArgs {
    pub fn new() -> (r: Self)
        ensures
            r@ == Seq::<Seq<char>>::empty(),
    {
        let r = CommandArgs { args: Vec::new() };
        proof {
            assert(r@ =~= Seq::<Seq<char>>::empty());
        }
        r
    }

    pub fn push_string(&mut self, s: String)
        ensures
            final(self)@ == old(self)@.push(s@),
    {
        let ghost sv = s@;
        self.args.push(s);
        proof {
            assert(self@ =~= old(self)@.push(sv));
        }
    }

    pub fn push(&mut self, s: &str)
        ensures
            final(self)@ == old(self)@.push(s@),
    {
        self.push_string(s.to_owned());
    }

    /// Pushes a file-system path; paths are plain strings throughout the
    /// library.
    pub fn push_path(&mut self, path: &str)
        ensures
            final(self)@ == old(self)@.push(path@),
    {
        self.push(path);
    }

    pub fn background_transparent(&mut self)
        ensures
            final(self)@ == old(self)@ + seq!["-background"@, "transparent"@],
    {
        self.push("-background");
        self.push("transparent");
        proof {
            assert(self@ =~= old(self)@ + seq!["-background"@, "transparent"@]);
        }
    }

    /// The same tokens as `background_transparent`: the engine names one
    /// background state, and both operation names of the vocabulary select it.
    pub fn background_none(&mut self)
        ensures
            final(self)@ == old(self)@ + seq!["-background"@, "transparent"@],
    {
        self.push("-background");
        self.push("transparent");
        proof {
            assert(self@ =~= old(self)@ + seq!["-background"@, "transparent"@]);
        }
    }

    pub fn resize(&mut self, dimensions: &Dimensions)
        ensures
            final(self)@ == old(self)@ + seq![
                "-resize"@,
                spec_dimensions_string(dimensions.width as int, dimensions.height as int),
            ],
    {
        self.push("-resize");
        self.push_string(dimensions.to_cli_string());
        proof {
            assert(self@ =~= old(self)@ + seq![
                "-resize"@,
                spec_dimensions_string(dimensions.width as int, dimensions.height as int),
            ]);
        }
    }

    pub fn extent(&mut self, extent: &Extent)
        requires
            extent.offset.renderable(),
        ensures
            final(self)@ == old(self)@ + seq!["-extent"@, spec_extent_string(*extent)],
    {
        self.push("-extent");
        self.push_string(extent.to_cli_string());
        proof {
            assert(self@ =~= old(self)@ + seq!["-extent"@, spec_extent_string(*extent)]);
        }
    }

    pub fn format_width(&mut self)
        ensures
            final(self)@ == old(self)@ + seq!["-format"@, "%w"@],
    {
        self.push("-format");
        self.push("%w");
        proof {
            assert(self@ =~= old(self)@ + seq!["-format"@, "%w"@]);
        }
    }

    pub fn format_height(&mut self)
        ensures
            final(self)@ == old(self)@ + seq!["-format"@, "%h"@],
    {
        self.push("-format");
        self.push("%h");
        proof {
            assert(self@ =~= old(self)@ + seq!["-format"@, "%h"@]);
        }
    }

    pub fn density(&mut self, d: u32)
        ensures
            final(self)@ == old(self)@ + seq!["-density"@, dec_str(d as int)],
    {
        self.push("-density");
        let mut s = String::new();
        append_u32(&mut s, d);
        self.push_string(s);
        proof {
            assert(self@ =~= old(self)@ + seq!["-density"@, dec_str(d as int)]);
        }
    }

    pub fn trim(&mut self)
        ensures
            final(self)@ == old(self)@ + seq!["-trim"@],
    {
        self.push("-trim");
        proof {
            assert(self@ =~= old(self)@ + seq!["-trim"@]);
        }
    }

    pub fn center(&mut self)
        ensures
            final(self)@ == old(self)@ + seq!["-gravity"@, "Center"@],
    {
        self.push("-gravity");
        self.push("Center");
        proof {
            assert(self@ =~= old(self)@ + seq!["-gravity"@, "Center"@]);
        }
    }

    pub fn fill_colorize(&mut self, fill_color: &RGBColor)
        ensures
            final(self)@ == old(self)@ + spec_fill_colorize_args(*fill_color),
    {
        self.push("-fill");
        self.push_string(fill_color.to_cli_string());
        self.push("-colorize");
        self.push("100, 100, 100");
        proof {
            assert(self@ =~= old(self)@ + spec_fill_colorize_args(*fill_color));
        }
    }

    pub fn opacity(&mut self, alpha: Opacity)
        requires
            alpha.wf(),
        ensures
            final(self)@ == old(self)@ + spec_opacity_args(alpha),
    {
        self.push("-channel");
        self.push("Alpha");
        self.push("-evaluate");
        self.push("multiply");
        self.push_string(alpha.to_cli_string());
        proof {
            assert(self@ =~= old(self)@ + spec_opacity_args(alpha));
        }
    }

    pub fn negate(&mut self)
        ensures
            final(self)@ == old(self)@ + seq!["-negate"@],
    {
        self.push("-negate");
        proof {
            assert(self@ =~= old(self)@ + seq!["-negate"@]);
        }
    }

    pub fn flatten(&mut self)
        ensures
            final(self)@ == old(self)@ + seq!["-flatten"@],
    {
        self.push("-flatten");
        proof {
            assert(self@ =~= old(self)@ + seq!["-flatten"@]);
        }
    }

    pub fn page(&mut self, offset: &Offset)
        requires
            offset.renderable(),
        ensures
            final(self)@ == old(self)@ + seq![
                "-page"@,
                spec_offset_string(offset.x as int, offset.y as int),
            ],
    {
        self.push("-page");
        self.push_string(offset.to_cli_string());
        proof {
            assert(self@ =~= old(self)@ + seq![
                "-page"@,
                spec_offset_string(offset.x as int, offset.y as int),
            ]);
        }
    }

    pub fn motion_blur_down(&mut self, spread_px: u32)
        ensures
            final(self)@ == old(self)@ + seq![
                "-motion-blur"@,
                spec_motion_blur_token(spread_px as int),
            ],
    {
        self.push("-motion-blur");
        let mut t = String::from_str("0x");
        append_u32(&mut t, spread_px);
        t.append("-90");
        self.push_string(t);
        proof {
            assert(self@ =~= old(self)@ + seq![
                "-motion-blur"@,
                spec_motion_blur_token(spread_px as int),
            ]);
        }
    }

    /// A strictly downward directional blur followed by the page offset that
    /// keeps the blurred layer registered with the unblurred source.
    pub fn blur_down(&mut self, blur_down: &BlurDown)
        requires
            blur_down.renderable(),
        ensures
            final(self)@ == old(self)@ + spec_blur_down_args(*blur_down),
    {
        self.motion_blur_down(blur_down.spread_px);
        self.page(&Offset { x: 0, y: blur_down.page_y });
        self.background_none();
        self.flatten();
        proof {
            assert(self@ =~= old(self)@ + spec_blur_down_args(*blur_down));
        }
    }

    pub fn composite(&mut self, compositing_operation: &CompositingOperation)
        ensures
            final(self)@ == old(self)@ + spec_composite_args(*compositing_operation),
    {
        self.push("-compose");
        match compositing_operation {
            CompositingOperation::Dst_In => self.push("Dst_In"),
            CompositingOperation::Dst_Out => self.push("Dst_Out"),
            CompositingOperation::dissolve => self.push("dissolve"),
        }
        self.push("-composite");
        proof {
            assert(self@ =~= old(self)@ + spec_composite_args(*compositing_operation));
        }
    }

    /// Moves every token of `other` onto the end of this list.
    pub fn append_args(&mut self, other: &mut CommandArgs)
        ensures
            final(self)@ == old(self)@ + old(other)@,
            final(other)@ == Seq::<Seq<char>>::empty(),
    {
        self.args.append(&mut other.args);
        proof {
            assert(self@ =~= old(self)@ + old(other)@);
            assert(other@ =~= Seq::<Seq<char>>::empty());
        }
    }

    /// Clips or subtracts this image using another image as a stencil.
    pub fn mask_down(&mut self, mask_path: &str, compositing_operation: &CompositingOperation)
        ensures
            final(self)@ == old(self)@ + spec_mask_down_args(mask_path@, *compositing_operation),
    {
        self.push_path(mask_path);
        self.push("-alpha");
        self.push("Set");
        self.composite(compositing_operation);
        proof {
            assert(self@ =~= old(self)@ + spec_mask_down_args(
                mask_path@,
                *compositing_operation,
            ));
        }
    }
}

pub open spec fn spec_fill_colorize_args(c: RGBColor) -> Seq<Seq<char>> {
    seq![
        "-fill"@,
        spec_rgb_string(c.r as int, c.g as int, c.b as int),
        "-colorize"@,
        "100, 100, 100"@,
    ]
}

pub open spec fn spec_opacity_args(alpha: Opacity) -> Seq<Seq<char>> {
    seq![
        "-channel"@,
        "Alpha"@,
        "-evaluate"@,
        "multiply"@,
        spec_opacity_string(alpha.hundredths as int),
    ]
}

pub open spec fn spec_motion_blur_token(spread: int) -> Seq<char> {
    "0x"@ + dec_str(spread) + "-90"@
}

pub open spec fn spec_blur_down_args(b: BlurDown) -> Seq<Seq<char>> {
    seq![
        "-motion-blur"@,
        spec_motion_blur_token(b.spread_px as int),
        "-page"@,
        spec_offset_string(0, b.page_y as int),
        "-background"@,
        "transparent"@,
        "-flatten"@,
    ]
}

pub open spec fn spec_compose_token(op: CompositingOperation) -> Seq<char> {
    match op {
        CompositingOperation::Dst_In => "Dst_In"@,
        CompositingOperation::Dst_Out => "Dst_Out"@,
        CompositingOperation::dissolve => "dissolve"@,
    }
}

pub open spec fn spec_composite_args(op: CompositingOperation) -> Seq<Seq<char>> {
    seq!["-compose"@, spec_compose_token(op), "-composite"@]
}

pub open spec fn spec_mask_down_args(mask_path: Seq<char>, op: CompositingOperation) -> Seq<
    Seq<char>,
> {
    seq![mask_path, "-alpha"@, "Set"@] + spec_composite_args(op)
}

/// Parameters of a downward blur: the spread in pixels and the canvas offset
/// compensating for the blur's bounding-box growth.
#[derive(Clone, Copy, Debug, PartialEq, Eq, Structural)]
pub struct BlurDown {
    pub spread_px: u32,
    pub page_y: i32,
}

impl BlurDown {
    pub open spec fn renderable(&self) -> bool {
        self.page_y != i32::MIN
    }
}

/// How two layers combine: keep the source where the mask is opaque, remove
/// it there, or alpha-blend by weighted averaging.
#[allow(non_camel_case_types)] // Match the processing engine's mode names
#[derive(Clone, Copy, Debug, PartialEq, Eq, Structural)]
pub enum CompositingOperation {
    Dst_In,
    Dst_Out,
    dissolve,
}

/// The argument list that asks the query tool for the pixel width of a mask.
pub fn width_query_args(mask_path: &str) -> (r: CommandArgs)
    ensures
        r@ == seq!["-format"@, "%w"@, mask_path@],
{
    let mut args = CommandArgs::new();
    args.format_width();
    args.push_path(mask_path);
    proof {
        assert(args@ =~= seq!["-format"@, "%w"@, mask_path@]);
    }
    args
}

/// The argument list that asks the query tool for the pixel height of a mask.
pub fn height_query_args(mask_path: &str) -> (r: CommandArgs)
    ensures
        r@ == seq!["-format"@, "%h"@, mask_path@],
{
    let mut args = CommandArgs::new();
    args.format_height();
    args.push_path(mask_path);
    proof {
        assert(args@ =~= seq!["-format"@, "%h"@, mask_path@]);
    }
    args
}

/// The density at which a mask of the given native size must be rasterized
/// so that resizing it to the centering target loses no precision.
pub open spec fn spec_density(native_w: int, native_h: int, target_w: int, target_h: int) -> int {
    vstd::math::max(
        DEFAULT_DENSITY as int * target_w / native_w,
        DEFAULT_DENSITY as int * target_h / native_h,
    )
}

/// Computes the rasterization density for a mask with the given native pixel
/// dimensions, scaled up for the centering target. Fails when the native
/// dimensions are degenerate (a zero axis would divide by zero).
pub fn density(native_dimensions: &Dimensions, centering_dimensions: &Dimensions) -> (r: Result<
    u32,
    FolderifyError,
>)
    requires
        DEFAULT_DENSITY as int * centering_dimensions.width as int <= u32::MAX as int,
        DEFAULT_DENSITY as int * centering_dimensions.height as int <= u32::MAX as int,
    ensures
        native_dimensions.width > 0 && native_dimensions.height > 0 ==> (r matches Ok(d)
            && d as int == spec_density(
            native_dimensions.width as int,
            native_dimensions.height as int,
            centering_dimensions.width as int,
            centering_dimensions.height as int,
        )),
        native_dimensions.width == 0 || native_dimensions.height == 0 ==> (r matches Err(e)
            && e matches FolderifyError::General(g) && g.message@
            == "Mask dimensions must be positive"@),
{
    let nw = native_dimensions.width;
    let nh = native_dimensions.height;
    if nw == 0 || nh == 0 {
        return Err(
            FolderifyError::General(
                GeneralError { message: String::from_str("Mask dimensions must be positive") },
            ),
        );
    }
    let from_width = DEFAULT_DENSITY * centering_dimensions.width / nw;
    let from_height = DEFAULT_DENSITY * centering_dimensions.height / nh;
    if from_width >= from_height {
        Ok(from_width)
    } else {
        Ok(from_height)
    }
}

/// Law: for a fixed positive native size, the density is monotonically
/// non-decreasing in the target dimensions.
pub proof fn lemma_density_monotonic(nw: int, nh: int, w1: int, h1: int, w2: int, h2: int)
    requires
        nw > 0,
        nh > 0,
        0 <= w1 <= w2,
        0 <= h1 <= h2,
    ensures
        spec_density(nw, nh, w1, h1) <= spec_density(nw, nh, w2, h2),
{
    let d = DEFAULT_DENSITY as int;
    vstd::arithmetic::div_mod::lemma_div_is_ordered(d * w1, d * w2, nw);
    vstd::arithmetic::div_mod::lemma_div_is_ordered(d * h1, d * h2, nh);
}

/// Law: when the target covers the native size in both axes, the density is
/// at least the base density.
pub proof fn lemma_density_at_least_base(nw: int, nh: int, w: int, h: int)
    requires
        nw > 0,
        nh > 0,
        w >= nw,
        h >= nh,
    ensures
        spec_density(nw, nh, w, h) >= DEFAULT_DENSITY as int,
{
    let d = DEFAULT_DENSITY as int;
    vstd::arithmetic::div_mod::lemma_div_is_ordered(d * nw, d * w, nw);
    vstd::arithmetic::div_mod::lemma_div_multiples_vanish(d, nw);
    assert(d * nw == nw * d);
}

} // verus!
