//! The per-resolution icon pipeline, planned as exact subprocess
//! invocations, and the fixed resolution table.
//!
//! Every artifact a resolution's pipeline writes lives in a shared working
//! directory under a name prefixed by that resolution's label; labels carry
//! no underscore, so the prefixes partition the directory and concurrent
//! pipelines never collide.

use vstd::prelude::*;
use vstd::string::*;

use crate::command::{Executable, Invocation, InvocationModel, StdinSource};
use crate::convert::{
    density, spec_composite_args, spec_density, spec_fill_colorize_args, spec_mask_down_args,
    spec_opacity_args, BlurDown, CommandArgs, CompositingOperation, DEFAULT_DENSITY,
};
use crate::error::FolderifyError;
use crate::options::{Badge, ColorScheme, FolderStyle, Options, SetIconUsing};
use crate::resources::IconInputs;
use crate::primitives::{
    spec_dimensions_string, spec_extent_string, Dimensions, Extent, Offset, Opacity, RGBColor,
};
use crate::strutil::{lemma_concat_cancel_prefix, lemma_separator_split_unique};

verus! {

/// The display scale of the double-density variants.
pub const RETINA_SCALE: u32 = 2;

/// Which of the run's progress bars a conversion reports to.
#[derive(Clone, Copy, Debug, PartialEq, Eq, Structural)]
pub enum ProgressBarType {
    Input,
    Conversion,
    OutputWithAssignment,
    OutputIcns,
}

pub open spec fn spec_num_steps(
    t: ProgressBarType,
    has_badge: bool,
    set_icon_using: SetIconUsing,
) -> int {
    match t {
        ProgressBarType::Input => 1,
        ProgressBarType::Conversion => 13 + if has_badge {
            1int
        } else {
            0int
        },
        ProgressBarType::OutputWithAssignment => 2 + if set_icon_using == SetIconUsing::Rez {
            7int
        } else {
            0int
        },
        ProgressBarType::OutputIcns => 1,
    }
}

impl ProgressBarType {
    /// How many steps the bar of this kind counts for the given options.
    pub fn num_steps(&self, options: &Options) -> (r: u64)
        ensures
            r as int == spec_num_steps(*self, options.badge is Some, options.set_icon_using),
    {
        match self {
            ProgressBarType::Input => 1,
            ProgressBarType::Conversion => 13 + if options.badge.is_some() {
                1
            } else {
                0
            },
            ProgressBarType::OutputWithAssignment => {
                2 + if matches!(options.set_icon_using, SetIconUsing::Rez) {
                    7
                } else {
                    0
                }
            },
            ProgressBarType::OutputIcns => 1,
        }
    }
}

/// Inputs of the resolution-specific mask sizing step.
#[derive(Clone, Copy, Debug, PartialEq, Eq, Structural)]
pub struct ScaledMaskInputs {
    pub icon_size: u32,
    pub mask_dimensions: Dimensions,
    pub offset_y: i32,
}

/// One directional bezel's full parameter set.
#[derive(Clone, Copy, Debug, PartialEq, Eq, Structural)]
pub struct BezelInputs {
    pub color: RGBColor,
    pub blur: BlurDown,
    pub mask_operation: CompositingOperation,
    pub opacity: Opacity,
}

impl BezelInputs {
    pub open spec fn wf(&self) -> bool {
        self.blur.renderable() && self.opacity.wf()
    }
}

/// Everything needed to engrave one sized mask onto one template icon.
#[derive(Clone, Copy, Debug, PartialEq, Eq, Structural)]
pub struct EngravingInputs {
    pub fill_color: RGBColor,
    pub top_bezel: BezelInputs,
    pub bottom_bezel: BezelInputs,
}

impl EngravingInputs {
    pub open spec fn wf(&self) -> bool {
        self.top_bezel.wf() && self.bottom_bezel.wf()
    }
}

/// The process-scoped directory that owns all intermediate artifacts. The
/// directory itself is created (and later released) outside the library;
/// the library only derives paths inside it.
#[derive(Debug)]
pub struct WorkingDir {
    pub path: String,
}

impl WorkingDir {
    pub fn new(path: String) -> (r: Self)
        ensures
            r.path@ == path@,
    {
        Self { path }
    }

    /// A conversion handle writing artifacts under the given prefix.
    pub fn icon_conversion(&self, resolution_prefix: &str) -> (r: IconConversion)
        ensures
            r.working_dir@ == self.path@,
            r.resolution_prefix@ == resolution_prefix@,
    {
        IconConversion {
            working_dir: self.path.clone(),
            resolution_prefix: resolution_prefix.to_owned(),
        }
    }

    /// The path of the working copy of the icon artifact with the given
    /// extension.
    pub fn icon_file_with_extension(&self, extension: &str) -> (r: String)
        ensures
            r@ == self.path@ + "/icon."@ + extension@,
    {
        let mut s = self.path.clone();
        s.append("/icon.");
        s.append(extension);
        proof {
            assert(s@ =~= self.path@ + "/icon."@ + extension@);
        }
        s
    }
}

/// The ten fixed output resolutions of an iconset.
#[derive(Clone, Copy, Debug, PartialEq, Eq, Structural)]
pub enum IconResolution {
    NonRetina16,
    Retina16,
    NonRetina32,
    Retina32,
    NonRetina128,
    Retina128,
    NonRetina256,
    Retina256,
    NonRetina512,
    Retina512,
}

/// The canonical order in which the resolutions are processed.
pub open spec fn spec_resolutions() -> Seq<IconResolution> {
    seq![
        IconResolution::Retina512,
        IconResolution::NonRetina512,
        IconResolution::Retina256,
        IconResolution::NonRetina256,
        IconResolution::Retina128,
        IconResolution::NonRetina128,
        IconResolution::Retina32,
        IconResolution::NonRetina32,
        IconResolution::Retina16,
        IconResolution::NonRetina16,
    ]
}

pub open spec fn spec_size(r: IconResolution) -> int {
    match r {
        IconResolution::NonRetina16 => 16,
        IconResolution::Retina16 => 16 * RETINA_SCALE as int,
        IconResolution::NonRetina32 => 32,
        IconResolution::Retina32 => 32 * RETINA_SCALE as int,
        IconResolution::NonRetina128 => 128,
        IconResolution::Retina128 => 128 * RETINA_SCALE as int,
        IconResolution::NonRetina256 => 256,
        IconResolution::Retina256 => 256 * RETINA_SCALE as int,
        IconResolution::NonRetina512 => 512,
        IconResolution::Retina512 => 512 * RETINA_SCALE as int,
    }
}

pub open spec fn spec_offset_y(r: IconResolution) -> int {
    match r {
        IconResolution::NonRetina16 => -2,
        IconResolution::Retina16 => -2,
        IconResolution::NonRetina32 => -2,
        IconResolution::Retina32 => -3,
        IconResolution::NonRetina128 => -6,
        IconResolution::Retina128 => -12,
        IconResolution::NonRetina256 => -12,
        IconResolution::Retina256 => -24,
        IconResolution::NonRetina512 => -24,
        IconResolution::Retina512 => -48,
    }
}

pub open spec fn spec_bottom_bezel_blur(r: IconResolution) -> BlurDown {
    match r {
        IconResolution::NonRetina16 => (BlurDown { spread_px: 1, page_y: 0 }),
        _ => (BlurDown { spread_px: 2, page_y: 1 }),
    }
}

pub open spec fn spec_bottom_bezel_alpha(r: IconResolution) -> Opacity {
    match r {
        IconResolution::NonRetina16 => (Opacity { hundredths: 50 }),
        IconResolution::Retina16 => (Opacity { hundredths: 35 }),
        IconResolution::NonRetina32 => (Opacity { hundredths: 35 }),
        IconResolution::Retina32 => (Opacity { hundredths: 60 }),
        IconResolution::NonRetina128 => (Opacity { hundredths: 60 }),
        IconResolution::Retina128 => (Opacity { hundredths: 60 }),
        IconResolution::NonRetina256 => (Opacity { hundredths: 60 }),
        IconResolution::Retina256 => (Opacity { hundredths: 75 }),
        IconResolution::NonRetina512 => (Opacity { hundredths: 75 }),
        IconResolution::Retina512 => (Opacity { hundredths: 75 }),
    }
}

/// The canonical label, used for display, artifact prefixes and the iconset
/// file-naming convention.
pub open spec fn spec_label(r: IconResolution) -> Seq<char> {
    match r {
        IconResolution::NonRetina16 => "16x16"@,
        IconResolution::Retina16 => "16x16@2x"@,
        IconResolution::NonRetina32 => "32x32"@,
        IconResolution::Retina32 => "32x32@2x"@,
        IconResolution::NonRetina128 => "128x128"@,
        IconResolution::Retina128 => "128x128@2x"@,
        IconResolution::NonRetina256 => "256x256"@,
        IconResolution::Retina256 => "256x256@2x"@,
        IconResolution::NonRetina512 => "512x512"@,
        IconResolution::Retina512 => "512x512@2x"@,
    }
}

pub open spec fn spec_icon_file(r: IconResolution) -> Seq<char> {
    "icon_"@ + spec_label(r) + ".png"@
}

impl IconResolution {
    /// All ten resolutions, in the canonical processing order.
    pub fn values() -> (r: Vec<IconResolution>)
        ensures
            r@ == spec_resolutions(),
    {
        let mut v: Vec<IconResolution> = Vec::new();
        v.push(IconResolution::Retina512);
        v.push(IconResolution::NonRetina512);
        v.push(IconResolution::Retina256);
        v.push(IconResolution::NonRetina256);
        v.push(IconResolution::Retina128);
        v.push(IconResolution::NonRetina128);
        v.push(IconResolution::Retina32);
        v.push(IconResolution::NonRetina32);
        v.push(IconResolution::Retina16);
        v.push(IconResolution::NonRetina16);
        proof {
            assert(v@ =~= spec_resolutions());
        }
        v
    }

    /// The square pixel size of this resolution.
    pub fn size(&self) -> (r: u32)
        ensures
            r as int == spec_size(*self),
    {
        match self {
            IconResolution::NonRetina16 => 16,
            IconResolution::Retina16 => 16 * RETINA_SCALE,
            IconResolution::NonRetina32 => 32,
            IconResolution::Retina32 => 32 * RETINA_SCALE,
            IconResolution::NonRetina128 => 128,
            IconResolution::Retina128 => 128 * RETINA_SCALE,
            IconResolution::NonRetina256 => 256,
            IconResolution::Retina256 => 256 * RETINA_SCALE,
            IconResolution::NonRetina512 => 512,
            IconResolution::Retina512 => 512 * RETINA_SCALE,
        }
    }

    /// The vertical offset of the mask within the square canvas.
    pub fn offset_y(&self) -> (r: i32)
        ensures
            r as int == spec_offset_y(*self),
    {
        match self {
            IconResolution::NonRetina16 => -2,
            IconResolution::Retina16 => -2,
            IconResolution::NonRetina32 => -2,
            IconResolution::Retina32 => -3,
            IconResolution::NonRetina128 => -6,
            IconResolution::Retina128 => -12,
            IconResolution::NonRetina256 => -12,
            IconResolution::Retina256 => -24,
            IconResolution::NonRetina512 => -24,
            IconResolution::Retina512 => -48,
        }
    }

    /// The bottom bezel's blur parameters at this resolution.
    pub fn bottom_bezel_blur_down(&self) -> (r: BlurDown)
        ensures
            r == spec_bottom_bezel_blur(*self),
    {
        match self {
            IconResolution::NonRetina16 => BlurDown { spread_px: 1, page_y: 0 },
            _ => BlurDown { spread_px: 2, page_y: 1 },
        }
    }

    /// The bottom bezel's opacity at this resolution.
    pub fn bottom_bezel_alpha(&self) -> (r: Opacity)
        ensures
            r == spec_bottom_bezel_alpha(*self),
            r.wf(),
    {
        match self {
            IconResolution::NonRetina16 => Opacity { hundredths: 50 },
            IconResolution::Retina16 => Opacity { hundredths: 35 },
            IconResolution::NonRetina32 => Opacity { hundredths: 35 },
            IconResolution::Retina32 => Opacity { hundredths: 60 },
            IconResolution::NonRetina128 => Opacity { hundredths: 60 },
            IconResolution::Retina128 => Opacity { hundredths: 60 },
            IconResolution::NonRetina256 => Opacity { hundredths: 60 },
            IconResolution::Retina256 => Opacity { hundredths: 75 },
            IconResolution::NonRetina512 => Opacity { hundredths: 75 },
            IconResolution::Retina512 => Opacity { hundredths: 75 },
        }
    }

    /// The canonical label of this resolution.
    pub fn label(&self) -> (r: String)
        ensures
            r@ == spec_label(*self),
    {
        let s = match self {
            IconResolution::NonRetina16 => "16x16",
            IconResolution::Retina16 => "16x16@2x",
            IconResolution::NonRetina32 => "32x32",
            IconResolution::Retina32 => "32x32@2x",
            IconResolution::NonRetina128 => "128x128",
            IconResolution::Retina128 => "128x128@2x",
            IconResolution::NonRetina256 => "256x256",
            IconResolution::Retina256 => "256x256@2x",
            IconResolution::NonRetina512 => "512x512",
            IconResolution::Retina512 => "512x512@2x",
        };
        s.to_owned()
    }

    /// The file name this resolution's output takes inside an iconset.
    pub fn icon_file(&self) -> (r: String)
        ensures
            r@ == spec_icon_file(*self),
    {
        let mut s = String::from_str("icon_");
        let label = self.label();
        s.append(label.as_str());
        s.append(".png");
        proof {
            assert(s@ =~= spec_icon_file(*self));
        }
        s
    }
}

/// The length and leading character of a label, which together identify the
/// resolution.
proof fn lemma_label_shape(r: IconResolution)
    ensures
        r == IconResolution::NonRetina16 ==> spec_label(r).len() == 5 && spec_label(r)[0] == '1',
        r == IconResolution::Retina16 ==> spec_label(r).len() == 8 && spec_label(r)[0] == '1',
        r == IconResolution::NonRetina32 ==> spec_label(r).len() == 5 && spec_label(r)[0] == '3',
        r == IconResolution::Retina32 ==> spec_label(r).len() == 8 && spec_label(r)[0] == '3',
        r == IconResolution::NonRetina128 ==> spec_label(r).len() == 7 && spec_label(r)[0] == '1',
        r == IconResolution::Retina128 ==> spec_label(r).len() == 10 && spec_label(r)[0] == '1',
        r == IconResolution::NonRetina256 ==> spec_label(r).len() == 7 && spec_label(r)[0] == '2',
        r == IconResolution::Retina256 ==> spec_label(r).len() == 10 && spec_label(r)[0] == '2',
        r == IconResolution::NonRetina512 ==> spec_label(r).len() == 7 && spec_label(r)[0] == '5',
        r == IconResolution::Retina512 ==> spec_label(r).len() == 10 && spec_label(r)[0] == '5',
{
    reveal_strlit("16x16");
    reveal_strlit("16x16@2x");
    reveal_strlit("32x32");
    reveal_strlit("32x32@2x");
    reveal_strlit("128x128");
    reveal_strlit("128x128@2x");
    reveal_strlit("256x256");
    reveal_strlit("256x256@2x");
    reveal_strlit("512x512");
    reveal_strlit("512x512@2x");
}

/// Law: distinct resolutions have distinct labels.
pub proof fn lemma_label_injective(a: IconResolution, b: IconResolution)
    requires
        spec_label(a) == spec_label(b),
    ensures
        a == b,
{
    lemma_label_shape(a);
    lemma_label_shape(b);
}

/// Law: no resolution label contains an underscore, so a label makes a safe
/// artifact prefix.
pub proof fn lemma_label_no_underscore(r: IconResolution)
    ensures
        forall|i: int| 0 <= i < spec_label(r).len() ==> #[trigger] spec_label(r)[i] != '_',
{
    reveal_strlit("16x16");
    reveal_strlit("16x16@2x");
    reveal_strlit("32x32");
    reveal_strlit("32x32@2x");
    reveal_strlit("128x128");
    reveal_strlit("128x128@2x");
    reveal_strlit("256x256");
    reveal_strlit("256x256@2x");
    reveal_strlit("512x512");
    reveal_strlit("512x512@2x");
}

/// Law: distinct resolutions have distinct iconset file names.
pub proof fn lemma_icon_file_injective(a: IconResolution, b: IconResolution)
    requires
        spec_icon_file(a) == spec_icon_file(b),
    ensures
        a == b,
{
    assert(spec_icon_file(a) =~= "icon_"@ + (spec_label(a) + ".png"@));
    assert(spec_icon_file(b) =~= "icon_"@ + (spec_label(b) + ".png"@));
    lemma_concat_cancel_prefix("icon_"@, spec_label(a) + ".png"@, spec_label(b) + ".png"@);
    assert((spec_label(a) + ".png"@).len() == spec_label(a).len() + ".png"@.len());
    assert((spec_label(b) + ".png"@).len() == spec_label(b).len() + ".png"@.len());
    assert(spec_label(a).len() == spec_label(b).len());
    assert forall|i: int| 0 <= i < spec_label(a).len() implies spec_label(a)[i] == spec_label(
        b,
    )[i] by {
        assert((spec_label(a) + ".png"@)[i] == spec_label(a)[i]);
        assert((spec_label(b) + ".png"@)[i] == spec_label(b)[i]);
    }
    assert(spec_label(a) =~= spec_label(b));
    lemma_label_injective(a, b);
}

/// Law: the ten planned iconset file names are pairwise distinct, so the
/// completed iconset holds exactly ten uniquely-named entries.
pub proof fn lemma_iconset_file_names_unique()
    ensures
        forall|i: int, j: int|
            0 <= i < j < spec_resolutions().len() ==> spec_icon_file(#[trigger] spec_resolutions()[i])
                != spec_icon_file(#[trigger] spec_resolutions()[j]),
{
    assert forall|i: int, j: int| 0 <= i < j < spec_resolutions().len() implies spec_icon_file(
        #[trigger] spec_resolutions()[i],
    ) != spec_icon_file(#[trigger] spec_resolutions()[j]) by {
        if spec_icon_file(spec_resolutions()[i]) == spec_icon_file(spec_resolutions()[j]) {
            lemma_icon_file_injective(spec_resolutions()[i], spec_resolutions()[j]);
        }
    }
}

/// The path of an artifact inside the working directory: the resolution
/// prefix and the step-specific file name, joined by an underscore.
pub open spec fn spec_output_path(wd: Seq<char>, prefix: Seq<char>, file_name: Seq<char>) -> Seq<
    char,
> {
    wd + "/"@ + prefix + "_"@ + file_name
}

/// Law: two artifact paths in the same working directory coincide only when
/// both their prefixes and their file names coincide, provided the prefixes
/// carry no underscore. This is the disjointness that lets concurrent
/// per-resolution pipelines share one directory without locking.
pub proof fn lemma_output_paths_disjoint(
    wd: Seq<char>,
    p1: Seq<char>,
    f1: Seq<char>,
    p2: Seq<char>,
    f2: Seq<char>,
)
    requires
        forall|i: int| 0 <= i < p1.len() ==> p1[i] != '_',
        forall|i: int| 0 <= i < p2.len() ==> p2[i] != '_',
        spec_output_path(wd, p1, f1) == spec_output_path(wd, p2, f2),
    ensures
        p1 == p2,
        f1 == f2,
{
    reveal_strlit("_");
    reveal_strlit("/");
    assert(spec_output_path(wd, p1, f1) =~= (wd + "/"@) + (p1 + seq!['_'] + f1));
    assert(spec_output_path(wd, p2, f2) =~= (wd + "/"@) + (p2 + seq!['_'] + f2));
    lemma_concat_cancel_prefix(wd + "/"@, p1 + seq!['_'] + f1, p2 + seq!['_'] + f2);
    lemma_separator_split_unique(p1, f1, p2, f2, '_');
}

/// One intermediate transformation: read one artifact, apply a token group,
/// write the next artifact.
pub open spec fn spec_simple_step(
    wd: Seq<char>,
    prefix: Seq<char>,
    input: Seq<char>,
    ops: Seq<Seq<char>>,
    file_name: Seq<char>,
) -> InvocationModel {
    (
        Executable::Convert,
        seq![input] + ops + seq![spec_output_path(wd, prefix, file_name)],
        None::<Seq<char>>,
    )
}

/// The shared mask-preparation invocation: flatten on a transparent
/// background at the computed density, optionally trim, then resize and pad
/// to the centering box.
pub open spec fn spec_full_mask_invocation(
    wd: Seq<char>,
    prefix: Seq<char>,
    mask_path: Seq<char>,
    no_trim: bool,
    centering: Dimensions,
    d: int,
) -> InvocationModel {
    (
        Executable::Convert,
        seq!["-background"@, "transparent"@, "-density"@, crate::strutil::dec_str(d), mask_path]
            + (if no_trim {
            Seq::<Seq<char>>::empty()
        } else {
            seq!["-trim"@]
        }) + seq![
            "-resize"@,
            spec_dimensions_string(centering.width as int, centering.height as int),
            "-gravity"@,
            "Center"@,
            "-extent"@,
            spec_extent_string((Extent { size: centering, offset: (Offset { x: 0, y: 0 }) })),
            spec_output_path(wd, prefix, "0.0_FULL_MASK.png"@),
        ],
        None::<Seq<char>>,
    )
}

/// The resolution-specific sizing invocation: resize the shared mask to the
/// flap dimensions and extend it onto the square icon canvas.
pub open spec fn spec_sized_mask_invocation(
    wd: Seq<char>,
    prefix: Seq<char>,
    input: Seq<char>,
    inputs: ScaledMaskInputs,
) -> InvocationModel {
    (
        Executable::Convert,
        seq![
            "-background"@,
            "transparent"@,
            input,
            "-resize"@,
            spec_dimensions_string(
                inputs.mask_dimensions.width as int,
                inputs.mask_dimensions.height as int,
            ),
            "-gravity"@,
            "Center"@,
            "-extent"@,
            spec_extent_string(
                (Extent {
                    size: (Dimensions { width: inputs.icon_size, height: inputs.icon_size }),
                    offset: (Offset { x: 0, y: inputs.offset_y }),
                }),
            ),
            spec_output_path(wd, prefix, "1.0_SIZED_MASK.png"@),
        ],
        None::<Seq<char>>,
    )
}

/// The engraving plan: eleven intermediate artifacts (fill, top bezel,
/// bottom bezel), then the final dissolve-composite over the piped template
/// in the order bottom, fill, top.
pub open spec fn spec_engrave_plan(
    wd: Seq<char>,
    prefix: Seq<char>,
    sized_mask: Seq<char>,
    template: Seq<char>,
    output: Seq<char>,
    inputs: EngravingInputs,
) -> Seq<InvocationModel> {
    let fill_colorized = spec_output_path(wd, prefix, "2.1_FILL_COLORIZED.png"@);
    let fill = spec_output_path(wd, prefix, "2.2_FILL.png"@);
    let top_complement = spec_output_path(wd, prefix, "3.1_TOP_BEZEL_COMPLEMENT.png"@);
    let top_colorized = spec_output_path(wd, prefix, "3.2_TOP_BEZEL_COLORIZED.png"@);
    let top_blurred = spec_output_path(wd, prefix, "3.3_TOP_BEZEL_BLURRED.png"@);
    let top_masked = spec_output_path(wd, prefix, "3.4_TOP_BEZEL_MASKED.png"@);
    let top = spec_output_path(wd, prefix, "3.5_TOP_BEZEL.png"@);
    let bottom_colorized = spec_output_path(wd, prefix, "4.1_BOTTOM_BEZEL_COLORIZED.png"@);
    let bottom_blurred = spec_output_path(wd, prefix, "4.2_BOTTOM_BEZEL_BLURRED.png"@);
    let bottom_masked = spec_output_path(wd, prefix, "4.3_BOTTOM_BEZEL_MASKED.png"@);
    let bottom = spec_output_path(wd, prefix, "4.4_BOTTOM_BEZEL.png"@);
    seq![
        spec_simple_step(
            wd,
            prefix,
            sized_mask,
            spec_fill_colorize_args(inputs.fill_color),
            "2.1_FILL_COLORIZED.png"@,
        ),
        spec_simple_step(
            wd,
            prefix,
            fill_colorized,
            spec_opacity_args((Opacity { hundredths: 50 })),
            "2.2_FILL.png"@,
        ),
        spec_simple_step(wd, prefix, sized_mask, seq!["-negate"@], "3.1_TOP_BEZEL_COMPLEMENT.png"@),
        spec_simple_step(
            wd,
            prefix,
            top_complement,
            spec_fill_colorize_args(inputs.top_bezel.color),
            "3.2_TOP_BEZEL_COLORIZED.png"@,
        ),
        spec_simple_step(
            wd,
            prefix,
            top_colorized,
            crate::convert::spec_blur_down_args(inputs.top_bezel.blur),
            "3.3_TOP_BEZEL_BLURRED.png"@,
        ),
        spec_simple_step(
            wd,
            prefix,
            top_blurred,
            spec_mask_down_args(sized_mask, inputs.top_bezel.mask_operation),
            "3.4_TOP_BEZEL_MASKED.png"@,
        ),
        spec_simple_step(
            wd,
            prefix,
            top_masked,
            spec_opacity_args(inputs.top_bezel.opacity),
            "3.5_TOP_BEZEL.png"@,
        ),
        spec_simple_step(
            wd,
            prefix,
            sized_mask,
            spec_fill_colorize_args(inputs.bottom_bezel.color),
            "4.1_BOTTOM_BEZEL_COLORIZED.png"@,
        ),
        spec_simple_step(
            wd,
            prefix,
            bottom_colorized,
            crate::convert::spec_blur_down_args(inputs.bottom_bezel.blur),
            "4.2_BOTTOM_BEZEL_BLURRED.png"@,
        ),
        spec_simple_step(
            wd,
            prefix,
            bottom_blurred,
            spec_mask_down_args(sized_mask, inputs.bottom_bezel.mask_operation),
            "4.3_BOTTOM_BEZEL_MASKED.png"@,
        ),
        spec_simple_step(
            wd,
            prefix,
            bottom_masked,
            spec_opacity_args(inputs.bottom_bezel.opacity),
            "4.4_BOTTOM_BEZEL.png"@,
        ),
        (
            Executable::Convert,
            seq!["-"@, bottom] + spec_composite_args(CompositingOperation::dissolve) + seq![fill]
                + spec_composite_args(CompositingOperation::dissolve) + seq![top]
                + spec_composite_args(CompositingOperation::dissolve) + seq![output],
            Some(template),
        ),
    ]
}

/// Law: plan construction is deterministic. Two compositing plans built from
/// identical inputs are identical, token for token; only the working
/// directory and prefix (file placement), never the argument content, can
/// distinguish two runs.
pub proof fn lemma_engrave_plan_deterministic(
    p1: Seq<InvocationModel>,
    p2: Seq<InvocationModel>,
    wd: Seq<char>,
    prefix: Seq<char>,
    sized_mask: Seq<char>,
    template: Seq<char>,
    output: Seq<char>,
    inputs: EngravingInputs,
)
    requires
        p1 == spec_engrave_plan(wd, prefix, sized_mask, template, output, inputs),
        p2 == spec_engrave_plan(wd, prefix, sized_mask, template, output, inputs),
    ensures
        p1 == p2,
{
}

/// A per-resolution conversion: where its artifacts go and under which
/// prefix.
#[derive(Debug)]
pub struct IconConversion {
    pub working_dir: String,
    pub resolution_prefix: String,
}

impl IconConversion {
    /// The artifact path for one step's file name.
    pub fn output_path(&self, file_name: &str) -> (r: String)
        ensures
            r@ == spec_output_path(self.working_dir@, self.resolution_prefix@, file_name@),
    {
        let mut s = self.working_dir.clone();
        s.append("/");
        s.append(self.resolution_prefix.as_str());
        s.append("_");
        s.append(file_name);
        proof {
            assert(s@ =~= spec_output_path(
                self.working_dir@,
                self.resolution_prefix@,
                file_name@,
            ));
        }
        s
    }

    /// Plans the shared full-mask preparation: the one density-dependent
    /// invocation every resolution later consumes. Fails exactly when the
    /// mask's native dimensions are degenerate.
    pub fn full_mask(
        &self,
        options: &Options,
        centering_dimensions: &Dimensions,
        native_dimensions: &Dimensions,
    ) -> (r: Result<(Invocation, String), FolderifyError>)
        requires
            DEFAULT_DENSITY as int * centering_dimensions.width as int <= u32::MAX as int,
            DEFAULT_DENSITY as int * centering_dimensions.height as int <= u32::MAX as int,
        ensures
            native_dimensions.width > 0 && native_dimensions.height > 0 ==> (r matches Ok(p)
                && p.0@ == spec_full_mask_invocation(
                self.working_dir@,
                self.resolution_prefix@,
                options.mask_path@,
                options.no_trim,
                *centering_dimensions,
                spec_density(
                    native_dimensions.width as int,
                    native_dimensions.height as int,
                    centering_dimensions.width as int,
                    centering_dimensions.height as int,
                ),
            ) && p.1@ == spec_output_path(
                self.working_dir@,
                self.resolution_prefix@,
                "0.0_FULL_MASK.png"@,
            )),
            native_dimensions.width == 0 || native_dimensions.height == 0 ==> (r matches Err(e)
                && e matches FolderifyError::General(g) && g.message@
                == "Mask dimensions must be positive"@),
    {
        let d = match density(native_dimensions, centering_dimensions) {
            Ok(d) => d,
            Err(e) => {
                return Err(e);
            },
        };
        let mut args = CommandArgs::new();
        args.background_transparent();
        args.density(d);
        args.push_path(options.mask_path.as_str());
        if !options.no_trim {
            args.trim();
        }
        args.resize(centering_dimensions);
        args.center();
        args.extent(&Extent::no_offset(centering_dimensions));
        let output_path = self.output_path("0.0_FULL_MASK.png");
        args.push_path(output_path.as_str());
        let inv = Invocation {
            executable: Executable::Convert,
            args,
            stdin: StdinSource::NoStdin,
        };
        proof {
            assert(inv@.1 =~= spec_full_mask_invocation(
                self.working_dir@,
                self.resolution_prefix@,
                options.mask_path@,
                options.no_trim,
                *centering_dimensions,
                d as int,
            ).1);
            assert(inv@ =~~= spec_full_mask_invocation(
                self.working_dir@,
                self.resolution_prefix@,
                options.mask_path@,
                options.no_trim,
                *centering_dimensions,
                d as int,
            ));
        }
        Ok((inv, output_path))
    }

    /// Plans the resolution-specific mask sizing step.
    pub fn sized_mask(&self, input_path: &str, inputs: &ScaledMaskInputs) -> (r: (
        Invocation,
        String,
    ))
        requires
            inputs.offset_y != i32::MIN,
        ensures
            r.0@ == spec_sized_mask_invocation(
                self.working_dir@,
                self.resolution_prefix@,
                input_path@,
                *inputs,
            ),
            r.1@ == spec_output_path(
                self.working_dir@,
                self.resolution_prefix@,
                "1.0_SIZED_MASK.png"@,
            ),
    {
        let mut args = CommandArgs::new();
        args.background_transparent();
        args.push_path(input_path);
        args.resize(&inputs.mask_dimensions);
        args.center();
        args.extent(
            &Extent {
                size: Dimensions::square(inputs.icon_size),
                offset: Offset::from_y(inputs.offset_y),
            },
        );
        let output_path = self.output_path("1.0_SIZED_MASK.png");
        args.push_path(output_path.as_str());
        let inv = Invocation {
            executable: Executable::Convert,
            args,
            stdin: StdinSource::NoStdin,
        };
        proof {
            assert(inv@.1 =~= spec_sized_mask_invocation(
                self.working_dir@,
                self.resolution_prefix@,
                input_path@,
                *inputs,
            ).1);
            assert(inv@ =~~= spec_sized_mask_invocation(
                self.working_dir@,
                self.resolution_prefix@,
                input_path@,
                *inputs,
            ));
        }
        (inv, output_path)
    }

    /// One intermediate transformation: read `input_path`, apply the tokens
    /// of `ops`, write the artifact named `file_name`.
    fn simple_step(&self, input_path: &str, ops: CommandArgs, file_name: &str) -> (r: (
        Invocation,
        String,
    ))
        ensures
            r.0@ == spec_simple_step(
                self.working_dir@,
                self.resolution_prefix@,
                input_path@,
                ops@,
                file_name@,
            ),
            r.1@ == spec_output_path(self.working_dir@, self.resolution_prefix@, file_name@),
    {
        let mut moved_ops = ops;
        let mut args = CommandArgs::new();
        args.push_path(input_path);
        args.append_args(&mut moved_ops);
        let output_path = self.output_path(file_name);
        args.push_path(output_path.as_str());
        let inv = Invocation {
            executable: Executable::Convert,
            args,
            stdin: StdinSource::NoStdin,
        };
        proof {
            assert(inv@.1 =~= spec_simple_step(
                self.working_dir@,
                self.resolution_prefix@,
                input_path@,
                ops@,
                file_name@,
            ).1);
            assert(inv@ =~~= spec_simple_step(
                self.working_dir@,
                self.resolution_prefix@,
                input_path@,
                ops@,
                file_name@,
            ));
        }
        (inv, output_path)
    }

    /// Plans the engraving of one sized mask onto the piped template icon:
    /// the fill, top-bezel and bottom-bezel layer chains, then the final
    /// dissolve composite in the order bottom, fill, top.
    pub fn engrave(
        &self,
        sized_mask: &str,
        template_resource: &str,
        output_path: &str,
        inputs: &EngravingInputs,
    ) -> (r: Vec<Invocation>)
        requires
            inputs.wf(),
        ensures
            r.deep_view() == spec_engrave_plan(
                self.working_dir@,
                self.resolution_prefix@,
                sized_mask@,
                template_resource@,
                output_path@,
                *inputs,
            ),
    {
        let mut ops = CommandArgs::new();
        ops.fill_colorize(&inputs.fill_color);
        let (inv_fill_colorized, fill_colorized) = self.simple_step(
            sized_mask,
            ops,
            "2.1_FILL_COLORIZED.png",
        );

        let mut ops = CommandArgs::new();
        ops.opacity(Opacity::new(50));
        let (inv_fill, fill) = self.simple_step(fill_colorized.as_str(), ops, "2.2_FILL.png");

        let mut ops = CommandArgs::new();
        ops.negate();
        let (inv_top_complement, top_complement) = self.simple_step(
            sized_mask,
            ops,
            "3.1_TOP_BEZEL_COMPLEMENT.png",
        );

        let mut ops = CommandArgs::new();
        ops.fill_colorize(&inputs.top_bezel.color);
        let (inv_top_colorized, top_colorized) = self.simple_step(
            top_complement.as_str(),
            ops,
            "3.2_TOP_BEZEL_COLORIZED.png",
        );

        let mut ops = CommandArgs::new();
        ops.blur_down(&inputs.top_bezel.blur);
        let (inv_top_blurred, top_blurred) = self.simple_step(
            top_colorized.as_str(),
            ops,
            "3.3_TOP_BEZEL_BLURRED.png",
        );

        let mut ops = CommandArgs::new();
        ops.mask_down(sized_mask, &inputs.top_bezel.mask_operation);
        let (inv_top_masked, top_masked) = self.simple_step(
            top_blurred.as_str(),
            ops,
            "3.4_TOP_BEZEL_MASKED.png",
        );

        let mut ops = CommandArgs::new();
        ops.opacity(inputs.top_bezel.opacity);
        let (inv_top, top) = self.simple_step(top_masked.as_str(), ops, "3.5_TOP_BEZEL.png");

        let mut ops = CommandArgs::new();
        ops.fill_colorize(&inputs.bottom_bezel.color);
        let (inv_bottom_colorized, bottom_colorized) = self.simple_step(
            sized_mask,
            ops,
            "4.1_BOTTOM_BEZEL_COLORIZED.png",
        );

        let mut ops = CommandArgs::new();
        ops.blur_down(&inputs.bottom_bezel.blur);
        let (inv_bottom_blurred, bottom_blurred) = self.simple_step(
            bottom_colorized.as_str(),
            ops,
            "4.2_BOTTOM_BEZEL_BLURRED.png",
        );

        let mut ops = CommandArgs::new();
        ops.mask_down(sized_mask, &inputs.bottom_bezel.mask_operation);
        let (inv_bottom_masked, bottom_masked) = self.simple_step(
            bottom_blurred.as_str(),
            ops,
            "4.3_BOTTOM_BEZEL_MASKED.png",
        );

        let mut ops = CommandArgs::new();
        ops.opacity(inputs.bottom_bezel.opacity);
        let (inv_bottom, bottom) = self.simple_step(
            bottom_masked.as_str(),
            ops,
            "4.4_BOTTOM_BEZEL.png",
        );

        let mut args = CommandArgs::new();
        args.push("-");
        args.push_path(bottom.as_str());
        args.composite(&CompositingOperation::dissolve);
        args.push_path(fill.as_str());
        args.composite(&CompositingOperation::dissolve);
        args.push_path(top.as_str());
        args.composite(&CompositingOperation::dissolve);
        args.push_path(output_path);
        let inv_final = Invocation {
            executable: Executable::Convert,
            args,
            stdin: StdinSource::Resource(template_resource.to_owned()),
        };

        let mut plan: Vec<Invocation> = Vec::new();
        plan.push(inv_fill_colorized);
        plan.push(inv_fill);
        plan.push(inv_top_complement);
        plan.push(inv_top_colorized);
        plan.push(inv_top_blurred);
        plan.push(inv_top_masked);
        plan.push(inv_top);
        plan.push(inv_bottom_colorized);
        plan.push(inv_bottom_blurred);
        plan.push(inv_bottom_masked);
        plan.push(inv_bottom);
        plan.push(inv_final);
        proof {
            let p = spec_engrave_plan(
                self.working_dir@,
                self.resolution_prefix@,
                sized_mask@,
                template_resource@,
                output_path@,
                *inputs,
            );
            assert(inv_final@.1 =~= p[11].1);
            assert(plan.deep_view() =~~= p);
        }
        plan
    }

    /// Plans the dissolve-compositing of a resolution-matched badge overlay
    /// onto an already-engraved icon, in place.
    pub fn badge_in_place(&self, icon_path: &str, badge: Badge, resolution: &IconResolution) -> (r:
        Invocation)
        ensures
            r@ == spec_badge_invocation(icon_path@, badge, *resolution),
    {
        let badge_icon = crate::resources::get_badge_icon(badge, resolution);
        let mut args = CommandArgs::new();
        args.push_path(icon_path);
        args.push("-");
        args.composite(&CompositingOperation::dissolve);
        args.push_path(icon_path);
        let inv = Invocation {
            executable: Executable::Convert,
            args,
            stdin: StdinSource::Resource(badge_icon),
        };
        proof {
            assert(inv@.1 =~= spec_badge_invocation(icon_path@, badge, *resolution).1);
            assert(inv@ =~~= spec_badge_invocation(icon_path@, badge, *resolution));
        }
        inv
    }

    /// Plans one resolution's whole pipeline: size the shared mask, engrave
    /// it onto the style's template, and badge the result if asked.
    pub fn icon(
        &self,
        options: &Options,
        full_mask_path: &str,
        output_path: &str,
        icon_inputs: &IconInputs,
    ) -> (r: Vec<Invocation>)
        ensures
            r.deep_view() == spec_icon_plan(
                self.working_dir@,
                self.resolution_prefix@,
                options.badge,
                full_mask_path@,
                output_path@,
                *icon_inputs,
            ),
    {
        proof {
            lemma_resolution_table_bounds(icon_inputs.resolution);
        }
        let size = icon_inputs.resolution.size();
        let offset_y = icon_inputs.resolution.offset_y();
        let (sized_inv, sized_mask_path) = self.sized_mask(
            full_mask_path,
            &ScaledMaskInputs {
                icon_size: size,
                mask_dimensions: Dimensions { width: size * 3 / 4, height: size / 2 },
                offset_y,
            },
        );

        let template_icon = crate::resources::get_folder_icon(icon_inputs);

        let fill_color = match (icon_inputs.folder_style, icon_inputs.color_scheme) {
            (FolderStyle::Tahoe, _) => RGBColor::new(74, 141, 172),
            (_, ColorScheme::Light) => RGBColor::new(8, 134, 206),
            (_, ColorScheme::Dark) => RGBColor::new(6, 111, 194),
        };

        let engraving_inputs = EngravingInputs {
            fill_color,
            top_bezel: BezelInputs {
                color: RGBColor::new(58, 152, 208),
                blur: BlurDown { spread_px: 0, page_y: 2 },
                mask_operation: CompositingOperation::Dst_In,
                opacity: Opacity::new(50),
            },
            bottom_bezel: BezelInputs {
                color: RGBColor::new(174, 225, 253),
                blur: icon_inputs.resolution.bottom_bezel_blur_down(),
                mask_operation: CompositingOperation::Dst_Out,
                opacity: icon_inputs.resolution.bottom_bezel_alpha(),
            },
        };

        let mut engrave_plan = self.engrave(
            sized_mask_path.as_str(),
            template_icon.as_str(),
            output_path,
            &engraving_inputs,
        );

        let mut plan: Vec<Invocation> = Vec::new();
        plan.push(sized_inv);
        plan.append(&mut engrave_plan);
        if let Some(badge) = options.badge {
            let badge_inv = self.badge_in_place(output_path, badge, &icon_inputs.resolution);
            plan.push(badge_inv);
        }
        proof {
            assert(plan.deep_view() =~~= spec_icon_plan(
                self.working_dir@,
                self.resolution_prefix@,
                options.badge,
                full_mask_path@,
                output_path@,
                *icon_inputs,
            ));
        }
        plan
    }

    /// Plans the icon-set compilation: the one invocation that packages the
    /// completed iconset directory into the final icon artifact.
    pub fn to_icns(&self, iconset_dir: &str, icns_path: &str) -> (r: Invocation)
        ensures
            r@ == (
                Executable::Iconutil,
                seq![iconset_dir@, "--convert"@, "icns"@, "--output"@, icns_path@],
                None::<Seq<char>>,
            ),
    {
        let mut args = CommandArgs::new();
        args.push_path(iconset_dir);
        args.push("--convert");
        args.push("icns");
        args.push("--output");
        args.push_path(icns_path);
        let inv = Invocation {
            executable: Executable::Iconutil,
            args,
            stdin: StdinSource::NoStdin,
        };
        proof {
            assert(inv@.1 =~= seq![iconset_dir@, "--convert"@, "icns"@, "--output"@, icns_path@]);
        }
        inv
    }
}

/// The badge-compositing invocation over the piped badge artwork.
pub open spec fn spec_badge_invocation(
    icon_path: Seq<char>,
    badge: Badge,
    resolution: IconResolution,
) -> InvocationModel {
    (
        Executable::Convert,
        seq![icon_path, "-"@] + spec_composite_args(CompositingOperation::dissolve) + seq![
            icon_path,
        ],
        Some(crate::resources::spec_badge_icon_path(badge, resolution)),
    )
}

/// The engraving parameters one resolution and style selection resolve to.
pub open spec fn spec_engraving_inputs(inputs: crate::resources::IconInputs) -> EngravingInputs {
    EngravingInputs {
        fill_color: match (inputs.folder_style, inputs.color_scheme) {
            (FolderStyle::Tahoe, _) => (RGBColor { r: 74, g: 141, b: 172 }),
            (_, ColorScheme::Light) => (RGBColor { r: 8, g: 134, b: 206 }),
            (_, ColorScheme::Dark) => (RGBColor { r: 6, g: 111, b: 194 }),
        },
        top_bezel: BezelInputs {
            color: (RGBColor { r: 58, g: 152, b: 208 }),
            blur: (BlurDown { spread_px: 0, page_y: 2 }),
            mask_operation: CompositingOperation::Dst_In,
            opacity: (Opacity { hundredths: 50 }),
        },
        bottom_bezel: BezelInputs {
            color: (RGBColor { r: 174, g: 225, b: 253 }),
            blur: spec_bottom_bezel_blur(inputs.resolution),
            mask_operation: CompositingOperation::Dst_Out,
            opacity: spec_bottom_bezel_alpha(inputs.resolution),
        },
    }
}

/// The sizing parameters one resolution resolves to: the folder-flap aspect
/// ratio fixed proportionally to the icon size.
pub open spec fn spec_scaled_mask_inputs(r: IconResolution) -> ScaledMaskInputs {
    ScaledMaskInputs {
        icon_size: spec_size(r) as u32,
        mask_dimensions: Dimensions {
            width: (spec_size(r) * 3 / 4) as u32,
            height: (spec_size(r) / 2) as u32,
        },
        offset_y: spec_offset_y(r) as i32,
    }
}

/// One resolution's whole plan: mask sizing, the engraving chain, and the
/// optional badge overlay.
pub open spec fn spec_icon_plan(
    wd: Seq<char>,
    prefix: Seq<char>,
    badge: Option<Badge>,
    full_mask: Seq<char>,
    output: Seq<char>,
    inputs: crate::resources::IconInputs,
) -> Seq<InvocationModel> {
    seq![
        spec_sized_mask_invocation(wd, prefix, full_mask, spec_scaled_mask_inputs(inputs.resolution)),
    ] + spec_engrave_plan(
        wd,
        prefix,
        spec_output_path(wd, prefix, "1.0_SIZED_MASK.png"@),
        crate::resources::spec_folder_icon_path(inputs),
        output,
        spec_engraving_inputs(inputs),
    ) + (match badge {
        Some(b) => seq![spec_badge_invocation(output, b, inputs.resolution)],
        None => Seq::<InvocationModel>::empty(),
    })
}

/// The resolution table's derived quantities stay in range: sizes are small,
/// offsets never degenerate.
pub proof fn lemma_resolution_table_bounds(r: IconResolution)
    ensures
        16 <= spec_size(r) <= 1024,
        -48 <= spec_offset_y(r) <= -2,
        spec_bottom_bezel_blur(r).page_y == 0 || spec_bottom_bezel_blur(r).page_y == 1,
        spec_bottom_bezel_alpha(r).wf(),
{
}

/// Law: two pipelines running under the labels of two distinct resolutions
/// write disjoint artifact paths into the shared working directory, whatever
/// their step file names. This is what makes the concurrent fan-out safe
/// without locking.
pub proof fn lemma_resolution_artifacts_disjoint(
    wd: Seq<char>,
    r1: IconResolution,
    f1: Seq<char>,
    r2: IconResolution,
    f2: Seq<char>,
)
    requires
        r1 != r2,
    ensures
        spec_output_path(wd, spec_label(r1), f1) != spec_output_path(wd, spec_label(r2), f2),
{
    lemma_label_no_underscore(r1);
    lemma_label_no_underscore(r2);
    if spec_output_path(wd, spec_label(r1), f1) == spec_output_path(wd, spec_label(r2), f2) {
        lemma_output_paths_disjoint(wd, spec_label(r1), f1, spec_label(r2), f2);
        lemma_label_injective(r1, r2);
    }
}

/// The iconset entry one resolution's final icon is written to.
pub fn iconset_file_path(iconset_dir: &str, resolution: &IconResolution) -> (r: String)
    ensures
        r@ == iconset_dir@ + "/"@ + spec_icon_file(*resolution),
{
    let mut s = iconset_dir.to_owned();
    s.append("/");
    let file = resolution.icon_file();
    s.append(file.as_str());
    proof {
        assert(s@ =~= iconset_dir@ + "/"@ + spec_icon_file(*resolution));
    }
    s
}

/// Law: within one iconset directory, distinct resolutions write distinct
/// entries, so the ten workers produce ten distinct files.
pub proof fn lemma_iconset_paths_unique(dir: Seq<char>, a: IconResolution, b: IconResolution)
    requires
        dir + "/"@ + spec_icon_file(a) == dir + "/"@ + spec_icon_file(b),
    ensures
        a == b,
{
    assert(dir + "/"@ + spec_icon_file(a) =~= (dir + "/"@) + spec_icon_file(a));
    assert(dir + "/"@ + spec_icon_file(b) =~= (dir + "/"@) + spec_icon_file(b));
    lemma_concat_cancel_prefix(dir + "/"@, spec_icon_file(a), spec_icon_file(b));
    lemma_icon_file_injective(a, b);
}

/// The character as it must appear inside a double-quoted script literal.
pub open spec fn spec_escaped_char(c: char) -> Seq<char> {
    if c == '\\' {
        seq!['\\', '\\']
    } else if c == '"' {
        seq!['\\', '"']
    } else {
        seq![c]
    }
}

/// A path as it must appear inside a double-quoted script literal:
/// backslashes and double quotes are escaped, everything else is untouched.
pub open spec fn spec_escaped(s: Seq<char>) -> Seq<char>
    decreases s.len(),
{
    if s.len() == 0 {
        Seq::empty()
    } else {
        spec_escaped(s.drop_last()) + spec_escaped_char(s.last())
    }
}

/// Escapes a path for embedding in a double-quoted script string literal.
pub fn escape_path_for_applescript(path: &str) -> (r: String)
    ensures
        r@ == spec_escaped(path@),
{
    let n = path.unicode_len();
    let mut out = String::new();
    let mut i: usize = 0;
    while i < n
        invariant
            n == path@.len(),
            0 <= i <= n,
            out@ == spec_escaped(path@.take(i as int)),
        decreases n - i,
    {
        let c = path.get_char(i);
        if c == '\\' {
            proof {
                reveal_strlit("\\\\");
            }
            out.append("\\\\");
            proof {
                assert("\\\\"@ =~= spec_escaped_char(c));
            }
        } else if c == '"' {
            proof {
                reveal_strlit("\\\"");
            }
            out.append("\\\"");
            proof {
                assert("\\\""@ =~= spec_escaped_char(c));
            }
        } else {
            let piece = path.substring_char(i, i + 1);
            out.append(piece);
            proof {
                assert(piece@ =~= spec_escaped_char(c));
            }
        }
        i += 1;
        proof {
            assert(path@.take(i as int).drop_last() =~= path@.take(i as int - 1));
            assert(path@.take(i as int).last() == path@[i as int - 1]);
            assert(out@ =~= spec_escaped(path@.take(i as int)));
        }
    }
    proof {
        assert(path@.take(n as int) =~= path@);
    }
    out
}

} // verus!
