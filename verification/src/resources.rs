//! Selection of the bundled template and badge artwork.
//!
//! The artwork ships outside the library; here each combination of style,
//! scheme and resolution is mapped to the relative path of the PNG to use,
//! and the shell around the library turns that path into bytes.

use vstd::prelude::*;
use vstd::string::*;

use crate::icon_conversion::{spec_icon_file, IconResolution};
use crate::options::{Badge, ColorScheme, FolderStyle};

verus! {

/// Everything that selects one template folder icon.
#[derive(Clone, Copy, Debug, PartialEq, Eq, Structural)]
pub struct IconInputs {
    pub folder_style: FolderStyle,
    pub color_scheme: ColorScheme,
    pub resolution: IconResolution,
    pub empty_folder: bool,
}

/// The iconset directory holding the template folder artwork for the given
/// selection.
pub open spec fn spec_folder_iconset_name(
    color_scheme: ColorScheme,
    folder_style: FolderStyle,
    empty_folder: bool,
) -> Seq<char> {
    match (color_scheme, folder_style, empty_folder) {
        (ColorScheme::Light, FolderStyle::BigSur, _) => "GenericFolderIcon.BigSur.iconset"@,
        (ColorScheme::Dark, FolderStyle::BigSur, _) => "GenericFolderIcon.BigSur.dark.iconset"@,
        (_, FolderStyle::Tahoe, true) => "GenericFolderIcon.empty.Tahoe.iconset"@,
        (_, FolderStyle::Tahoe, false) => "GenericFolderIcon.non-empty.Tahoe.iconset"@,
    }
}

pub open spec fn spec_folder_icon_path(inputs: IconInputs) -> Seq<char> {
    "folders/"@ + spec_folder_iconset_name(
        inputs.color_scheme,
        inputs.folder_style,
        inputs.empty_folder,
    ) + "/"@ + spec_icon_file(inputs.resolution)
}

/// The relative path of the bundled template folder icon for these inputs.
pub fn get_folder_icon(icon_inputs: &IconInputs) -> (r: String)
    ensures
        r@ == spec_folder_icon_path(*icon_inputs),
{
    let mut path = String::from_str("folders/");
    let name = match (icon_inputs.color_scheme, icon_inputs.folder_style, icon_inputs.empty_folder) {
        (ColorScheme::Light, FolderStyle::BigSur, _) => "GenericFolderIcon.BigSur.iconset",
        (ColorScheme::Dark, FolderStyle::BigSur, _) => "GenericFolderIcon.BigSur.dark.iconset",
        (_, FolderStyle::Tahoe, true) => "GenericFolderIcon.empty.Tahoe.iconset",
        (_, FolderStyle::Tahoe, false) => "GenericFolderIcon.non-empty.Tahoe.iconset",
    };
    path.append(name);
    path.append("/");
    let file = icon_inputs.resolution.icon_file();
    path.append(file.as_str());
    proof {
        assert(path@ =~= spec_folder_icon_path(*icon_inputs));
    }
    path
}

/// The iconset directory holding the given badge's artwork.
pub open spec fn spec_badge_iconset_name(badge: Badge) -> Seq<char> {
    match badge {
        Badge::Alias => "AliasBadgeIcon.iconset"@,
        Badge::Locked => "LockedBadgeIcon.iconset"@,
    }
}

pub open spec fn spec_badge_icon_path(badge: Badge, resolution: IconResolution) -> Seq<char> {
    "badges/"@ + spec_badge_iconset_name(badge) + "/"@ + spec_icon_file(resolution)
}

/// The relative path of the bundled badge overlay, resolution-matched.
pub fn get_badge_icon(badge: Badge, resolution: &IconResolution) -> (r: String)
    ensures
        r@ == spec_badge_icon_path(badge, *resolution),
{
    let mut path = String::from_str("badges/");
    let name = match badge {
        Badge::Alias => "AliasBadgeIcon.iconset",
        Badge::Locked => "LockedBadgeIcon.iconset",
    };
    path.append(name);
    path.append("/");
    let file = resolution.icon_file();
    path.append(file.as_str());
    proof {
        assert(path@ =~= spec_badge_icon_path(badge, *resolution));
    }
    path
}

} // verus!
