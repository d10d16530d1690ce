//! Resolved run options and the pure decisions behind them: folder-style
//! selection from a macOS version string and color-scheme resolution.
//!
//! Reading the command line, the environment and the running system happens
//! outside the library; the answers arrive here as plain values.

use vstd::prelude::*;
use vstd::string::*;

use crate::strutil::{str_eq_str, str_starts_with};

verus! {

#[derive(Clone, Copy, Debug, PartialEq, Eq, Structural)]
pub enum ColorScheme {
    Light,
    Dark,
}

pub open spec fn spec_color_scheme_name(c: ColorScheme) -> Seq<char> {
    match c {
        ColorScheme::Light => "light"@,
        ColorScheme::Dark => "dark"@,
    }
}

impl ColorScheme {
    /// The user-facing name of the scheme.
    pub fn name(&self) -> (r: &'static str)
        ensures
            r@ == spec_color_scheme_name(*self),
    {
        match self {
            ColorScheme::Light => "light",
            ColorScheme::Dark => "dark",
        }
    }
}

/// A color scheme as requested, before the running system is consulted.
#[derive(Clone, Copy, Debug, PartialEq, Eq, Structural)]
pub enum ColorSchemeOrAuto {
    Auto,
    Light,
    Dark,
}

#[derive(Clone, Copy, Debug, PartialEq, Eq, Structural)]
pub enum Badge {
    Alias,
    Locked,
}

#[derive(Clone, Copy, Debug, PartialEq, Eq, Structural)]
pub enum SetIconUsing {
    Fileicon,
    Osascript,
    Rez,
}

/// An icon-assignment program as requested, before defaulting.
#[derive(Clone, Copy, Debug, PartialEq, Eq, Structural)]
pub enum SetIconUsingOrAuto {
    Auto,
    Fileicon,
    Osascript,
    Rez,
}

#[derive(Clone, Copy, Debug, PartialEq, Eq, Structural)]
pub enum FolderStyle {
    BigSur,
    Tahoe,
}

pub open spec fn spec_dark_and_light_identical(s: FolderStyle) -> bool {
    match s {
        FolderStyle::BigSur => false,
        FolderStyle::Tahoe => true,
    }
}

pub open spec fn spec_folder_style_name(s: FolderStyle) -> Seq<char> {
    match s {
        FolderStyle::BigSur => "Big Sur"@,
        FolderStyle::Tahoe => "Tahoe"@,
    }
}

impl FolderStyle {
    pub fn dark_mode_and_light_mode_are_identical(&self) -> (r: bool)
        ensures
            r == spec_dark_and_light_identical(*self),
    {
        match self {
            FolderStyle::BigSur => false,
            FolderStyle::Tahoe => true,
        }
    }

    /// The user-facing name of the style.
    pub fn name(&self) -> (r: &'static str)
        ensures
            r@ == spec_folder_style_name(*self),
    {
        match self {
            FolderStyle::BigSur => "Big Sur",
            FolderStyle::Tahoe => "Tahoe",
        }
    }
}

/// The fully resolved options driving one run. Paths are plain strings.
#[derive(Clone, Debug)]
pub struct Options {
    pub mask_path: String,
    pub color_scheme: ColorScheme,
    pub no_trim: bool,
    pub target: Option<String>,
    pub folder_style: FolderStyle,
    pub empty_folder: bool,
    pub output_icns: Option<String>,
    pub output_iconset: Option<String>,
    pub set_icon_using: SetIconUsing,
    pub show_progress: bool,
    pub badge: Option<Badge>,
    pub reveal: bool,
    pub verbose: bool,
    pub debug: bool,
}

/// One version entry matches either exactly, or as the major-version prefix
/// followed by a dot.
pub open spec fn spec_version_matches(m: Seq<char>, v: Seq<char>) -> bool {
    m == v || (v.len() < m.len() && m.take(v.len() as int) == v && m[v.len() as int] == '.')
}

fn version_matches(mac_os: &str, version: &str) -> (r: bool)
    ensures
        r == spec_version_matches(mac_os@, version@),
{
    if str_eq_str(mac_os, version) {
        return true;
    }
    let vn = version.unicode_len();
    let mn = mac_os.unicode_len();
    if vn < mn && str_starts_with(mac_os, version) {
        if mac_os.get_char(vn) == '.' {
            return true;
        }
    }
    false
}

/// Whether the version string belongs to one of the named major versions.
pub fn is_major_macos_version_one_of(mac_os: &str, versions: &[&str]) -> (r: bool)
    ensures
        r == exists|i: int|
            0 <= i < versions@.len() && spec_version_matches(mac_os@, versions@[i]@),
{
    let n = versions.len();
    let mut i: usize = 0;
    while i < n
        invariant
            n == versions@.len(),
            0 <= i <= n,
            forall|j: int| 0 <= j < i ==> !spec_version_matches(mac_os@, versions@[j]@),
        decreases n - i,
    {
        if version_matches(mac_os, versions[i]) {
            proof {
                assert(spec_version_matches(mac_os@, versions@[i as int]@));
            }
            return true;
        }
        i += 1;
    }
    false
}

/// The OS X / macOS 10 releases whose folder icons this tool no longer
/// generates. These are matched exactly, as specified values, not as
/// major-version prefixes.
pub open spec fn spec_is_legacy_macos(m: Seq<char>) -> bool {
    m == "10.5"@ || m == "10.6"@ || m == "10.7"@ || m == "10.8"@ || m == "10.9"@ || m == "10.10"@
        || m == "10.11"@ || m == "10.12"@ || m == "10.13"@ || m == "10.14"@ || m == "10.15"@
}

/// What a macOS version string means for folder-style selection.
#[derive(Clone, Copy, Debug, PartialEq, Eq, Structural)]
pub enum VersionVerdict {
    /// An OS X / macOS 10 release this tool no longer supports.
    UnsupportedLegacy,
    /// A release with the Big Sur folder style.
    BigSurEra,
    /// The beta folder style of macOS 26.
    TahoeBeta,
    /// Unrecognized; the Big Sur style is assumed.
    UnknownAssumeBigSur,
}

pub open spec fn spec_classify_macos_version(m: Seq<char>) -> VersionVerdict {
    if spec_is_legacy_macos(m) {
        VersionVerdict::UnsupportedLegacy
    } else if spec_version_matches(m, "15"@) || spec_version_matches(m, "14"@)
        || spec_version_matches(m, "13"@) || spec_version_matches(m, "12"@) || spec_version_matches(
        m,
        "11"@,
    ) {
        VersionVerdict::BigSurEra
    } else if spec_version_matches(m, "26"@) {
        VersionVerdict::TahoeBeta
    } else {
        VersionVerdict::UnknownAssumeBigSur
    }
}

/// Sorts a macOS version string into the folder-style eras. Big Sur covers
/// macOS 11 through 15; macOS 26 is the beta Tahoe style; macOS 10 versions
/// that previously had different folder icons are rejected outright, even
/// though macOS 11 sometimes reports itself as 10.16.
pub fn classify_macos_version(mac_os: &str) -> (r: VersionVerdict)
    ensures
        r == spec_classify_macos_version(mac_os@),
{
    let legacy = str_eq_str(mac_os, "10.5") || str_eq_str(mac_os, "10.6") || str_eq_str(
        mac_os,
        "10.7",
    ) || str_eq_str(mac_os, "10.8") || str_eq_str(mac_os, "10.9") || str_eq_str(mac_os, "10.10")
        || str_eq_str(mac_os, "10.11") || str_eq_str(mac_os, "10.12") || str_eq_str(
        mac_os,
        "10.13",
    ) || str_eq_str(mac_os, "10.14") || str_eq_str(mac_os, "10.15");
    if legacy {
        VersionVerdict::UnsupportedLegacy
    } else if version_matches(mac_os, "15") || version_matches(mac_os, "14") || version_matches(
        mac_os,
        "13",
    ) || version_matches(mac_os, "12") || version_matches(mac_os, "11") {
        VersionVerdict::BigSurEra
    } else if version_matches(mac_os, "26") {
        VersionVerdict::TahoeBeta
    } else {
        VersionVerdict::UnknownAssumeBigSur
    }
}

impl VersionVerdict {
    /// The folder style each verdict selects, if any.
    pub fn folder_style(&self) -> (r: Option<FolderStyle>)
        ensures
            *self matches VersionVerdict::UnsupportedLegacy <==> r is None,
            *self matches VersionVerdict::BigSurEra ==> r == Some(FolderStyle::BigSur),
            *self matches VersionVerdict::TahoeBeta ==> r == Some(FolderStyle::Tahoe),
            *self matches VersionVerdict::UnknownAssumeBigSur ==> r == Some(FolderStyle::BigSur),
    {
        match self {
            VersionVerdict::UnsupportedLegacy => None,
            VersionVerdict::BigSurEra => Some(FolderStyle::BigSur),
            VersionVerdict::TahoeBeta => Some(FolderStyle::Tahoe),
            VersionVerdict::UnknownAssumeBigSur => Some(FolderStyle::BigSur),
        }
    }
}

pub open spec fn spec_map_color_scheme(
    color_scheme: ColorSchemeOrAuto,
    folder_style: FolderStyle,
    system_reports_dark: bool,
) -> ColorScheme {
    if spec_dark_and_light_identical(folder_style) {
        ColorScheme::Light
    } else {
        match color_scheme {
            ColorSchemeOrAuto::Dark => ColorScheme::Dark,
            ColorSchemeOrAuto::Light => ColorScheme::Light,
            ColorSchemeOrAuto::Auto => if system_reports_dark {
                ColorScheme::Dark
            } else {
                ColorScheme::Light
            },
        }
    }
}

/// Resolves the requested color scheme against the selected folder style.
/// `system_reports_dark` is the running system's interface-style answer,
/// consulted only when the request is automatic.
pub fn map_color_scheme(
    color_scheme: ColorSchemeOrAuto,
    folder_style: FolderStyle,
    system_reports_dark: bool,
) -> (r: ColorScheme)
    ensures
        r == spec_map_color_scheme(color_scheme, folder_style, system_reports_dark),
{
    if folder_style.dark_mode_and_light_mode_are_identical() {
        return ColorScheme::Light;
    }
    match color_scheme {
        ColorSchemeOrAuto::Dark => ColorScheme::Dark,
        ColorSchemeOrAuto::Light => ColorScheme::Light,
        ColorSchemeOrAuto::Auto => if system_reports_dark {
            ColorScheme::Dark
        } else {
            ColorScheme::Light
        },
    }
}

/// Resolves the requested icon-assignment program, defaulting to the
/// AppleScript route.
pub fn resolve_set_icon_using(choice: Option<SetIconUsingOrAuto>) -> (r: SetIconUsing)
    ensures
        choice == Some(SetIconUsingOrAuto::Rez) ==> r == SetIconUsing::Rez,
        choice == Some(SetIconUsingOrAuto::Fileicon) ==> r == SetIconUsing::Fileicon,
        choice != Some(SetIconUsingOrAuto::Rez) && choice != Some(SetIconUsingOrAuto::Fileicon)
            ==> r == SetIconUsing::Osascript,
{
    match choice {
        Some(SetIconUsingOrAuto::Rez) => SetIconUsing::Rez,
        Some(SetIconUsingOrAuto::Fileicon) => SetIconUsing::Fileicon,
        _ => SetIconUsing::Osascript,
    }
}

} // verus!
