//! Geometry and color value types with canonical string encodings.
//!
//! The encoded strings are literal parameters for an external image
//! processing engine, so the exact format is part of each contract.

use vstd::prelude::*;
use vstd::string::*;

use crate::strutil::{append_u32, dec_str, digit_char, is_decimal_digit};
use crate::strutil::{lemma_dec_str_digits, lemma_dec_str_len};

verus! {

/// A pixel width and height, encoded as `"WxH"`.
#[derive(Clone, Copy, Debug, PartialEq, Eq, Structural)]
pub struct Dimensions {
    pub width: u32,
    pub height: u32,
}

pub open spec fn spec_dimensions_string(w: int, h: int) -> Seq<char> {
    dec_str(w) + "x"@ + dec_str(h)
}

impl Dimensions {
    pub fn square(side_size: u32) -> (r: Self)
        ensures
            r.width == side_size,
            r.height == side_size,
    {
        Dimensions { width: side_size, height: side_size }
    }

    pub fn to_cli_string(&self) -> (r: String)
        ensures
            r@ == spec_dimensions_string(self.width as int, self.height as int),
    {
        let mut s = String::new();
        append_u32(&mut s, self.width);
        s.append("x");
        append_u32(&mut s, self.height);
        proof {
            assert(s@ =~= spec_dimensions_string(self.width as int, self.height as int));
        }
        s
    }
}

/// Law: the dimension encoding is the two decimal renderings joined by a
/// single `'x'`, with no whitespace anywhere.
pub proof fn lemma_dimensions_string_no_whitespace(w: int, h: int)
    requires
        0 <= w,
        0 <= h,
    ensures
        forall|i: int|
            0 <= i < spec_dimensions_string(w, h).len() ==> #[trigger] spec_dimensions_string(
                w,
                h,
            )[i] != ' ',
{
    reveal_strlit("x");
    lemma_dec_str_digits(w);
    lemma_dec_str_digits(h);
    let s = spec_dimensions_string(w, h);
    assert forall|i: int| 0 <= i < s.len() implies s[i] != ' ' by {
        if i < dec_str(w).len() {
            assert(s[i] == dec_str(w)[i]);
        } else if i == dec_str(w).len() {
            assert(s[i] == 'x');
        } else {
            assert(s[i] == dec_str(h)[i - dec_str(w).len() - 1]);
        }
    }
}

/// An RGB color, encoded as `"rgb(r, g, b)"`.
#[derive(Clone, Copy, Debug, PartialEq, Eq, Structural)]
pub struct RGBColor {
    pub r: u8,
    pub g: u8,
    pub b: u8,
}

pub open spec fn spec_rgb_string(r: int, g: int, b: int) -> Seq<char> {
    "rgb("@ + dec_str(r) + ", "@ + dec_str(g) + ", "@ + dec_str(b) + ")"@
}

impl RGBColor {
    pub fn new(r: u8, g: u8, b: u8) -> (c: Self)
        ensures
            c.r == r,
            c.g == g,
            c.b == b,
    {
        Self { r, g, b }
    }

    pub fn to_cli_string(&self) -> (s: String)
        ensures
            s@ == spec_rgb_string(self.r as int, self.g as int, self.b as int),
    {
        let mut s = String::from_str("rgb(");
        append_u32(&mut s, self.r as u32);
        s.append(", ");
        append_u32(&mut s, self.g as u32);
        s.append(", ");
        append_u32(&mut s, self.b as u32);
        s.append(")");
        proof {
            assert(s@ =~= spec_rgb_string(self.r as int, self.g as int, self.b as int));
        }
        s
    }
}

/// A signed canvas offset, encoded as `"±X±Y"` with an explicit sign on both
/// components, including `+` for zero.
#[derive(Clone, Copy, Debug, PartialEq, Eq, Structural)]
pub struct Offset {
    pub x: i32,
    pub y: i32,
}

pub open spec fn spec_sign(v: int) -> char {
    if v < 0 {
        '-'
    } else {
        '+'
    }
}

pub fn sign(v: i32) -> (c: char)
    ensures
        c == spec_sign(v as int),
{
    if v < 0 {
        '-'
    } else {
        '+'
    }
}

pub open spec fn spec_offset_string(x: int, y: int) -> Seq<char> {
    seq![spec_sign(x)] + dec_str(vstd::math::abs(x) as int) + seq![spec_sign(y)] + dec_str(
        vstd::math::abs(y) as int,
    )
}

impl Offset {
    /// Both components can be rendered; the most negative value has no
    /// absolute value of its own type.
    pub open spec fn renderable(&self) -> bool {
        self.x != i32::MIN && self.y != i32::MIN
    }

    pub fn from_y(y: i32) -> (r: Self)
        ensures
            r.x == 0,
            r.y == y,
    {
        Offset { x: 0, y }
    }

    pub fn to_cli_string(&self) -> (r: String)
        requires
            self.renderable(),
        ensures
            r@ == spec_offset_string(self.x as int, self.y as int),
    {
        proof {
            reveal_strlit("+");
            reveal_strlit("-");
        }
        let mut s = String::new();
        if self.x < 0 {
            s.append("-");
        } else {
            s.append("+");
        }
        append_u32(&mut s, abs_u32(self.x));
        if self.y < 0 {
            s.append("-");
        } else {
            s.append("+");
        }
        append_u32(&mut s, abs_u32(self.y));
        proof {
            assert(s@ =~= spec_offset_string(self.x as int, self.y as int));
        }
        s
    }
}

impl Default for Offset {
    fn default() -> (r: Self)
        ensures
            r.x == 0,
            r.y == 0,
    {
        Offset { x: 0, y: 0 }
    }
}

fn abs_u32(v: i32) -> (r: u32)
    requires
        v != i32::MIN,
    ensures
        r as int == vstd::math::abs(v as int),
{
    if v < 0 {
        (-v) as u32
    } else {
        v as u32
    }
}

/// Law: the offset encoding carries an explicit sign character in front of
/// both components, even when a component is zero.
pub proof fn lemma_offset_string_explicit_signs(x: int, y: int)
    ensures
        spec_offset_string(x, y)[0] == spec_sign(x),
        spec_offset_string(x, y)[1 + dec_str(vstd::math::abs(x) as int).len() as int] == spec_sign(
            y,
        ),
        spec_sign(x) == '+' || spec_sign(x) == '-',
        spec_sign(y) == '+' || spec_sign(y) == '-',
        x >= 0 ==> spec_offset_string(x, y)[0] == '+',
        spec_offset_string(x, y).len() == 2 + dec_str(vstd::math::abs(x) as int).len() + dec_str(
            vstd::math::abs(y) as int,
        ).len(),
{
    lemma_dec_str_len(vstd::math::abs(x) as int);
    lemma_dec_str_len(vstd::math::abs(y) as int);
}

/// A canvas extension: pad or crop to `size`, anchored by `offset` from
/// center. Encoded as the size encoding followed by the offset encoding.
#[derive(Clone, Copy, Debug, PartialEq, Eq, Structural)]
pub struct Extent {
    pub size: Dimensions,
    pub offset: Offset,
}

pub open spec fn spec_extent_string(e: Extent) -> Seq<char> {
    spec_dimensions_string(e.size.width as int, e.size.height as int) + spec_offset_string(
        e.offset.x as int,
        e.offset.y as int,
    )
}

impl Extent {
    pub fn no_offset(size: &Dimensions) -> (r: Self)
        ensures
            r.size == *size,
            r.offset.x == 0,
            r.offset.y == 0,
    {
        Self { size: size.clone(), offset: Offset::default() }
    }

    pub fn to_cli_string(&self) -> (r: String)
        requires
            self.offset.renderable(),
        ensures
            r@ == spec_extent_string(*self),
    {
        let mut s = self.size.to_cli_string();
        let offset_string = self.offset.to_cli_string();
        s.append(offset_string.as_str());
        proof {
            assert(s@ =~= spec_extent_string(*self));
        }
        s
    }
}

/// Law: an extent with no offset encodes as the size encoding followed by
/// exactly `"+0+0"`.
pub proof fn lemma_extent_no_offset_string(e: Extent)
    requires
        e.offset.x == 0,
        e.offset.y == 0,
    ensures
        spec_extent_string(e) == spec_dimensions_string(
            e.size.width as int,
            e.size.height as int,
        ) + "+0+0"@,
{
    reveal_strlit("+0+0");
    assert(spec_offset_string(0, 0) =~= "+0+0"@);
    assert(spec_extent_string(e) =~= spec_dimensions_string(
        e.size.width as int,
        e.size.height as int,
    ) + "+0+0"@);
}

/// An alpha multiplier in hundredths, from 0 (transparent) to 100 (opaque).
/// Encoded the way the processing engine expects a unit fraction: `"1"`,
/// `"0"`, `"0.5"`, `"0.35"`, `"0.05"`.
#[derive(Clone, Copy, Debug, PartialEq, Eq, Structural)]
pub struct Opacity {
    pub hundredths: u8,
}

pub open spec fn spec_opacity_string(h: int) -> Seq<char> {
    if h == 100 {
        "1"@
    } else if h == 0 {
        "0"@
    } else if h < 10 {
        "0.0"@ + seq![digit_char(h)]
    } else if h % 10 == 0 {
        "0."@ + seq![digit_char(h / 10)]
    } else {
        "0."@ + seq![digit_char(h / 10), digit_char(h % 10)]
    }
}

impl Opacity {
    pub open spec fn wf(&self) -> bool {
        self.hundredths <= 100
    }

    pub fn new(hundredths: u8) -> (r: Self)
        requires
            hundredths <= 100,
        ensures
            r.hundredths == hundredths,
            r.wf(),
    {
        Opacity { hundredths }
    }

    pub fn to_cli_string(&self) -> (r: String)
        requires
            self.wf(),
        ensures
            r@ == spec_opacity_string(self.hundredths as int),
    {
        let h = self.hundredths as u32;
        if h == 100 {
            String::from_str("1")
        } else if h == 0 {
            String::from_str("0")
        } else if h < 10 {
            let mut s = String::from_str("0.0");
            append_u32(&mut s, h);
            proof {
                assert(s@ =~= spec_opacity_string(self.hundredths as int));
            }
            s
        } else if h % 10 == 0 {
            let mut s = String::from_str("0.");
            append_u32(&mut s, h / 10);
            proof {
                assert(s@ =~= spec_opacity_string(self.hundredths as int));
            }
            s
        } else {
            let mut s = String::from_str("0.");
            append_u32(&mut s, h / 10);
            append_u32(&mut s, h % 10);
            proof {
                assert(s@ =~= spec_opacity_string(self.hundredths as int));
            }
            s
        }
    }
}

} // verus!
