use vstd::prelude::*;
use vstd::string::*;

use crate::utils::{dec_str, fmt_milli, fmt_u64, fmt_usize, format_floats, join_coords, milli_str};

verus! {

/// A region given in absolute pixel values: `x`,`y` count pixels from the
/// upper-left corner of the image, `w` and `h` give the width and height of
/// the region in pixels.
#[derive(Debug, Clone, Copy, PartialEq, Eq, Structural)]
pub struct Absolute {
    pub x: usize,
    pub y: usize,
    pub w: usize,
    pub h: usize,
}

/// A region given as percentages of the full image's dimensions.  Each
/// coordinate is held in thousandths of a percent point, so `1234` stands
/// for `1.234%`; the canonical form keeps at most three decimal places, as
/// the IIIF examples do.
#[derive(Debug, Clone, Copy, PartialEq, Eq, Structural)]
pub struct Percentage {
    pub x: u32,
    pub y: u32,
    pub w: u32,
    pub h: u32,
}

/// The region parameter: the rectangular portion of the full image to be
/// returned.  It can be the whole image, a centered square, absolute pixel
/// coordinates or percentages of the full dimensions.
///
/// The default is `Region::Full`.
#[derive(Debug, Clone, Copy, PartialEq, Eq, Structural)]
pub enum Region {
    Full,
    Square,
    Abs(Absolute),
    Pct(Percentage),
}

/// The size parameter: the dimensions to which the extracted region is
/// scaled.
///
/// | Form | Meaning |
/// |------|---------|
/// | `Full` | no scaling |
/// | `Max` | the maximum size the server makes available |
/// | `Width(w)` | exact width, height keeps the aspect ratio |
/// | `Height(h)` | exact height, width keeps the aspect ratio |
/// | `Percent(n)` | scaled to `n`% of the extracted region |
/// | `WidthHeight(w, h)` | exact width and height, possibly distorting |
/// | `BestFit(w, h)` | best fit within `w` and `h`, keeping the aspect ratio |
///
/// The default is `Size::Full`.
#[derive(Debug, Clone, Copy, PartialEq, Eq, Structural)]
pub enum Size {
    Full,
    Max,
    Width(usize),
    Height(usize),
    Percent(u16),
    WidthHeight(usize, usize),
    BestFit(usize, usize),
}

/// The rotation parameter: degrees of clockwise rotation, held in
/// thousandths of a degree (`90000` stands for 90 degrees), either plain or
/// mirrored on the vertical axis before rotating.
///
/// The default is `Rotation::Normal(0)`.
#[derive(Debug, Clone, Copy, PartialEq, Eq, Structural)]
pub enum Rotation {
    Normal(u32),
    Mirror(u32),
}

/// The quality parameter: whether the image is delivered in color,
/// grayscale, black and white, or whatever the server prefers.
///
/// The default is `Quality::ServerDefault`.
#[derive(Debug, Clone, Copy, PartialEq, Eq, Structural)]
pub enum Quality {
    ServerDefault,
    Color,
    Gray,
    Bitonal,
}

/// The format of the returned image, expressed as an extension at the end
/// of the URI.
///
/// The default is `Format::Jpg`.
#[derive(Debug, Clone, Copy, PartialEq, Eq, Structural)]
pub enum Format {
    Jpg,
    Tif,
    Png,
    Gif,
    Jp2,
    Pdf,
    Webp,
}

/// Canonical string of an absolute region: the four pixel values joined
/// with commas.
pub open spec fn abs_str(a: Absolute) -> Seq<char> {
    dec_str(a.x as nat) + ","@ + dec_str(a.y as nat) + ","@ + dec_str(a.w as nat) + ","@ + dec_str(
        a.h as nat,
    )
}

/// Canonical string of a percentage region: `pct:` and the four
/// coordinates joined with commas.
pub open spec fn pct_str(p: Percentage) -> Seq<char> {
    "pct:"@ + milli_str(p.x as nat) + ","@ + milli_str(p.y as nat) + ","@ + milli_str(p.w as nat)
        + ","@ + milli_str(p.h as nat)
}

/// Canonical string of the region parameter.
pub open spec fn region_str(r: Region) -> Seq<char> {
    match r {
        Region::Full => "full"@,
        Region::Square => "square"@,
        Region::Abs(a) => abs_str(a),
        Region::Pct(p) => pct_str(p),
    }
}

/// Canonical string of the size parameter.
pub open spec fn size_str(s: Size) -> Seq<char> {
    match s {
        Size::Full => "full"@,
        Size::Max => "max"@,
        Size::Width(w) => dec_str(w as nat) + ","@,
        Size::Height(h) => ","@ + dec_str(h as nat),
        Size::Percent(n) => "pct:"@ + dec_str(n as nat),
        Size::WidthHeight(w, h) => dec_str(w as nat) + ","@ + dec_str(h as nat),
        Size::BestFit(w, h) => "!"@ + dec_str(w as nat) + ","@ + dec_str(h as nat),
    }
}

/// Canonical string of the rotation parameter: the degrees, preceded by
/// `!` when the image is mirrored first.
pub open spec fn rotation_str(r: Rotation) -> Seq<char> {
    match r {
        Rotation::Normal(n) => milli_str(n as nat),
        Rotation::Mirror(n) => "!"@ + milli_str(n as nat),
    }
}

/// Canonical string of the quality parameter.
pub open spec fn quality_str(q: Quality) -> Seq<char> {
    match q {
        Quality::ServerDefault => "default"@,
        Quality::Color => "color"@,
        Quality::Gray => "gray"@,
        Quality::Bitonal => "bitonal"@,
    }
}

/// Canonical string of the format parameter.
pub open spec fn format_str(f: Format) -> Seq<char> {
    match f {
        Format::Jpg => "jpg"@,
        Format::Tif => "tif"@,
        Format::Png => "png"@,
        Format::Gif => "gif"@,
        Format::Jp2 => "jp2"@,
        Format::Pdf => "pdf"@,
        Format::Webp => "webp"@,
    }
}

impl Absolute {
    pub fn to_string(&self) -> (s: String)
        ensures
            s@ == abs_str(*self),
    {
        let x = fmt_usize(self.x);
        let y = fmt_usize(self.y);
        let w = fmt_usize(self.w);
        let h = fmt_usize(self.h);
        let s = join_coords(x.as_str(), y.as_str(), w.as_str(), h.as_str());
        assert(s@ =~= abs_str(*self));
        s
    }
}

impl Percentage {
    pub fn to_string(&self) -> (s: String)
        ensures
            s@ == pct_str(*self),
    {
        let floats = format_floats(vec![self.x, self.y, self.w, self.h]);
        let coords = join_coords(
            floats[0].as_str(),
            floats[1].as_str(),
            floats[2].as_str(),
            floats[3].as_str(),
        );
        let mut s = String::from_str("pct:");
        s.append(coords.as_str());
        assert(s@ =~= pct_str(*self));
        s
    }
}

impl Region {
    pub fn to_string(&self) -> (s: String)
        ensures
            s@ == region_str(*self),
    {
        match self {
            Region::Full => String::from_str("full"),
            Region::Square => String::from_str("square"),
            Region::Abs(a) => a.to_string(),
            Region::Pct(p) => p.to_string(),
        }
    }
}

impl Size {
    pub fn to_string(&self) -> (s: String)
        ensures
            s@ == size_str(*self),
    {
        match self {
            Size::Full => String::from_str("full"),
            Size::Max => String::from_str("max"),
            Size::Width(w) => {
                let mut s = fmt_usize(*w);
                s.append(",");
                assert(s@ =~= size_str(*self));
                s
            },
            Size::Height(h) => {
                let mut s = String::from_str(",");
                s.append(fmt_usize(*h).as_str());
                assert(s@ =~= size_str(*self));
                s
            },
            Size::Percent(n) => {
                let mut s = String::from_str("pct:");
                s.append(fmt_u64(*n as u64).as_str());
                assert(s@ =~= size_str(*self));
                s
            },
            Size::WidthHeight(w, h) => {
                let mut s = fmt_usize(*w);
                s.append(",");
                s.append(fmt_usize(*h).as_str());
                assert(s@ =~= size_str(*self));
                s
            },
            Size::BestFit(w, h) => {
                let mut s = String::from_str("!");
                s.append(fmt_usize(*w).as_str());
                s.append(",");
                s.append(fmt_usize(*h).as_str());
                assert(s@ =~= size_str(*self));
                s
            },
        }
    }
}

impl Rotation {
    pub fn to_string(&self) -> (s: String)
        ensures
            s@ == rotation_str(*self),
    {
        match self {
            Rotation::Normal(n) => fmt_milli(*n),
            Rotation::Mirror(n) => {
                let mut s = String::from_str("!");
                s.append(fmt_milli(*n).as_str());
                assert(s@ =~= rotation_str(*self));
                s
            },
        }
    }
}

impl Quality {
    pub fn to_string(&self) -> (s: String)
        ensures
            s@ == quality_str(*self),
    {
        match self {
            Quality::ServerDefault => String::from_str("default"),
            Quality::Color => String::from_str("color"),
            Quality::Bitonal => String::from_str("bitonal"),
            Quality::Gray => String::from_str("gray"),
        }
    }
}

impl Format {
    pub fn to_string(&self) -> (s: String)
        ensures
            s@ == format_str(*self),
    {
        match self {
            Format::Jpg => String::from_str("jpg"),
            Format::Tif => String::from_str("tif"),
            Format::Png => String::from_str("png"),
            Format::Gif => String::from_str("gif"),
            Format::Jp2 => String::from_str("jp2"),
            Format::Pdf => String::from_str("pdf"),
            Format::Webp => String::from_str("webp"),
        }
    }
}

impl Default for Region {
    fn default() -> (r: Self)
        ensures
            r == Region::Full,
    {
        Region::Full
    }
}

impl Default for Size {
    fn default() -> (r: Self)
        ensures
            r == Size::Full,
    {
        Size::Full
    }
}

impl Default for Rotation {
    fn default() -> (r: Self)
        ensures
            r == Rotation::Normal(0),
    {
        Rotation::Normal(0)
    }
}

impl Default for Quality {
    fn default() -> (r: Self)
        ensures
            r == Quality::ServerDefault,
    {
        Quality::ServerDefault
    }
}

impl Default for Format {
    fn default() -> (r: Self)
        ensures
            r == Format::Jpg,
    {
        Format::Jpg
    }
}

impl Default for Absolute {
    fn default() -> (r: Self)
        ensures
            r == (Absolute { x: 0, y: 0, w: 0, h: 0 }),
    {
        Absolute { x: 0, y: 0, w: 0, h: 0 }
    }
}

impl Default for Percentage {
    fn default() -> (r: Self)
        ensures
            r == (Percentage { x: 0, y: 0, w: 0, h: 0 }),
    {
        Percentage { x: 0, y: 0, w: 0, h: 0 }
    }
}

} // verus!
