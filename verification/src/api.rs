use vstd::prelude::*;

use crate::parameters::{Absolute, Format, Percentage, Quality, Region, Rotation, Size};

verus! {

/// One IIIF Image API endpoint together with the parameters of the next
/// request: the host, optional path prefixes, the image identifier, and one
/// value for each of region, size, rotation, quality and format.
#[derive(Debug)]
pub struct Image {
    pub host: String,
    pub prefixes: Vec<String>,
    pub identifier: String,
    pub region: Region,
    pub size: Size,
    pub rotation: Rotation,
    pub quality: Quality,
    pub format: Format,
}

impl Image {
    /// Creates an endpoint for the given host, with every request parameter
    /// at its default.  The host must carry the full base URL, scheme
    /// included; prefixes may stand in the host or be set later.
    pub fn new(host: &str) -> (img: Image)
        ensures
            img.host@ == host@,
            img.prefixes@ == Seq::<String>::empty(),
            img.identifier@ == Seq::<char>::empty(),
            img.region == Region::Full,
            img.size == Size::Full,
            img.rotation == Rotation::Normal(0),
            img.quality == Quality::ServerDefault,
            img.format == Format::Jpg,
    {
        Image {
            host: host.to_owned(),
            prefixes: Vec::new(),
            identifier: String::new(),
            region: Region::Full,
            size: Size::Full,
            rotation: Rotation::Normal(0),
            quality: Quality::ServerDefault,
            format: Format::Jpg,
        }
    }

    /// Sets the path prefixes that stand between the host and the
    /// identifier.
    pub fn prefixes(&mut self, prefixes: Vec<&str>)
        ensures
            final(self).prefixes@.len() == prefixes@.len(),
            forall|i: int|
                0 <= i < prefixes@.len() ==> #[trigger] final(self).prefixes@[i]@ == prefixes@[i]@,
            final(self).host == old(self).host,
            final(self).identifier == old(self).identifier,
            final(self).region == old(self).region,
            final(self).size == old(self).size,
            final(self).rotation == old(self).rotation,
            final(self).quality == old(self).quality,
            final(self).format == old(self).format,
    {
        let mut out: Vec<String> = Vec::new();
        let mut i: usize = 0;
        while i < prefixes.len()
            invariant
                i <= prefixes@.len(),
                out@.len() == i,
                forall|j: int| 0 <= j < i ==> #[trigger] out@[j]@ == prefixes@[j]@,
            decreases prefixes@.len() - i,
        {
            out.push(prefixes[i].to_owned());
            i = i + 1;
        }
        self.prefixes = out;
    }

    /// Sets the image identifier for the next request.
    pub fn identifier(&mut self, identifier: &str)
        ensures
            final(self).identifier@ == identifier@,
            final(self).host == old(self).host,
            final(self).prefixes == old(self).prefixes,
            final(self).region == old(self).region,
            final(self).size == old(self).size,
            final(self).rotation == old(self).rotation,
            final(self).quality == old(self).quality,
            final(self).format == old(self).format,
    {
        self.identifier = identifier.to_owned();
    }

    /// Requests the complete image, without any cropping.  This is the
    /// default.
    pub fn full_region(&mut self)
        ensures
            *final(self) == (Image { region: Region::Full, ..*old(self) }),
    {
        self.region = Region::Full;
    }

    /// Requests a square region whose sides equal the shorter dimension of
    /// the image; the server picks its position along the longer dimension.
    pub fn square_region(&mut self)
        ensures
            *final(self) == (Image { region: Region::Square, ..*old(self) }),
    {
        self.region = Region::Square;
    }

    /// Requests the region with upper-left corner `x`,`y` and dimensions
    /// `w` by `h`, all in pixels of the full image.
    pub fn absolute_region(&mut self, x: usize, y: usize, w: usize, h: usize)
        ensures
            *final(self) == (Image { region: Region::Abs(Absolute { x, y, w, h }), ..*old(self) }),
    {
        self.region = Region::Abs(Absolute { x, y, w, h });
    }

    /// Requests the region given as percentages of the full dimensions,
    /// each value held in thousandths of a percent point.
    pub fn pct_region(&mut self, x: u32, y: u32, w: u32, h: u32)
        ensures
            *final(self) == (Image { region: Region::Pct(Percentage { x, y, w, h }), ..*old(self) }),
    {
        self.region = Region::Pct(Percentage { x, y, w, h });
    }

    /// Requests the maximum size the server makes available.
    pub fn max_size(&mut self)
        ensures
            *final(self) == (Image { size: Size::Max, ..*old(self) }),
    {
        self.size = Size::Max;
    }

    /// Requests scaling to the exact width `w`; the height keeps the aspect
    /// ratio.  Use `width_height` to fix both dimensions instead.
    pub fn width(&mut self, w: usize)
        ensures
            *final(self) == (Image { size: Size::Width(w), ..*old(self) }),
    {
        self.size = Size::Width(w);
    }

    /// Requests scaling to the exact height `h`; the width keeps the aspect
    /// ratio.
    pub fn height(&mut self, h: usize)
        ensures
            *final(self) == (Image { size: Size::Height(h), ..*old(self) }),
    {
        self.size = Size::Height(h);
    }

    /// Requests scaling of width and height to `n`% of the extracted
    /// region.
    pub fn pct_size(&mut self, n: u16)
        ensures
            *final(self) == (Image { size: Size::Percent(n), ..*old(self) }),
    {
        self.size = Size::Percent(n);
    }

    /// Requests the exact dimensions `w` by `h`, possibly distorting the
    /// image.
    pub fn width_height(&mut self, w: usize, h: usize)
        ensures
            *final(self) == (Image { size: Size::WidthHeight(w, h), ..*old(self) }),
    {
        self.size = Size::WidthHeight(w, h);
    }

    /// Requests the best fit within `w` by `h`, keeping the aspect ratio.
    pub fn less_than_width_height(&mut self, w: usize, h: usize)
        ensures
            *final(self) == (Image { size: Size::BestFit(w, h), ..*old(self) }),
    {
        self.size = Size::BestFit(w, h);
    }

    /// Mirrors the image on the vertical axis, without rotation.
    pub fn mirrored(&mut self)
        ensures
            *final(self) == (Image { rotation: Rotation::Mirror(0), ..*old(self) }),
    {
        self.rotation = Rotation::Mirror(0);
    }

    /// Rotates the image 90 degrees clockwise.
    pub fn rotate_right(&mut self)
        ensures
            *final(self) == (Image { rotation: Rotation::Normal(90000), ..*old(self) }),
    {
        self.rotation = Rotation::Normal(90000);
    }

    /// Rotates the image 270 degrees clockwise.
    pub fn rotate_left(&mut self)
        ensures
            *final(self) == (Image { rotation: Rotation::Normal(270000), ..*old(self) }),
    {
        self.rotation = Rotation::Normal(270000);
    }

    /// Requests delivery in full color.
    pub fn full_color(&mut self)
        ensures
            *final(self) == (Image { quality: Quality::Color, ..*old(self) }),
    {
        self.quality = Quality::Color;
    }

    /// Requests delivery in grayscale.
    pub fn gray(&mut self)
        ensures
            *final(self) == (Image { quality: Quality::Gray, ..*old(self) }),
    {
        self.quality = Quality::Gray;
    }

    /// Requests delivery in black and white.
    pub fn bitonal(&mut self)
        ensures
            *final(self) == (Image { quality: Quality::Bitonal, ..*old(self) }),
    {
        self.quality = Quality::Bitonal;
    }

    /// Requests the jpg format.
    pub fn jpg(&mut self)
        ensures
            *final(self) == (Image { format: Format::Jpg, ..*old(self) }),
    {
        self.format = Format::Jpg;
    }

    /// Requests the tif format.
    pub fn tif(&mut self)
        ensures
            *final(self) == (Image { format: Format::Tif, ..*old(self) }),
    {
        self.format = Format::Tif;
    }

    /// Requests the png format.
    pub fn png(&mut self)
        ensures
            *final(self) == (Image { format: Format::Png, ..*old(self) }),
    {
        self.format = Format::Png;
    }

    /// Requests the gif format.
    pub fn gif(&mut self)
        ensures
            *final(self) == (Image { format: Format::Gif, ..*old(self) }),
    {
        self.format = Format::Gif;
    }

    /// Requests the jp2 format.
    pub fn jp2(&mut self)
        ensures
            *final(self) == (Image { format: Format::Jp2, ..*old(self) }),
    {
        self.format = Format::Jp2;
    }

    /// Requests the pdf format.
    pub fn pdf(&mut self)
        ensures
            *final(self) == (Image { format: Format::Pdf, ..*old(self) }),
    {
        self.format = Format::Pdf;
    }

    /// Requests the webp format.
    pub fn webp(&mut self)
        ensures
            *final(self) == (Image { format: Format::Webp, ..*old(self) }),
    {
        self.format = Format::Webp;
    }
}

impl Default for Image {
    /// An endpoint with an empty host and every parameter at its default.
    fn default() -> (img: Self)
        ensures
            img.host@ == Seq::<char>::empty(),
            img.prefixes@ == Seq::<String>::empty(),
            img.identifier@ == Seq::<char>::empty(),
            img.region == Region::Full,
            img.size == Size::Full,
            img.rotation == Rotation::Normal(0),
            img.quality == Quality::ServerDefault,
            img.format == Format::Jpg,
    {
        proof {
            reveal_strlit("");
        }
        Image::new("")
    }
}

impl PartialEq for Image {
    fn eq(&self, other: &Image) -> (r: bool) {
        self.host == other.host && crate::utils::strings_eq(&self.prefixes, &other.prefixes)
            && self.identifier == other.identifier && self.region == other.region && self.size
            == other.size && self.rotation == other.rotation && self.quality == other.quality
            && self.format == other.format
    }
}

impl vstd::std_specs::cmp::PartialEqSpecImpl for Image {
    open spec fn obeys_eq_spec() -> bool {
        true
    }

    open spec fn eq_spec(&self, other: &Image) -> bool {
        self.host@ == other.host@ && crate::utils::strings_seq_eq(self.prefixes@, other.prefixes@)
            && self.identifier@ == other.identifier@ && self.region == other.region && self.size
            == other.size && self.rotation == other.rotation && self.quality == other.quality
            && self.format == other.format
    }
}

impl Clone for Image {
    fn clone(&self) -> (r: Self)
        ensures
            r.host@ == self.host@,
            r.prefixes@ == self.prefixes@,
            r.identifier@ == self.identifier@,
            r.region == self.region,
            r.size == self.size,
            r.rotation == self.rotation,
            r.quality == self.quality,
            r.format == self.format,
    {
        Image {
            host: self.host.clone(),
            prefixes: crate::utils::copy_strings(&self.prefixes),
            identifier: self.identifier.clone(),
            region: self.region,
            size: self.size,
            rotation: self.rotation,
            quality: self.quality,
            format: self.format,
        }
    }
}

} // verus!
