//! Dense RGBA images as the widgets read them, and their scaling.
use vstd::prelude::*;
use crate::camera_image_pipe::{Image, PIXEL_SIZE};

verus! {

/// A colour of three 8-bit channels.
#[derive(Clone, Copy, Debug, PartialEq, Eq, Structural)]
pub struct Rgb {
    pub r: u8,
    pub g: u8,
    pub b: u8,
}

/// The four 8-bit channels of one pixel.
#[derive(Clone, Copy, Debug, PartialEq, Eq, Structural)]
pub struct Rgba {
    pub r: u8,
    pub g: u8,
    pub b: u8,
    pub a: u8,
}

/// Why an image cannot be read as RGBA pixels.
#[derive(Clone, Copy, Debug, PartialEq, Eq, Structural)]
pub enum ImageError {
    /// A pixel of the image does not have four bytes.
    UnsupportedPixelSize,
    /// The image holds fewer bytes than its dimensions ask for.
    BufferTooSmall,
}

/// An image of `width` by `height` pixels, four bytes each in the order red,
/// green, blue, alpha, row after row.
#[derive(Debug)]
pub struct RgbaImage {
    pub width: u32,
    pub height: u32,
    pub data: Vec<u8>,
}

/// An RGBA image as the contracts see it: its dimensions and its bytes.
pub struct Pixels {
    pub width: nat,
    pub height: nat,
    pub data: Seq<u8>,
}

impl Pixels {
    /// Whether the bytes cover the pixels exactly.
    pub open spec fn wf(self) -> bool {
        self.data.len() == rgba_len(self.width, self.height)
    }

    /// Pixel `(x, y)`.
    pub open spec fn pixel(self, x: nat, y: nat) -> Rgba
        recommends
            self.wf(),
            x < self.width,
            y < self.height,
    {
        pixel_of(self.data, self.width, x, y)
    }

    /// The image that `image::DynamicImage::resize` makes of this one for
    /// the bounds `nwidth`, `nheight` and the filter `Nearest`.
    pub open spec fn resized(self, nwidth: u32, nheight: u32) -> Pixels
        recommends
            self.width <= u32::MAX,
            self.height <= u32::MAX,
    {
        let scaled = resized_nearest(
            self.width as u32,
            self.height as u32,
            self.data,
            nwidth,
            nheight,
        );
        Pixels { width: scaled.0 as nat, height: scaled.1 as nat, data: scaled.2 }
    }
}

impl View for RgbaImage {
    type V = Pixels;

    open spec fn view(&self) -> Pixels {
        Pixels { width: self.width as nat, height: self.height as nat, data: self.data@ }
    }
}

/// The number of bytes of `width * height` RGBA pixels.
pub open spec fn rgba_len(width: nat, height: nat) -> nat {
    width * height * 4
}

/// The place in the byte sequence of channel 0 of pixel `(x, y)`.
pub open spec fn pixel_offset(width: nat, x: nat, y: nat) -> nat {
    (y * width + x) * 4
}

/// Pixel `(x, y)` of a sequence of RGBA bytes that holds rows of `width`
/// pixels.
pub open spec fn pixel_of(data: Seq<u8>, width: nat, x: nat, y: nat) -> Rgba {
    let at = pixel_offset(width, x, y) as int;
    Rgba { r: data[at], g: data[at + 1], b: data[at + 2], a: data[at + 3] }
}

/// The place of a pixel inside the image lies inside the image's bytes.
pub proof fn lemma_pixel_offset_in_bounds(width: nat, height: nat, x: nat, y: nat)
    requires
        x < width,
        y < height,
    ensures
        pixel_offset(width, x, y) + 4 <= rgba_len(width, height),
{
    assert((y * width + x) * 4 + 4 <= width * height * 4) by (nonlinear_arith)
        requires
            x < width,
            y < height,
    ;
}

/// What `image::DynamicImage::resize` with the filter `Nearest` returns for
/// an RGBA image of `width` by `height` pixels with the bytes `data` and the
/// bounds `nwidth` and `nheight`: the width, the height and the bytes of the
/// scaled image.
pub uninterp spec fn resized_nearest(
    width: u32,
    height: u32,
    data: Seq<u8>,
    nwidth: u32,
    nheight: u32,
) -> (u32, u32, Seq<u8>);

/// The larger of a bound and one: scaling to a bound of zero gives one pixel.
pub open spec fn at_least_one(bound: u32) -> u32 {
    if bound == 0 {
        1
    } else {
        bound
    }
}

/// Whether the buffers that scaling an image `width` pixels wide to the
/// bounds `nwidth`, `nheight` allocates fit the address space: the result,
/// and rows of the old width at the new height with 16 bytes per pixel.
pub open spec fn resize_fits(width: u32, nwidth: u32, nheight: u32) -> bool {
    &&& width as nat * at_least_one(nheight) as nat * 16 <= isize::MAX
    &&& at_least_one(nwidth) as nat * at_least_one(nheight) as nat * 16 <= isize::MAX
}

impl RgbaImage {
    /// Whether the bytes cover the pixels exactly.
    pub open spec fn wf(self) -> bool {
        self@.wf()
    }

    /// Makes an image of bytes that cover `width * height` pixels exactly;
    /// other byte vectors give `None`.
    pub fn from_raw(width: u32, height: u32, data: Vec<u8>) -> (image: Option<RgbaImage>)
        ensures
            image.is_some() <==> data@.len() == rgba_len(width as nat, height as nat),
            image.is_some() ==> image.unwrap().wf() && image.unwrap().width == width
                && image.unwrap().height == height && image.unwrap().data@ == data@,
    {
        proof {
            assert(width * height <= 0xffff_ffff * 0xffff_ffff) by (nonlinear_arith)
                requires
                    width <= 0xffff_ffff,
                    height <= 0xffff_ffff,
            ;
        }
        let pixels: u64 = (width as u64) * (height as u64);
        let needed: u128 = (pixels as u128) * 4;
        if data.len() as u128 == needed {
            Some(RgbaImage { width, height, data })
        } else {
            None
        }
    }

    /// Tells whether the bytes cover the pixels exactly.
    pub fn is_well_formed(&self) -> (well_formed: bool)
        ensures
            well_formed == self.wf(),
    {
        proof {
            assert(self.width * self.height <= 0xffff_ffff * 0xffff_ffff) by (nonlinear_arith)
                requires
                    self.width <= 0xffff_ffff,
                    self.height <= 0xffff_ffff,
            ;
        }
        let needed: u128 = ((self.width as u64) * (self.height as u64)) as u128 * 4;
        self.data.len() as u128 == needed
    }

    /// Reads pixel `(x, y)`.
    pub fn get_pixel(&self, x: u32, y: u32) -> (pixel: Rgba)
        requires
            self.wf(),
            x < self.width,
            y < self.height,
        ensures
            pixel == self@.pixel(x as nat, y as nat),
    {
        proof {
            lemma_pixel_offset_in_bounds(
                self.width as nat,
                self.height as nat,
                x as nat,
                y as nat,
            );
            assert(0 <= y * self.width && (y * self.width + x) * 4 + 4 <= self.width * self.height
                * 4) by (nonlinear_arith)
                requires
                    x < self.width,
                    y < self.height,
            ;
        }
        let len: usize = self.data.len();
        assert((y * self.width + x) * 4 + 4 <= len);
        let at: usize = ((y as usize) * (self.width as usize) + (x as usize)) * 4;
        Rgba { r: self.data[at], g: self.data[at + 1], b: self.data[at + 2], a: self.data[at + 3] }
    }

    /// Scales the image, keeping its aspect ratio, to the largest size that
    /// fits into `nwidth` by `nheight` pixels, by nearest-neighbour sampling.
    /// A bound of zero counts as one. Bounds that are the image's own
    /// dimensions give a copy.
    pub fn resize_exact_fit(&self, nwidth: u32, nheight: u32) -> (scaled: RgbaImage)
        requires
            self.wf(),
            resize_fits(self.width, nwidth, nheight),
        ensures
            scaled.wf(),
            scaled@ == self@.resized(nwidth, nheight),
            scaled.width <= at_least_one(nwidth),
            scaled.height <= at_least_one(nheight),
            nwidth == self.width && nheight == self.height ==> scaled@ == self@,
    {
        let (width, height, data) = resize_nearest(
            self.width,
            self.height,
            &self.data,
            nwidth,
            nheight,
        );
        RgbaImage { width, height, data }
    }

    /// Scales the image as `resize_exact_fit` does, or returns `None` where
    /// the scaled image would not fit the address space.
    pub fn resize(&self, nwidth: u32, nheight: u32) -> (scaled: Option<RgbaImage>)
        requires
            self.wf(),
        ensures
            scaled.is_some() <==> resize_fits(self.width, nwidth, nheight),
            scaled.is_some() ==> {
                let image = scaled.unwrap();
                &&& image.wf()
                &&& image@ == self@.resized(nwidth, nheight)
                &&& image.width <= at_least_one(nwidth)
                &&& image.height <= at_least_one(nheight)
                &&& nwidth == self.width && nheight == self.height ==> image@ == self@
            },
    {
        let bound_w: u128 = if nwidth == 0 {
            1
        } else {
            nwidth as u128
        };
        let bound_h: u128 = if nheight == 0 {
            1
        } else {
            nheight as u128
        };
        proof {
            assert(self.width * bound_h * 16 <= 0xffff_ffff * 0xffff_ffff * 16) by (nonlinear_arith)
                requires
                    self.width <= 0xffff_ffff,
                    0 <= bound_h <= 0xffff_ffff,
            ;
            assert(bound_w * bound_h * 16 <= 0xffff_ffff * 0xffff_ffff * 16) by (nonlinear_arith)
                requires
                    0 <= bound_w <= 0xffff_ffff,
                    0 <= bound_h <= 0xffff_ffff,
            ;
        }
        let limit: u128 = isize::MAX as u128;
        if (self.width as u128) * bound_h * 16 <= limit && bound_w * bound_h * 16 <= limit {
            Some(self.resize_exact_fit(nwidth, nheight))
        } else {
            None
        }
    }
}

/// Calls `image::DynamicImage::resize` with the filter `Nearest` on an RGBA
/// image built by `image::ImageBuffer::from_raw`, and hands out the result's
/// dimensions and bytes.
///
/// The contract names the result and claims of it what the source shows: the
/// new dimensions fit into the bounds (into one where a bound is zero), the
/// bytes cover the new dimensions exactly, and where the bounds are the
/// image's own dimensions the result is a copy. The call is left out where the
/// source buffer does not cover its dimensions, and where the result or the
/// intermediate image (rows of the old width at the new height, 16 bytes per
/// pixel) exceeds the address space, since the outside code panics there.
#[verifier::external_body]
fn resize_nearest(width: u32, height: u32, data: &Vec<u8>, nwidth: u32, nheight: u32) -> (out: (
    u32,
    u32,
    Vec<u8>,
))
    requires
        data@.len() == rgba_len(width as nat, height as nat),
        resize_fits(width, nwidth, nheight),
    ensures
        (out.0, out.1, out.2@) == resized_nearest(width, height, data@, nwidth, nheight),
        out.2@.len() == rgba_len(out.0 as nat, out.1 as nat),
        out.0 <= at_least_one(nwidth),
        out.1 <= at_least_one(nheight),
        nwidth == width && nheight == height ==> out.0 == width && out.1 == height && out.2@
            == data@,
{
    let source = image::RgbaImage::from_raw(width, height, data.clone()).unwrap();
    let scaled = image::DynamicImage::ImageRgba8(source)
        .resize(nwidth, nheight, image::imageops::FilterType::Nearest)
        .into_rgba8();
    (scaled.width(), scaled.height(), scaled.into_raw())
}

/// What an image of the pipe is when read as RGBA pixels. The image must
/// have four bytes per pixel and at least as many bytes as its dimensions
/// ask for; bytes beyond those do not count.
pub open spec fn as_rgba(image: Image) -> Result<Pixels, ImageError> {
    let len = rgba_len(image.width as nat, image.height as nat);
    if image.pixel_size != PIXEL_SIZE {
        Err(ImageError::UnsupportedPixelSize)
    } else if image.data@.len() < len {
        Err(ImageError::BufferTooSmall)
    } else {
        Ok(
            Pixels {
                width: image.width as nat,
                height: image.height as nat,
                data: image.data@.subrange(0, len as int),
            },
        )
    }
}

/// What the result of reading an image shows to the contracts.
pub open spec fn pixels_result(result: Result<RgbaImage, ImageError>) -> Result<
    Pixels,
    ImageError,
> {
    match result {
        Ok(image) => Ok(image@),
        Err(error) => Err(error),
    }
}

/// Reads an image of the pipe as RGBA pixels.
pub fn try_into_dynamic(image: Image) -> (result: Result<RgbaImage, ImageError>)
    ensures
        pixels_result(result) == as_rgba(image),
        result.is_ok() ==> result.unwrap().wf(),
{
    if image.pixel_size != PIXEL_SIZE {
        return Err(ImageError::UnsupportedPixelSize);
    }
    proof {
        assert(image.width * image.height <= 0xffff_ffff * 0xffff_ffff) by (nonlinear_arith)
            requires
                image.width <= 0xffff_ffff,
                image.height <= 0xffff_ffff,
        ;
    }
    let needed: u128 = ((image.width as u64) * (image.height as u64)) as u128 * 4;
    if (image.data.len() as u128) < needed {
        return Err(ImageError::BufferTooSmall);
    }
    let width: u32 = image.width;
    let height: u32 = image.height;
    let mut data = image.data;
    data.truncate(needed as usize);
    Ok(RgbaImage { width, height, data })
}

} // verus!
