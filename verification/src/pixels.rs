use vstd::prelude::*;

verus! {

/// The layout of one pixel.
#[derive(Clone, Copy, Debug, PartialEq, Eq, Structural, Hash)]
pub enum PixelFormat {
    /// Red, green, blue and alpha, one byte each.
    Rgba8,
    /// A single coverage byte.
    Alpha8,
}

/// The bytes that one pixel of the format takes.
pub open spec fn bytes_per_pixel(format: PixelFormat) -> nat {
    match format {
        PixelFormat::Rgba8 => 4,
        PixelFormat::Alpha8 => 1,
    }
}

/// The data of an image does not fit its size and format.
#[derive(Clone, Copy, Debug, PartialEq, Eq, Structural, Hash)]
pub struct PixelImageError;

/// A width × height raster stored row by row.
#[derive(Clone, Debug, PartialEq, Eq, Hash)]
pub struct PixelImage {
    width: u32,
    height: u32,
    format: PixelFormat,
    data: Vec<u8>,
}

/// The state of a pixel image as contracts see it.
pub struct PixelImageView {
    pub width: nat,
    pub height: nat,
    pub format: PixelFormat,
    pub data: Seq<u8>,
}

impl View for PixelImage {
    type V = PixelImageView;

    closed spec fn view(&self) -> PixelImageView {
        PixelImageView {
            width: self.width as nat,
            height: self.height as nat,
            format: self.format,
            data: self.data@,
        }
    }
}

impl PixelImage {
    /// An RGBA image of the given size from data of the right length.
    pub(crate) fn rgba8(width: u32, height: u32, data: Vec<u8>) -> (image: Self)
        requires
            data@.len() == width as nat * height as nat * 4,
        ensures
            image@ == (PixelImageView {
                width: width as nat,
                height: height as nat,
                format: PixelFormat::Rgba8,
                data: data@,
            }),
    {
        PixelImage { width, height, format: PixelFormat::Rgba8, data }
    }

    /// An image of the given size and format; the data must hold exactly one pixel's
    /// bytes for each of the width × height pixels.
    pub fn new(width: u32, height: u32, format: PixelFormat, data: Vec<u8>) -> (result: Result<
        Self,
        PixelImageError,
    >)
        ensures
            result is Ok <==> data@.len() == width as nat * height as nat * bytes_per_pixel(
                format,
            ),
            result matches Ok(image) ==> image@ == (PixelImageView {
                width: width as nat,
                height: height as nat,
                format,
                data: data@,
            }),
    {
        let per: u64 = match format {
            PixelFormat::Rgba8 => 4,
            PixelFormat::Alpha8 => 1,
        };
        let w = width as u64;
        let h = height as u64;
        proof {
            assert(w * h <= 0xffff_ffff * 0xffff_ffff) by (nonlinear_arith)
                requires
                    w <= 0xffff_ffff,
                    h <= 0xffff_ffff,
            ;
        }
        let pixels: u64 = w * h;
        let ok = match pixels.checked_mul(per) {
            Some(expected) => data.len() as u64 == expected,
            None => {
                let n = data.len();
                assert(n as int <= usize::MAX);
                false
            },
        };
        if ok {
            Ok(PixelImage { width, height, format, data })
        } else {
            Err(PixelImageError)
        }
    }

    pub fn width(&self) -> (w: u32)
        ensures
            w as nat == self@.width,
    {
        self.width
    }

    pub fn height(&self) -> (h: u32)
        ensures
            h as nat == self@.height,
    {
        self.height
    }

    pub fn format(&self) -> (f: PixelFormat)
        ensures
            f == self@.format,
    {
        self.format
    }

    /// The bytes, one pixel's worth for each pixel, row by row.
    pub fn data(&self) -> (d: &[u8])
        ensures
            d@ == self@.data,
    {
        self.data.as_slice()
    }
}

} // verus!
