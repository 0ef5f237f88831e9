use vstd::prelude::*;
use crate::color::Color;

verus! {

/// Resampling filter used when an image is scaled down.
#[derive(Clone, Copy, Debug, PartialEq, Eq, Structural)]
pub enum ResizeFilterType {
    /// Nearest neighbor
    Nearest,
    /// Linear filter
    Triangle,
    /// Cubic filter
    CatmullRom,
    /// Gaussian filter
    Gaussian,
    /// Lanczos with window 3
    Lanczos3,
}

/// An RGBA image: rows top to bottom, four bytes per pixel.
pub struct Raster {
    pub width: u32,
    pub height: u32,
    pub data: Vec<u8>,
}

/// The color of pixel `i`, counted in row-major order, in raw RGBA bytes.
pub open spec fn pixel_of(data: Seq<u8>, i: int) -> Color {
    Color { r: data[4 * i], g: data[4 * i + 1], b: data[4 * i + 2], a: data[4 * i + 3] }
}

/// Output dimensions after scaling by the tile size: each side divided by it,
/// rounded down, when it is above one; unchanged otherwise.
pub open spec fn target_dims(width: u32, height: u32, tile_size: u32) -> (u32, u32) {
    if tile_size > 1 {
        ((width / tile_size) as u32, (height / tile_size) as u32)
    } else {
        (width, height)
    }
}

/// Whether the filter's weights come from exactly rounded arithmetic alone,
/// so that resampling with it gives the same bytes on every platform.
/// The other filters evaluate `powi`, `exp` or `sin`, whose precision std
/// leaves unspecified.
pub open spec fn is_exact_filter(f: ResizeFilterType) -> bool {
    f == ResizeFilterType::Nearest || f == ResizeFilterType::Triangle
}

/// The RGBA bytes that the image library's resampler produces when it scales
/// `data` (of the first dimensions) to the second dimensions with a filter
/// for which `is_exact_filter` holds.
pub uninterp spec fn resampled(
    data: Seq<u8>,
    width: u32,
    height: u32,
    new_width: u32,
    new_height: u32,
    filter: ResizeFilterType,
) -> Seq<u8>;

/// Whether preprocessing yields the same bytes on every platform: the image
/// is kept, comes out empty, or is resampled with an exact filter.
pub open spec fn preprocess_is_determined(
    width: u32,
    height: u32,
    tile_size: u32,
    filter: ResizeFilterType,
) -> bool {
    let (w, h) = target_dims(width, height, tile_size);
    tile_size <= 1 || w == 0 || h == 0 || is_exact_filter(filter)
}

/// The bytes of the image that preprocessing yields, where
/// `preprocess_is_determined` holds.
pub open spec fn preprocessed_data(
    data: Seq<u8>,
    width: u32,
    height: u32,
    tile_size: u32,
    filter: ResizeFilterType,
) -> Seq<u8> {
    let (w, h) = target_dims(width, height, tile_size);
    if tile_size <= 1 {
        data
    } else if w == 0 || h == 0 {
        Seq::empty()
    } else {
        resampled(data, width, height, w, h, filter)
    }
}

/// Relies on image::imageops::resize (with ImageBuffer::from_raw and
/// into_raw): it scales an RGBA buffer to exactly the requested dimensions;
/// with the nearest or triangle filter the bytes are a function of the
/// pixels, the dimensions and the filter.
#[verifier::external_body]
fn resize_rgba(
    data: &Vec<u8>,
    width: u32,
    height: u32,
    new_width: u32,
    new_height: u32,
    filter: ResizeFilterType,
) -> (r: Vec<u8>)
    requires
        data@.len() == 4 * width * height,
        0 < new_width <= width,
        0 < new_height <= height,
    ensures
        is_exact_filter(filter) ==> r@ == resampled(
            data@,
            width,
            height,
            new_width,
            new_height,
            filter,
        ),
        r@.len() == 4 * new_width * new_height,
{
    let f = match filter {
        ResizeFilterType::Nearest => image::imageops::FilterType::Nearest,
        ResizeFilterType::Triangle => image::imageops::FilterType::Triangle,
        ResizeFilterType::CatmullRom => image::imageops::FilterType::CatmullRom,
        ResizeFilterType::Gaussian => image::imageops::FilterType::Gaussian,
        ResizeFilterType::Lanczos3 => image::imageops::FilterType::Lanczos3,
    };
    let img = image::RgbaImage::from_raw(width, height, data.clone()).unwrap();
    image::imageops::resize(&img, new_width, new_height, f).into_raw()
}

impl Raster {
    /// Holds exactly four bytes for each pixel.
    pub open spec fn wf(&self) -> bool {
        self.data@.len() == 4 * self.width * self.height
    }

    /// An image from its dimensions and RGBA bytes; `None` unless there are
    /// exactly four bytes per pixel.
    pub fn new(width: u32, height: u32, data: Vec<u8>) -> (r: Option<Raster>)
        ensures
            r is Some <==> data@.len() == 4 * width * height,
            r matches Some(img) ==> img.width == width && img.height == height && img.data@
                == data@,
    {
        assert(0 <= width * height <= 0xffff_ffff_ffff_ffff) by (nonlinear_arith)
            requires
                width <= 0xffff_ffff,
                height <= 0xffff_ffff,
        ;
        let n: u64 = width as u64 * height as u64;
        let len = data.len();
        assert(4 * width * height == 4 * n) by (nonlinear_arith)
            requires
                n == width * height,
        ;
        if n > (usize::MAX / 4) as u64 || len != 4 * (n as usize) {
            None
        } else {
            Some(Raster { width, height, data })
        }
    }

    /// The color of pixel `i` in row-major order.
    pub fn pixel(&self, i: usize) -> (c: Color)
        requires
            self.wf(),
            i < self.width * self.height,
        ensures
            c == pixel_of(self.data@, i as int),
    {
        proof {
            let n = self.width * self.height;
            assert(self.data@.len() == 4 * n) by (nonlinear_arith)
                requires
                    self.data@.len() == 4 * self.width * self.height,
                    n == self.width * self.height,
            ;
        }
        let len = self.data.len();
        assert(4 * i + 3 < len);
        let j: usize = 4 * i;
        Color { r: self.data[j], g: self.data[j + 1], b: self.data[j + 2], a: self.data[j + 3] }
    }

    /// Scales the image down by the tile size when it is above one: each side
    /// is divided by it, rounding down, and the pixels are resampled with
    /// `filter`. A tile size of one, or zero, leaves the image as it is.
    /// The resampled bytes are stated for the exact filters only; for the
    /// others the result is a well-formed image of the stated size.
    pub fn preprocess(self, tile_size: u32, filter: ResizeFilterType) -> (r: Raster)
        requires
            self.wf(),
        ensures
            r.wf(),
            (r.width, r.height) == target_dims(self.width, self.height, tile_size),
            preprocess_is_determined(self.width, self.height, tile_size, filter) ==> r.data@
                == preprocessed_data(self.data@, self.width, self.height, tile_size, filter),
    {
        if tile_size <= 1 {
            return self;
        }
        let w = self.width / tile_size;
        let h = self.height / tile_size;
        if w == 0 || h == 0 {
            assert(4 * w * h == 0) by (nonlinear_arith)
                requires
                    w == 0 || h == 0,
            ;
            return Raster { width: w, height: h, data: Vec::new() };
        }
        let data = resize_rgba(&self.data, self.width, self.height, w, h, filter);
        Raster { width: w, height: h, data }
    }
}

/// Scaling by a tile size above one divides each side by it, rounding down;
/// a tile size of one keeps the dimensions.
pub proof fn lemma_resize_dims(width: u32, height: u32, tile_size: u32)
    ensures
        tile_size > 1 ==> target_dims(width, height, tile_size) == ((width / tile_size) as u32, (
        height / tile_size) as u32),
        tile_size == 1 ==> target_dims(width, height, tile_size) == (width, height),
{
}

} // verus!
