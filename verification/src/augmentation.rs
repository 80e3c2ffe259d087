//! Camera-filter augmentation: the filter catalogue and the integer pixel filters.
use vstd::prelude::*;
use rand::Rng;
use crate::pixels::{PixelImage, raster_len};

verus! {

/// Camera filter kinds applied to the main image during training.
#[derive(Debug, Clone, Copy, PartialEq, Eq, Structural)]
pub enum CameraFilter {
    Original,
    Warm,
    Cool,
    Vivid,
    Fade,
    Mono,
    Noir,
    Chrome,
    Sepia,
    ToyCamera,
    Grain,
    SoftFocus,
    Underexpose,
    Overexpose,
    Invert,
    Posterize,
}

/// The catalogue of filters, in declaration order.
pub open spec fn filter_catalogue() -> Seq<CameraFilter> {
    seq![
        CameraFilter::Original,
        CameraFilter::Warm,
        CameraFilter::Cool,
        CameraFilter::Vivid,
        CameraFilter::Fade,
        CameraFilter::Mono,
        CameraFilter::Noir,
        CameraFilter::Chrome,
        CameraFilter::Sepia,
        CameraFilter::ToyCamera,
        CameraFilter::Grain,
        CameraFilter::SoftFocus,
        CameraFilter::Underexpose,
        CameraFilter::Overexpose,
        CameraFilter::Invert,
        CameraFilter::Posterize,
    ]
}

impl CameraFilter {
    /// All filters, in declaration order.
    pub fn all() -> (r: &'static [CameraFilter])
        ensures
            r@ == filter_catalogue(),
    {
        let r: &'static [CameraFilter] = &[
            CameraFilter::Original,
            CameraFilter::Warm,
            CameraFilter::Cool,
            CameraFilter::Vivid,
            CameraFilter::Fade,
            CameraFilter::Mono,
            CameraFilter::Noir,
            CameraFilter::Chrome,
            CameraFilter::Sepia,
            CameraFilter::ToyCamera,
            CameraFilter::Grain,
            CameraFilter::SoftFocus,
            CameraFilter::Underexpose,
            CameraFilter::Overexpose,
            CameraFilter::Invert,
            CameraFilter::Posterize,
        ];
        r
    }
}

/// The catalogue holds every filter, and each exactly once.
pub proof fn lemma_catalogue_complete_and_distinct()
    ensures
        filter_catalogue().len() == 16,
        forall|f: CameraFilter| #[trigger] filter_catalogue().contains(f),
        forall|i: int, j: int|
            0 <= i < j < 16 ==> filter_catalogue()[i] != filter_catalogue()[j],
{
    let s = filter_catalogue();
    assert forall|f: CameraFilter| #[trigger] s.contains(f) by {
        let i: int = match f {
            CameraFilter::Original => 0,
            CameraFilter::Warm => 1,
            CameraFilter::Cool => 2,
            CameraFilter::Vivid => 3,
            CameraFilter::Fade => 4,
            CameraFilter::Mono => 5,
            CameraFilter::Noir => 6,
            CameraFilter::Chrome => 7,
            CameraFilter::Sepia => 8,
            CameraFilter::ToyCamera => 9,
            CameraFilter::Grain => 10,
            CameraFilter::SoftFocus => 11,
            CameraFilter::Underexpose => 12,
            CameraFilter::Overexpose => 13,
            CameraFilter::Invert => 14,
            CameraFilter::Posterize => 15,
        };
        assert(s[i] == f);
    }
}

/// The light filter stacked on a random filter, picked by `k`: Grain, SoftFocus, Vivid, and
/// Fade for every other value.
pub open spec fn light_filter(k: u32) -> CameraFilter {
    if k == 0 {
        CameraFilter::Grain
    } else if k == 1 {
        CameraFilter::SoftFocus
    } else if k == 2 {
        CameraFilter::Vivid
    } else {
        CameraFilter::Fade
    }
}

/// The filters of a random augmentation, given the draws: `primary` picks a filter of the
/// catalogue, and when `stack` is set, `secondary` picks the light filter applied after it.
pub fn random_filter_plan(primary: usize, stack: bool, secondary: u32) -> (r: (
    CameraFilter,
    Option<CameraFilter>,
))
    requires
        primary < 16,
    ensures
        r.0 == filter_catalogue()[primary as int],
        r.1 == if stack {
            Some(light_filter(secondary))
        } else {
            None::<CameraFilter>
        },
{
    let all = CameraFilter::all();
    let first = all[primary];
    let second = if stack {
        Some(
            match secondary {
                0 => CameraFilter::Grain,
                1 => CameraFilter::SoftFocus,
                2 => CameraFilter::Vivid,
                _ => CameraFilter::Fade,
            },
        )
    } else {
        None
    };
    (first, second)
}

/// `v`, saturated to the `u8` range.
pub open spec fn clamp_u8(v: int) -> u8 {
    if v < 0 {
        0
    } else if v > 255 {
        255
    } else {
        v as u8
    }
}

/// Warm tone: red +15, green +5, blue −10, each saturating.
pub open spec fn warm_channel(c: int, v: u8) -> u8 {
    if c == 0 {
        clamp_u8(v + 15)
    } else if c == 1 {
        clamp_u8(v + 5)
    } else {
        clamp_u8(v - 10)
    }
}

/// Cool tone: red −10, green −5, blue +15, each saturating.
pub open spec fn cool_channel(c: int, v: u8) -> u8 {
    if c == 0 {
        clamp_u8(v - 10)
    } else if c == 1 {
        clamp_u8(v - 5)
    } else {
        clamp_u8(v + 15)
    }
}

/// Byte `i` of a raster lies in channel `i % 3`.
pub open spec fn warmed(src: Seq<u8>) -> Seq<u8> {
    Seq::new(src.len(), |i: int| warm_channel(i % 3, src[i]))
}

pub open spec fn cooled(src: Seq<u8>) -> Seq<u8> {
    Seq::new(src.len(), |i: int| cool_channel(i % 3, src[i]))
}

/// Every channel of pixel `i / 3` moved by that pixel's noise, clamped to 0..=255.
pub open spec fn grained(src: Seq<u8>, noise: Seq<i16>) -> Seq<u8> {
    Seq::new(src.len(), |i: int| clamp_u8(src[i] + noise[i / 3]))
}

/// Every channel replaced by its complement.
pub open spec fn inverted(src: Seq<u8>) -> Seq<u8> {
    Seq::new(src.len(), |i: int| (255 - src[i]) as u8)
}

/// Warm tone: shifts the colour temperature toward red and yellow.
pub fn warm(img: &PixelImage) -> (out: PixelImage)
    requires
        img.wf(),
    ensures
        out.wf(),
        out.spec_width() == img.spec_width(),
        out.spec_height() == img.spec_height(),
        out@ == warmed(img@),
{
    let src = img.as_raw();
    let n: usize = src.len();
    let mut data: Vec<u8> = Vec::new();
    for i in 0..n
        invariant
            n == src@.len(),
            src@ == img@,
            data@.len() == i,
            forall|k: int| 0 <= k < i ==> data@[k] == warm_channel(k % 3, src@[k]),
    {
        let v: u8 = src[i];
        let c: usize = i % 3;
        let w: u8 = if c == 0 {
            v.saturating_add(15)
        } else if c == 1 {
            v.saturating_add(5)
        } else {
            v.saturating_sub(10)
        };
        data.push(w);
    }
    proof {
        img.lemma_len();
        assert(data@ =~= warmed(img@));
    }
    PixelImage::from_parts(img.width(), img.height(), data)
}

/// Cool tone: shifts the colour temperature toward blue.
pub fn cool(img: &PixelImage) -> (out: PixelImage)
    requires
        img.wf(),
    ensures
        out.wf(),
        out.spec_width() == img.spec_width(),
        out.spec_height() == img.spec_height(),
        out@ == cooled(img@),
{
    let src = img.as_raw();
    let n: usize = src.len();
    let mut data: Vec<u8> = Vec::new();
    for i in 0..n
        invariant
            n == src@.len(),
            src@ == img@,
            data@.len() == i,
            forall|k: int| 0 <= k < i ==> data@[k] == cool_channel(k % 3, src@[k]),
    {
        let v: u8 = src[i];
        let c: usize = i % 3;
        let w: u8 = if c == 0 {
            v.saturating_sub(10)
        } else if c == 1 {
            v.saturating_sub(5)
        } else {
            v.saturating_add(15)
        };
        data.push(w);
    }
    proof {
        img.lemma_len();
        assert(data@ =~= cooled(img@));
    }
    PixelImage::from_parts(img.width(), img.height(), data)
}

/// Film grain with the given per-pixel noise: each of the three channels of a pixel is moved
/// by that pixel's noise value and clamped to 0..=255.
pub fn grain_with_noise(img: &PixelImage, noise: &Vec<i16>) -> (out: PixelImage)
    requires
        img.wf(),
        noise@.len() == img.spec_width() as int * img.spec_height() as int,
    ensures
        out.wf(),
        out.spec_width() == img.spec_width(),
        out.spec_height() == img.spec_height(),
        out@ == grained(img@, noise@),
{
    let src = img.as_raw();
    let n: usize = src.len();
    proof {
        img.lemma_len();
    }
    let mut data: Vec<u8> = Vec::new();
    for i in 0..n
        invariant
            n == src@.len(),
            src@ == img@,
            n == noise@.len() * 3,
            data@.len() == i,
            forall|k: int| 0 <= k < i ==> data@[k] == clamp_u8(src@[k] + noise@[k / 3]),
    {
        let v: i32 = src[i] as i32;
        let d: i32 = noise[i / 3] as i32;
        let s: i32 = v + d;
        let w: u8 = if s < 0 {
            0
        } else if s > 255 {
            255
        } else {
            s as u8
        };
        data.push(w);
    }
    proof {
        assert(data@ =~= grained(img@, noise@));
    }
    PixelImage::from_parts(img.width(), img.height(), data)
}

/// A uniformly drawn integer in `lo..=hi` from the thread-local generator.
///
/// Trusted: calls `rand::thread_rng().gen_range(lo..=hi)`, which returns a value of the
/// inclusive range (and panics only on an empty range, which `requires` rules out). Which
/// value comes back depends on the generator and is not stated.
#[verifier::external_body]
fn random_in_range(lo: i16, hi: i16) -> (n: i16)
    requires
        lo <= hi,
    ensures
        lo <= n <= hi,
{
    rand::thread_rng().gen_range(lo..=hi)
}

/// Film grain: every pixel gets its own random offset in −15..=15, applied to all three
/// channels and clamped.
pub fn grain(img: &PixelImage) -> (out: PixelImage)
    requires
        img.wf(),
    ensures
        out.wf(),
        out.spec_width() == img.spec_width(),
        out.spec_height() == img.spec_height(),
        exists|noise: Seq<i16>|
            #![trigger grained(img@, noise)]
            noise.len() == img.spec_width() as int * img.spec_height() as int && (forall|j: int|
                0 <= j < noise.len() ==> -15 <= #[trigger] noise[j] <= 15) && out@ == grained(
                img@,
                noise,
            ),
{
    proof {
        img.lemma_len();
    }
    let pixels: usize = img.as_raw().len() / 3;
    let mut noise: Vec<i16> = Vec::new();
    for _i in 0..pixels
        invariant
            noise@.len() == _i,
            forall|j: int| 0 <= j < noise@.len() ==> -15 <= #[trigger] noise@[j] <= 15,
    {
        let d: i16 = random_in_range(-15, 15);
        noise.push(d);
    }
    let out = grain_with_noise(img, &noise);
    proof {
        assert(noise@.len() == img.spec_width() as int * img.spec_height() as int);
    }
    out
}

/// Inverts every channel of an RGB raster in place, through the `image` crate.
///
/// Trusted: wraps the buffer with `image::RgbImage::from_raw` (which succeeds because the
/// length is exactly `width * height * 3`), calls `image::imageops::invert`, and returns the
/// buffer. The source of `invert` for `Rgb<u8>` replaces each channel `v` with `255 - v`.
#[verifier::external_body]
fn invert_raster(width: u32, height: u32, data: Vec<u8>) -> (r: Vec<u8>)
    requires
        data@.len() == raster_len(width, height),
    ensures
        r@ == inverted(data@),
{
    let mut buf = image::RgbImage::from_raw(width, height, data).unwrap();
    image::imageops::invert(&mut buf);
    buf.into_raw()
}

/// Colour inversion.
pub fn invert(img: &PixelImage) -> (out: PixelImage)
    requires
        img.wf(),
    ensures
        out.wf(),
        out.spec_width() == img.spec_width(),
        out.spec_height() == img.spec_height(),
        out@ == inverted(img@),
{
    proof {
        img.lemma_len();
    }
    let data = invert_raster(img.width(), img.height(), img.as_raw().clone());
    PixelImage::from_parts(img.width(), img.height(), data)
}

/// The sRGB luminance the `image` crate gives a pixel: `(2126 r + 7152 g + 722 b) / 10000`.
pub open spec fn luma_of(r: u8, g: u8, b: u8) -> u8 {
    ((2126 * r + 7152 * g + 722 * b) / 10000) as u8
}

/// One luminance byte per pixel of an RGB raster.
pub open spec fn luma_values(src: Seq<u8>) -> Seq<u8> {
    Seq::new(src.len() / 3, |p: int| luma_of(src[3 * p], src[3 * p + 1], src[3 * p + 2]))
}

/// Each grey value repeated in the three channels of its pixel.
pub open spec fn expanded_luma(luma: Seq<u8>) -> Seq<u8> {
    Seq::new(luma.len() * 3, |i: int| luma[i / 3])
}

/// Every pixel replaced by three copies of its luminance.
pub open spec fn greyed(src: Seq<u8>) -> Seq<u8> {
    Seq::new(
        src.len(),
        |i: int| luma_of(src[3 * (i / 3)], src[3 * (i / 3) + 1], src[3 * (i / 3) + 2]),
    )
}

/// Converts an RGB raster to grey through the `image` crate.
///
/// Trusted: wraps the buffer with `image::RgbImage::from_raw` (which succeeds for a buffer of
/// exactly `width * height * 3` bytes), calls `image::imageops::grayscale` and returns its
/// buffer. In the source, each pixel becomes `Luma::from_color` of it, which computes
/// `(2126 r + 7152 g + 722 b) / 10000` in `u32` and clamps it to 255 (a bound the sum never
/// passes); pixels keep their row-major order.
#[verifier::external_body]
fn grayscale_raster(width: u32, height: u32, data: Vec<u8>) -> (r: Vec<u8>)
    requires
        data@.len() == raster_len(width, height),
    ensures
        r@ == luma_values(data@),
{
    let buf = image::RgbImage::from_raw(width, height, data).unwrap();
    image::imageops::grayscale(&buf).into_raw()
}

/// Expands a grey raster back to RGB through the `image` crate.
///
/// Trusted: wraps the buffer with `image::GrayImage::from_raw` (one byte per pixel, so it
/// succeeds), calls `DynamicImage::to_rgb8` on `DynamicImage::ImageLuma8` of it and returns
/// the bytes. In the source the grey-to-RGB cast takes the floating-point path of
/// `cast_pixels_by_fallback`: `expand_luma_rgb` writes the value `l / 255` into all three
/// channels, and `clamp_rgb` turns each back with `round(v * 255)`, which gives `l` again for
/// every byte `l`. Pixels keep their order.
#[verifier::external_body]
fn luma_to_rgb_raster(width: u32, height: u32, luma: Vec<u8>) -> (r: Vec<u8>)
    requires
        luma@.len() == width as int * height as int,
    ensures
        r@ == expanded_luma(luma@),
{
    let gray = image::GrayImage::from_raw(width, height, luma).unwrap();
    image::DynamicImage::ImageLuma8(gray).to_rgb8().into_raw()
}

/// Black and white: every pixel replaced by its luminance in all three channels.
pub fn mono(img: &PixelImage) -> (out: PixelImage)
    requires
        img.wf(),
    ensures
        out.wf(),
        out.spec_width() == img.spec_width(),
        out.spec_height() == img.spec_height(),
        out@ == greyed(img@),
{
    proof {
        img.lemma_len();
    }
    let gray = grayscale_raster(img.width(), img.height(), img.as_raw().clone());
    let data = luma_to_rgb_raster(img.width(), img.height(), gray);
    proof {
        let src = img@;
        assert(src.len() % 3 == 0);
        assert forall|i: int| 0 <= i < src.len() implies #[trigger] data@[i] == greyed(src)[i] by {
            assert(0 <= i / 3 < src.len() / 3);
            assert(3 * (i / 3) + 2 < src.len());
        }
        assert(data@ =~= greyed(src));
    }
    PixelImage::from_parts(img.width(), img.height(), data)
}

/// A black-and-white image is grey: the three channels of every pixel are equal.
pub proof fn lemma_mono_grey(src: Seq<u8>, p: int)
    requires
        src.len() % 3 == 0,
        0 <= p,
        3 * p + 2 < src.len(),
    ensures
        greyed(src)[3 * p] == greyed(src)[3 * p + 1],
        greyed(src)[3 * p + 1] == greyed(src)[3 * p + 2],
{
    assert((3 * p) / 3 == p);
    assert((3 * p + 1) / 3 == p);
    assert((3 * p + 2) / 3 == p);
}

/// Inverting twice gives back the raster it started from.
pub proof fn lemma_invert_involution(src: Seq<u8>)
    ensures
        inverted(inverted(src)) == src,
{
    assert(inverted(inverted(src)) =~= src);
}

/// Warm never lowers red or green and never raises blue; cool does the opposite.
pub proof fn lemma_tone_shifts(v: u8)
    ensures
        warm_channel(0, v) >= v,
        warm_channel(1, v) >= v,
        warm_channel(2, v) <= v,
        cool_channel(0, v) <= v,
        cool_channel(1, v) <= v,
        cool_channel(2, v) >= v,
{
}

/// Grain moves no channel by more than the largest noise magnitude.
pub proof fn lemma_grain_bounded(src: Seq<u8>, noise: Seq<i16>, i: int)
    requires
        0 <= i < src.len(),
        src.len() == noise.len() * 3,
        forall|j: int| 0 <= j < noise.len() ==> -15 <= #[trigger] noise[j] <= 15,
    ensures
        src[i] - 15 <= grained(src, noise)[i] <= src[i] + 15,
{
    assert(0 <= i / 3 < noise.len());
    assert(-15 <= noise[i / 3] <= 15);
}

} // verus!
