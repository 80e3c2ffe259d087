//! An 8-bit RGB raster laid out as the `image` crate lays out an `RgbImage`:
//! rows top to bottom, pixels left to right, three bytes (R, G, B) per pixel.
use vstd::prelude::*;

verus! {

/// Number of bytes a `width` × `height` RGB raster occupies.
pub open spec fn raster_len(width: u32, height: u32) -> int {
    width as int * height as int * 3
}

/// Byte offset of channel `c` of pixel (`x`, `y`) in a raster `width` pixels wide.
pub open spec fn channel_offset(width: u32, x: u32, y: u32, c: int) -> int {
    (y as int * width as int + x as int) * 3 + c
}

pub proof fn lemma_offset_in_bounds(width: u32, height: u32, x: u32, y: u32, c: int)
    requires
        x < width,
        y < height,
        0 <= c < 3,
    ensures
        0 <= channel_offset(width, x, y, c) < raster_len(width, height),
        channel_offset(width, x, y, c) % 3 == c,
        channel_offset(width, x, y, c) / 3 == y as int * width as int + x as int,
{
    assert(y as int * width as int + (x as int) < width as int * height as int) by (nonlinear_arith)
        requires
            x < width,
            y < height,
    ;
    assert(0 <= y as int * width as int) by (nonlinear_arith);
}

/// Byte `k` of a raster `width` pixels wide lies in channel `k % 3` of pixel
/// (`(k / 3) % width`, `(k / 3) / width`).
pub proof fn lemma_position(width: u32, height: u32, k: int)
    requires
        width > 0,
        0 <= k < raster_len(width, height),
    ensures
        0 <= (k / 3) % (width as int) < width,
        0 <= (k / 3) / (width as int) < height,
        0 <= k % 3 < 3,
        k == channel_offset(
            width,
            ((k / 3) % (width as int)) as u32,
            ((k / 3) / (width as int)) as u32,
            k % 3,
        ),
{
    let p = k / 3;
    let w = width as int;
    assert(0 <= p < w * height as int) by (nonlinear_arith)
        requires
            p == k / 3,
            0 <= k < w * height as int * 3,
    ;
    vstd::arithmetic::div_mod::lemma_fundamental_div_mod(p, w);
    assert(p / w < height as int) by (nonlinear_arith)
        requires
            0 <= p < w * height as int,
            w > 0,
            p == w * (p / w) + p % w,
            0 <= p % w,
    ;
    assert(0 <= p / w) by (nonlinear_arith)
        requires
            0 <= p,
            w > 0,
    ;
    assert((p / w) * w == w * (p / w)) by (nonlinear_arith);
    assert(k == 3 * p + k % 3);
    let a = p % w;
    let b = p / w;
    assert((a as u32) as int == a);
    assert((b as u32) as int == b);
    assert(channel_offset(width, a as u32, b as u32, k % 3) == (b * w + a) * 3 + k % 3);
}

/// Conversely, the byte of channel `c` of pixel (`x`, `y`) sits at a position whose pixel is
/// (`x`, `y`) and whose channel is `c`.
pub proof fn lemma_offset_position(width: u32, height: u32, x: u32, y: u32, c: int)
    requires
        x < width,
        y < height,
        0 <= c < 3,
    ensures
        ({
            let k = channel_offset(width, x, y, c);
            &&& 0 <= k < raster_len(width, height)
            &&& (k / 3) % (width as int) == x
            &&& (k / 3) / (width as int) == y
            &&& k % 3 == c
        }),
{
    lemma_offset_in_bounds(width, height, x, y, c);
    let q = y as int * width as int + x as int;
    vstd::arithmetic::div_mod::lemma_fundamental_div_mod_converse(q, width as int, y as int, x as int);
}

/// The pixel index `i` of a line `n` long, counted from the other end when `flip` is set.
pub open spec fn flipped_index(n: u32, i: u32, flip: bool) -> u32 {
    if flip {
        (n - 1 - i) as u32
    } else {
        i
    }
}

/// `out` is the `size` × `size` window of `src` whose top-left corner is (`x`, `y`).
pub open spec fn crop_of(out: PixelImage, src: PixelImage, x: u32, y: u32, size: u32) -> bool {
    &&& out.wf()
    &&& out.spec_width() == size
    &&& out.spec_height() == size
    &&& forall|i: u32, j: u32, c: int|
        i < size && j < size && 0 <= c < 3 ==> #[trigger] out.spec_channel(i, j, c)
            == src.spec_channel((x + i) as u32, (y + j) as u32, c)
}

/// `out` is `src` mirrored left to right when `horizontal` is set, and top to bottom when
/// `vertical` is set.
pub open spec fn flip_of(out: PixelImage, src: PixelImage, horizontal: bool, vertical: bool) -> bool {
    &&& out.wf()
    &&& out.spec_width() == src.spec_width()
    &&& out.spec_height() == src.spec_height()
    &&& forall|i: u32, j: u32, c: int|
        i < src.spec_width() && j < src.spec_height() && 0 <= c < 3
            ==> #[trigger] out.spec_channel(i, j, c) == src.spec_channel(
            flipped_index(src.spec_width(), i, horizontal),
            flipped_index(src.spec_height(), j, vertical),
            c,
        )
}

/// What `image::imageops::resize` with the Lanczos3 filter returns for a `width` × `height`
/// raster resized to `new_width` × `new_height`, as raw RGB bytes.
pub uninterp spec fn lanczos3_resized(
    src: Seq<u8>,
    width: u32,
    height: u32,
    new_width: u32,
    new_height: u32,
) -> Seq<u8>;

/// Resamples an RGB raster through the `image` crate.
///
/// Trusted: wraps the buffer with `image::RgbImage::from_raw` (which succeeds for exactly
/// `width * height * 3` bytes), calls `image::imageops::resize` with `FilterType::Lanczos3` and
/// returns its bytes. The result is named by `lanczos3_resized`. The source returns a buffer
/// of the new size, and a plain copy when the size does not change. It allocates a
/// `width` × `new_height` image of four `f32` channels on the way, whose size `requires`
/// keeps within what an allocation can hold.
#[verifier::external_body]
fn resize_raster(width: u32, height: u32, data: Vec<u8>, new_width: u32, new_height: u32) -> (r:
    Vec<u8>)
    requires
        data@.len() == raster_len(width, height),
        raster_len(new_width, new_height) <= isize::MAX,
        width as int * new_height as int * 16 <= isize::MAX,
    ensures
        r@ == lanczos3_resized(data@, width, height, new_width, new_height),
        r@.len() == raster_len(new_width, new_height),
        new_width == width && new_height == height ==> r@ == data@,
{
    let buf = image::RgbImage::from_raw(width, height, data).unwrap();
    image::imageops::resize(&buf, new_width, new_height, image::imageops::FilterType::Lanczos3)
        .into_raw()
}

/// An RGB raster with 8 bits per channel.
#[derive(Clone, Debug)]
pub struct PixelImage {
    width: u32,
    height: u32,
    data: Vec<u8>,
}

impl View for PixelImage {
    type V = Seq<u8>;

    closed spec fn view(&self) -> Seq<u8> {
        self.data@
    }
}

impl PixelImage {
    /// The raster holds exactly `width * height * 3` bytes.
    pub closed spec fn wf(&self) -> bool {
        self.data@.len() == raster_len(self.width, self.height)
    }

    pub closed spec fn spec_width(&self) -> u32 {
        self.width
    }

    pub closed spec fn spec_height(&self) -> u32 {
        self.height
    }

    /// Channel `c` of pixel (`x`, `y`).
    pub open spec fn spec_channel(&self, x: u32, y: u32, c: int) -> u8 {
        self@[channel_offset(self.spec_width(), x, y, c)]
    }

    pub proof fn lemma_len(&self)
        requires
            self.wf(),
        ensures
            self@.len() == raster_len(self.spec_width(), self.spec_height()),
    {
    }

    /// A black image of the given size.
    pub fn new(width: u32, height: u32) -> (r: PixelImage)
        requires
            raster_len(width, height) <= usize::MAX,
        ensures
            r.wf(),
            r.spec_width() == width,
            r.spec_height() == height,
            forall|i: int| 0 <= i < r@.len() ==> r@[i] == 0,
    {
        let n: usize = (width as usize) * (height as usize) * 3;
        let mut data: Vec<u8> = Vec::new();
        let mut i: usize = 0;
        while i < n
            invariant
                i <= n,
                data@.len() == i,
                forall|k: int| 0 <= k < i ==> data@[k] == 0,
            decreases n - i,
        {
            data.push(0);
            i = i + 1;
        }
        PixelImage { width, height, data }
    }

    /// Wraps a raw buffer; `None` unless it holds exactly `width * height * 3` bytes.
    pub fn from_raw(width: u32, height: u32, data: Vec<u8>) -> (r: Option<PixelImage>)
        ensures
            r is Some <==> data@.len() == raster_len(width, height),
            r matches Some(img) ==> img.wf() && img.spec_width() == width && img.spec_height()
                == height && img@ == data@,
    {
        let len: usize = data.len();
        let w: usize = width as usize;
        let h: usize = height as usize;
        match w.checked_mul(h) {
            None => {
                assert(width as int * height as int > usize::MAX);
                assert(raster_len(width, height) > usize::MAX) by (nonlinear_arith)
                    requires
                        width as int * height as int > usize::MAX,
                ;
                None
            },
            Some(wh) => match wh.checked_mul(3) {
                None => None,
                Some(n) => {
                    if len == n {
                        Some(PixelImage { width, height, data })
                    } else {
                        None
                    }
                },
            },
        }
    }

    /// Assembles an image from a raw buffer of the right length.
    pub fn from_parts(width: u32, height: u32, data: Vec<u8>) -> (r: PixelImage)
        requires
            data@.len() == raster_len(width, height),
        ensures
            r.wf(),
            r.spec_width() == width,
            r.spec_height() == height,
            r@ == data@,
    {
        PixelImage { width, height, data }
    }

    pub fn width(&self) -> (r: u32)
        ensures
            r == self.spec_width(),
    {
        self.width
    }

    pub fn height(&self) -> (r: u32)
        ensures
            r == self.spec_height(),
    {
        self.height
    }

    pub fn dimensions(&self) -> (r: (u32, u32))
        ensures
            r == (self.spec_width(), self.spec_height()),
    {
        (self.width, self.height)
    }

    pub fn as_raw(&self) -> (r: &Vec<u8>)
        ensures
            r@ == self@,
    {
        &self.data
    }

    pub fn into_raw(self) -> (r: Vec<u8>)
        ensures
            r@ == self@,
    {
        self.data
    }

    /// A copy of the image.
    pub fn duplicate(&self) -> (r: PixelImage)
        ensures
            r.wf() == self.wf(),
            r.spec_width() == self.spec_width(),
            r.spec_height() == self.spec_height(),
            r@ == self@,
    {
        let mut data: Vec<u8> = Vec::new();
        let n: usize = self.data.len();
        for k in 0..n
            invariant
                n == self.data@.len(),
                data@ == self.data@.subrange(0, k as int),
        {
            data.push(self.data[k]);
            proof {
                assert(data@ =~= self.data@.subrange(0, k + 1));
            }
        }
        proof {
            assert(data@ =~= self.data@);
        }
        PixelImage { width: self.width, height: self.height, data }
    }

    /// The `size` × `size` window whose top-left corner is (`x`, `y`).
    pub fn crop(&self, x: u32, y: u32, size: u32) -> (out: PixelImage)
        requires
            self.wf(),
            x + size <= self.spec_width(),
            y + size <= self.spec_height(),
        ensures
            crop_of(out, *self, x, y, size),
    {
        let w: u32 = self.width;
        let h: u32 = self.height;
        let len: usize = self.data.len();
        proof {
            assert(size as int * size as int <= w as int * h as int) by (nonlinear_arith)
                requires
                    size <= w,
                    size <= h,
            ;
        }
        let n: usize = (size as usize) * (size as usize) * 3;
        let mut data: Vec<u8> = Vec::new();
        if n == 0 {
            proof {
                assert(size == 0) by (nonlinear_arith)
                    requires
                        n == size as int * size as int * 3,
                        n == 0,
                ;
            }
            return PixelImage { width: size, height: size, data };
        }
        let s: usize = size as usize;
        let mut k: usize = 0;
        while k < n
            invariant
                self.wf(),
                w == self.width,
                h == self.height,
                len == self.data@.len(),
                x + size <= w,
                y + size <= h,
                s == size,
                s > 0,
                n == raster_len(size, size),
                k <= n,
                data@.len() == k,
                forall|q: int|
                    0 <= q < k ==> #[trigger] data@[q] == self.data@[channel_offset(
                        w,
                        (x + (q / 3) % (size as int)) as u32,
                        (y + (q / 3) / (size as int)) as u32,
                        q % 3,
                    )],
            decreases n - k,
        {
            let p: usize = k / 3;
            let c: usize = k % 3;
            let i: usize = p % s;
            let j: usize = p / s;
            proof {
                lemma_position(size, size, k as int);
                lemma_offset_in_bounds(w, h, (x + i) as u32, (y + j) as u32, c as int);
                assert(0 <= (y as int + j as int) * w as int) by (nonlinear_arith)
                    requires
                        w >= 0,
                ;
            }
            let src: usize = ((y as usize + j) * (w as usize) + (x as usize + i)) * 3 + c;
            data.push(self.data[src]);
            k = k + 1;
        }
        let out = PixelImage { width: size, height: size, data };
        proof {
            assert forall|i: u32, j: u32, c: int|
                i < size && j < size && 0 <= c < 3 implies #[trigger] out.spec_channel(i, j, c)
                == self.spec_channel((x + i) as u32, (y + j) as u32, c) by {
                lemma_offset_position(size, size, i, j, c);
            }
        }
        out
    }

    /// The image mirrored left to right when `horizontal` is set, and top to bottom when
    /// `vertical` is set.
    pub fn flip(&self, horizontal: bool, vertical: bool) -> (out: PixelImage)
        requires
            self.wf(),
        ensures
            flip_of(out, *self, horizontal, vertical),
    {
        let w: u32 = self.width;
        let h: u32 = self.height;
        let n: usize = self.data.len();
        let mut data: Vec<u8> = Vec::new();
        if n == 0 {
            proof {
                assert(w == 0 || h == 0) by (nonlinear_arith)
                    requires
                        n == w as int * h as int * 3,
                        n == 0,
                ;
            }
            return PixelImage { width: w, height: h, data };
        }
        proof {
            assert(w > 0) by (nonlinear_arith)
                requires
                    n == w as int * h as int * 3,
                    n > 0,
            ;
            assert(h > 0) by (nonlinear_arith)
                requires
                    n == w as int * h as int * 3,
                    n > 0,
            ;
        }
        let ws: usize = w as usize;
        let mut k: usize = 0;
        while k < n
            invariant
                self.wf(),
                w == self.width,
                h == self.height,
                n == self.data@.len(),
                w > 0,
                h > 0,
                ws == w,
                k <= n,
                data@.len() == k,
                forall|q: int|
                    0 <= q < k ==> #[trigger] data@[q] == self.data@[channel_offset(
                        w,
                        flipped_index(w, ((q / 3) % (w as int)) as u32, horizontal),
                        flipped_index(h, ((q / 3) / (w as int)) as u32, vertical),
                        q % 3,
                    )],
            decreases n - k,
        {
            let p: usize = k / 3;
            let c: usize = k % 3;
            let i: usize = p % ws;
            let j: usize = p / ws;
            proof {
                lemma_position(w, h, k as int);
            }
            let si: usize = if horizontal { ws - 1 - i } else { i };
            let sj: usize = if vertical { (h as usize) - 1 - j } else { j };
            proof {
                lemma_offset_in_bounds(w, h, si as u32, sj as u32, c as int);
                assert(0 <= sj as int * w as int) by (nonlinear_arith)
                    requires
                        w >= 0,
                ;
            }
            let src: usize = (sj * ws + si) * 3 + c;
            data.push(self.data[src]);
            k = k + 1;
        }
        let out = PixelImage { width: w, height: h, data };
        proof {
            assert forall|i: u32, j: u32, c: int|
                i < w && j < h && 0 <= c < 3 implies #[trigger] out.spec_channel(i, j, c)
                == self.spec_channel(flipped_index(w, i, horizontal), flipped_index(h, j, vertical), c) by {
                lemma_offset_position(w, h, i, j, c);
            }
        }
        out
    }

    /// The image resampled to `new_width` × `new_height` with the Lanczos3 filter of the
    /// `image` crate.
    pub fn resize(&self, new_width: u32, new_height: u32) -> (out: PixelImage)
        requires
            self.wf(),
            raster_len(new_width, new_height) <= isize::MAX,
            self.spec_width() as int * new_height as int * 16 <= isize::MAX,
        ensures
            out.wf(),
            out.spec_width() == new_width,
            out.spec_height() == new_height,
            out@ == lanczos3_resized(
                self@,
                self.spec_width(),
                self.spec_height(),
                new_width,
                new_height,
            ),
            new_width == self.spec_width() && new_height == self.spec_height() ==> out@ == self@,
    {
        let data = resize_raster(self.width, self.height, self.data.clone(), new_width, new_height);
        PixelImage { width: new_width, height: new_height, data }
    }

    /// The three channels of pixel (`x`, `y`).
    pub fn get_pixel(&self, x: u32, y: u32) -> (r: [u8; 3])
        requires
            self.wf(),
            x < self.spec_width(),
            y < self.spec_height(),
        ensures
            r@ == seq![
                self.spec_channel(x, y, 0),
                self.spec_channel(x, y, 1),
                self.spec_channel(x, y, 2),
            ],
    {
        proof {
            lemma_offset_in_bounds(self.width, self.height, x, y, 2);
            assert(0 <= y as int * self.width as int) by (nonlinear_arith);
        }
        // the buffer's length is a usize, which bounds every offset into it
        let len: usize = self.data.len();
        assert(channel_offset(self.width, x, y, 2) < len);
        let base: usize = ((y as usize) * (self.width as usize) + (x as usize)) * 3;
        [self.data[base], self.data[base + 1], self.data[base + 2]]
    }

    /// Overwrites pixel (`x`, `y`) with `rgb`.
    pub fn put_pixel(&mut self, x: u32, y: u32, rgb: [u8; 3])
        requires
            old(self).wf(),
            x < old(self).spec_width(),
            y < old(self).spec_height(),
        ensures
            final(self).wf(),
            final(self).spec_width() == old(self).spec_width(),
            final(self).spec_height() == old(self).spec_height(),
            final(self)@ == old(self)@.update(
                channel_offset(old(self).spec_width(), x, y, 0),
                rgb[0],
            ).update(channel_offset(old(self).spec_width(), x, y, 1), rgb[1]).update(
                channel_offset(old(self).spec_width(), x, y, 2),
                rgb[2],
            ),
    {
        proof {
            lemma_offset_in_bounds(self.width, self.height, x, y, 2);
            assert(0 <= y as int * self.width as int) by (nonlinear_arith);
        }
        // the buffer's length is a usize, which bounds every offset into it
        let len: usize = self.data.len();
        assert(channel_offset(self.width, x, y, 2) < len);
        let base: usize = ((y as usize) * (self.width as usize) + (x as usize)) * 3;
        self.data.set(base, rgb[0]);
        self.data.set(base + 1, rgb[1]);
        self.data.set(base + 2, rgb[2]);
    }
}

} // verus!
