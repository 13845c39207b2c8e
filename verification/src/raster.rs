//! Raster image model and the pure preprocessing transforms.
//!
//! A `RasterImage` holds an 8-bit pixel buffer with one channel (grayscale)
//! or three channels (RGB). Every transform produces a new, independently
//! owned image and never mutates its input. The integer pixel formulas are
//! the library's own logic; resizing, Gaussian blur and the byte-level codec
//! are delegated to the `image` crate behind trusted wrappers.

use vstd::prelude::*;

use crate::error::QraiError;

verus! {

/// Largest accepted pixel count of an image: the area of a square of
/// `MAX_DIMENSION` per side. (The verified Otsu arithmetic fits in u128
/// within this bound; the shape of the rectangle is not constrained.)
pub const MAX_PIXELS: u32 = 100_000_000;

/// Largest accepted resize target per side; a resized image's pixel count
/// then stays within `MAX_PIXELS`.
pub const MAX_DIMENSION: u32 = 10000;

/// Luminance of an RGB pixel: the ITU-R BT.709 weights in fixed point.
pub open spec fn luma_byte(r: int, g: int, b: int) -> int {
    (2126 * r + 7152 * g + 722 * b) / 10000
}

/// Pixel-for-pixel inversion of a grayscale buffer.
pub open spec fn invert_seq(s: Seq<u8>) -> Seq<u8> {
    Seq::new(s.len(), |i: int| (255 - s[i]) as u8)
}

/// Binarization of a grayscale buffer at a fixed threshold.
pub open spec fn threshold_seq(s: Seq<u8>, t: int) -> Seq<u8> {
    Seq::new(s.len(), |i: int| if s[i] > t { 255u8 } else { 0u8 })
}

/// Whether every byte of the buffer holds the same value.
pub open spec fn uniform_seq(s: Seq<u8>) -> bool {
    forall|i: int, j: int| 0 <= i < s.len() && 0 <= j < s.len() ==> s[i] == s[j]
}

/// An 8-bit raster image: single-channel grayscale or three-channel RGB.
#[derive(Debug, Clone)]
pub struct RasterImage {
    pub width: u32,
    pub height: u32,
    pub channels: u8,
    pub data: Vec<u8>,
}

impl RasterImage {
    /// Well-formedness: positive bounded dimensions, one or three channels,
    /// and a buffer of exactly `width * height * channels` bytes.
    pub open spec fn wf(&self) -> bool {
        &&& 1 <= self.width
        &&& 1 <= self.height
        &&& self.width * self.height <= MAX_PIXELS
        &&& (self.channels == 1 || self.channels == 3)
        &&& self.data@.len() == self.width * self.height * self.channels
    }

    pub open spec fn spec_width(&self) -> u32 {
        self.width
    }

    pub open spec fn spec_height(&self) -> u32 {
        self.height
    }

    pub open spec fn spec_channels(&self) -> u8 {
        self.channels
    }

    /// The red component of pixel `p` (for grayscale, the gray value).
    pub open spec fn red_at(&self, p: int) -> int {
        if self.channels == 3 {
            self.data@[3 * p] as int
        } else {
            self.data@[p] as int
        }
    }

    /// The green component of pixel `p` (for grayscale, the gray value).
    pub open spec fn green_at(&self, p: int) -> int {
        if self.channels == 3 {
            self.data@[3 * p + 1] as int
        } else {
            self.data@[p] as int
        }
    }

    /// The blue component of pixel `p` (for grayscale, the gray value).
    pub open spec fn blue_at(&self, p: int) -> int {
        if self.channels == 3 {
            self.data@[3 * p + 2] as int
        } else {
            self.data@[p] as int
        }
    }

    /// Grayscale reading of the image: the buffer itself for single-channel
    /// images, the per-pixel luminance for RGB images.
    pub open spec fn gray_view(&self) -> Seq<u8> {
        if self.channels == 1 {
            self.data@
        } else {
            Seq::new(
                (self.width * self.height) as nat,
                |p: int| luma_byte(self.red_at(p), self.green_at(p), self.blue_at(p)) as u8,
            )
        }
    }

    #[verifier::when_used_as_spec(spec_width)]
    pub fn width(&self) -> (r: u32)
        ensures
            r == self.width,
    {
        self.width
    }

    #[verifier::when_used_as_spec(spec_height)]
    pub fn height(&self) -> (r: u32)
        ensures
            r == self.height,
    {
        self.height
    }

    #[verifier::when_used_as_spec(spec_channels)]
    pub fn channels(&self) -> (r: u8)
        ensures
            r == self.channels,
    {
        self.channels
    }

    /// Read access to the raw pixel buffer.
    pub fn data(&self) -> (r: &Vec<u8>)
        ensures
            r@ == self.data@,
    {
        &self.data
    }

    /// Build an image from a raw buffer, validating the dimensions.
    pub fn from_raw(width: u32, height: u32, channels: u8, data: Vec<u8>) -> (r: Result<
        RasterImage,
        QraiError,
    >)
        ensures
            r matches Ok(img) ==> {
                &&& img.wf()
                &&& img.width == width
                &&& img.height == height
                &&& img.channels == channels
                &&& img.data@ == data@
            },
            r is Ok <==> {
                &&& 1 <= width
                &&& 1 <= height
                &&& width * height <= MAX_PIXELS
                &&& (channels == 1 || channels == 3)
                &&& data@.len() == width * height * channels
            },
    {
        if width < 1 || height < 1 {
            return Err(QraiError::ImageProcessing(String::from_str("image dimensions must be positive")));
        }
        proof {
            assert((width as int) * (height as int) < 0x10000000000000000) by (nonlinear_arith)
                requires
                    width <= 0xFFFF_FFFFu32,
                    height <= 0xFFFF_FFFFu32,
            ;
        }
        let area: u64 = (width as u64) * (height as u64);
        if area > (MAX_PIXELS as u64) {
            return Err(QraiError::DimensionsTooLarge { width, height, max_dimension: MAX_DIMENSION });
        }
        if channels != 1 && channels != 3 {
            return Err(QraiError::ImageProcessing(String::from_str("images have one or three channels")));
        }
        proof {
            assert((area as int) * (channels as int) <= 300_000_000) by (nonlinear_arith)
                requires
                    area <= 100_000_000,
                    channels == 1 || channels == 3,
            ;
        }
        let expected: u64 = area * (channels as u64);
        if (data.len() as u64) != expected {
            return Err(QraiError::BufferMismatch { expected: expected as usize, actual: data.len() });
        }
        Ok(RasterImage { width, height, channels, data })
    }

    /// Grayscale conversion: the identity on single-channel images, the
    /// standard luminance reduction on RGB images.
    pub fn to_gray(&self) -> (r: RasterImage)
        requires
            self.wf(),
        ensures
            r.wf(),
            r.width == self.width,
            r.height == self.height,
            r.channels == 1,
            r.data@ == self.gray_view(),
    {
        if self.channels == 1 {
            RasterImage {
                width: self.width,
                height: self.height,
                channels: 1,
                data: self.data.clone(),
            }
        } else {
            let len0: usize = self.data.len();
            let n: usize = len0 / 3;
            assert(len0 == 3 * (self.width * self.height));
            assert(n == self.width * self.height);
            let mut out: Vec<u8> = Vec::new();
            let mut p: usize = 0;
            while p < n
                invariant
                    self.wf(),
                    self.channels == 3,
                    n == self.width * self.height,
                    len0 == self.data@.len(),
                    3 * n == len0,
                    p <= n,
                    out@.len() == p,
                    forall|q: int|
                        0 <= q < p ==> out@[q] == luma_byte(
                            self.red_at(q),
                            self.green_at(q),
                            self.blue_at(q),
                        ) as u8,
                decreases n - p,
            {
                let r = self.data[3 * p] as u32;
                let g = self.data[3 * p + 1] as u32;
                let b = self.data[3 * p + 2] as u32;
                let v = (2126 * r + 7152 * g + 722 * b) / 10000;
                out.push(v as u8);
                p = p + 1;
            }
            let img = RasterImage {
                width: self.width,
                height: self.height,
                channels: 1,
                data: out,
            };
            assert(img.data@ =~= self.gray_view());
            img
        }
    }

    /// Inversion of the grayscale reading: `out = 255 - in`, an involution.
    pub fn invert_image(&self) -> (r: RasterImage)
        requires
            self.wf(),
        ensures
            r.wf(),
            r.width == self.width,
            r.height == self.height,
            r.channels == 1,
            r.data@ == invert_seq(self.gray_view()),
    {
        let gray = self.to_gray();
        let n: usize = gray.data.len();
        let mut out: Vec<u8> = Vec::new();
        let mut i: usize = 0;
        while i < n
            invariant
                n == gray.data@.len(),
                i <= n,
                out@.len() == i,
                forall|j: int| 0 <= j < i ==> out@[j] == (255 - gray.data@[j]) as u8,
            decreases n - i,
        {
            out.push(255 - gray.data[i]);
            i = i + 1;
        }
        let img = RasterImage {
            width: gray.width,
            height: gray.height,
            channels: 1,
            data: out,
        };
        assert(img.data@ =~= invert_seq(self.gray_view()));
        img
    }

    /// Binarization at a fixed threshold: values above `threshold` map to
    /// 255, the rest to 0.
    pub fn apply_fixed_threshold(&self, threshold: u8) -> (r: RasterImage)
        requires
            self.wf(),
        ensures
            r.wf(),
            r.width == self.width,
            r.height == self.height,
            r.channels == 1,
            r.data@ == threshold_seq(self.gray_view(), threshold as int),
    {
        let gray = self.to_gray();
        let n: usize = gray.data.len();
        let mut out: Vec<u8> = Vec::new();
        let mut i: usize = 0;
        while i < n
            invariant
                n == gray.data@.len(),
                i <= n,
                out@.len() == i,
                forall|j: int|
                    0 <= j < i ==> out@[j] == (if gray.data@[j] > threshold {
                        255u8
                    } else {
                        0u8
                    }),
            decreases n - i,
        {
            let v: u8 = if gray.data[i] > threshold {
                255
            } else {
                0
            };
            out.push(v);
            i = i + 1;
        }
        let img = RasterImage {
            width: gray.width,
            height: gray.height,
            channels: 1,
            data: out,
        };
        assert(img.data@ =~= threshold_seq(self.gray_view(), threshold as int));
        img
    }
}

/// Inversion is an involution: inverting a grayscale buffer twice gives the
/// buffer back, pixel for pixel.
pub proof fn lemma_invert_involution(s: Seq<u8>)
    ensures
        invert_seq(invert_seq(s)) == s,
{
    assert(invert_seq(invert_seq(s)) =~= s);
}

/// Smallest value of a grayscale buffer (255 for the empty buffer).
pub open spec fn seq_min(s: Seq<u8>) -> int
    decreases s.len(),
{
    if s.len() == 0 {
        255
    } else {
        let m = seq_min(s.drop_last());
        if s.last() < m {
            s.last() as int
        } else {
            m
        }
    }
}

/// Largest value of a grayscale buffer (0 for the empty buffer).
pub open spec fn seq_max(s: Seq<u8>) -> int
    decreases s.len(),
{
    if s.len() == 0 {
        0
    } else {
        let m = seq_max(s.drop_last());
        if s.last() > m {
            s.last() as int
        } else {
            m
        }
    }
}

/// Histogram stretch: linearly remap the observed range [min, max] to
/// [0, 255]; the identity when all values are equal.
pub open spec fn stretch_seq(s: Seq<u8>) -> Seq<u8> {
    let mn = seq_min(s);
    let mx = seq_max(s);
    if mn == mx {
        s
    } else {
        Seq::new(s.len(), |i: int| ((s[i] - mn) * 255 / (mx - mn)) as u8)
    }
}

/// Every element lies between the minimum and the maximum.
pub proof fn lemma_min_max_bounds(s: Seq<u8>, i: int)
    requires
        0 <= i < s.len(),
    ensures
        seq_min(s) <= s[i] <= seq_max(s),
    decreases s.len(),
{
    if i + 1 < s.len() {
        lemma_min_max_bounds(s.drop_last(), i);
    }
}

/// Brightness then contrast around the midpoint, in integer percent:
/// `clamp(((v * bp / 100) - 128) * cp / 100 + 128, 0, 255)`.
pub open spec fn adjust_byte(v: int, bp: int, cp: int) -> int {
    let b = v * bp / 100;
    if b >= 128 {
        let inc = (b - 128) * cp / 100;
        if 128 + inc > 255 {
            255
        } else {
            128 + inc
        }
    } else {
        let dec = (128 - b) * cp / 100;
        if dec > 128 {
            0
        } else {
            128 - dec
        }
    }
}

/// How many entries of the buffer hold the value `v`.
pub open spec fn count_val(s: Seq<u8>, v: int) -> int
    decreases s.len(),
{
    if s.len() == 0 {
        0
    } else {
        count_val(s.drop_last(), v) + if s.last() == v {
            1int
        } else {
            0int
        }
    }
}

/// Number of entries at or below threshold `t` (the background class).
pub open spec fn class_weight(s: Seq<u8>, t: int) -> int
    decreases s.len(),
{
    if s.len() == 0 {
        0
    } else {
        class_weight(s.drop_last(), t) + if s.last() <= t {
            1int
        } else {
            0int
        }
    }
}

/// Sum of the entries at or below threshold `t`.
pub open spec fn class_sum(s: Seq<u8>, t: int) -> int
    decreases s.len(),
{
    if s.len() == 0 {
        0
    } else {
        class_sum(s.drop_last(), t) + if s.last() <= t {
            s.last() as int
        } else {
            0int
        }
    }
}

/// Between-class separation of threshold `t`, in integer arithmetic: the
/// squared difference of the class mean numerators divided by the product of
/// the class weights; -1 when one class is empty.
pub open spec fn otsu_score(s: Seq<u8>, t: int) -> int {
    let n = s.len() as int;
    let wb = class_weight(s, t);
    if wb <= 0 || wb >= n {
        -1
    } else {
        let num = class_sum(s, t) * n - class_sum(s, 255) * wb;
        (num * num) / (wb * (n - wb))
    }
}

/// The least threshold below `k` with the largest between-class separation.
pub open spec fn otsu_best(s: Seq<u8>, k: int) -> int
    decreases k,
{
    if k <= 1 {
        0
    } else {
        let prev = otsu_best(s, k - 1);
        if otsu_score(s, k - 1) > otsu_score(s, prev) {
            k - 1
        } else {
            prev
        }
    }
}

/// What Otsu thresholding produces: a uniform buffer is returned unchanged,
/// any other buffer is binarized at the best threshold.
pub open spec fn otsu_seq(s: Seq<u8>) -> Seq<u8> {
    if uniform_seq(s) {
        s
    } else {
        threshold_seq(s, otsu_best(s, 256))
    }
}

/// No threshold scores better than the one Otsu picks: `otsu_best(s, k)`
/// maximizes the between-class separation over all thresholds below `k`.
pub proof fn lemma_otsu_best_is_max(s: Seq<u8>, k: int, t: int)
    requires
        0 <= t < k,
    ensures
        otsu_score(s, t) <= otsu_score(s, otsu_best(s, k)),
    decreases k,
{
    if k <= 1 {
    } else {
        let prev = otsu_best(s, k - 1);
        if t == k - 1 {
            if otsu_score(s, k - 1) > otsu_score(s, prev) {
            } else {
            }
        } else {
            lemma_otsu_best_is_max(s, k - 1, t);
        }
    }
}

/// Entries below `k`, counted by walking the value range: equals
/// `class_weight(s, k - 1)`.
pub open spec fn cum_weight(s: Seq<u8>, k: nat) -> int
    decreases k,
{
    if k == 0 {
        0
    } else {
        cum_weight(s, (k - 1) as nat) + count_val(s, k - 1)
    }
}

/// Sum of entries below `k`, by walking the value range: equals
/// `class_sum(s, k - 1)`.
pub open spec fn cum_sum(s: Seq<u8>, k: nat) -> int
    decreases k,
{
    if k == 0 {
        0
    } else {
        cum_sum(s, (k - 1) as nat) + (k - 1) * count_val(s, k - 1)
    }
}

proof fn lemma_cum_empty(k: nat)
    ensures
        cum_weight(Seq::<u8>::empty(), k) == 0,
        cum_sum(Seq::<u8>::empty(), k) == 0,
    decreases k,
{
    if k > 0 {
        lemma_cum_empty((k - 1) as nat);
        assert(count_val(Seq::<u8>::empty(), k - 1) == 0);
    }
}

proof fn lemma_cum_push(s: Seq<u8>, k: nat)
    requires
        s.len() >= 1,
    ensures
        cum_weight(s, k) == cum_weight(s.drop_last(), k) + if (s.last() as int) < k {
            1int
        } else {
            0int
        },
        cum_sum(s, k) == cum_sum(s.drop_last(), k) + if (s.last() as int) < k {
            s.last() as int
        } else {
            0int
        },
    decreases k,
{
    if k > 0 {
        lemma_cum_push(s, (k - 1) as nat);
        let km1 = k - 1;
        let c = count_val(s.drop_last(), km1 as int);
        let extra: int = if s.last() == km1 {
            1
        } else {
            0
        };
        assert(count_val(s, km1 as int) == c + extra);
        assert(km1 * (c + extra) == km1 * c + km1 * extra) by (nonlinear_arith);
    }
}

proof fn lemma_cum_is_class(s: Seq<u8>, k: nat)
    ensures
        cum_weight(s, k) == class_weight(s, k - 1),
        cum_sum(s, k) == class_sum(s, k - 1),
    decreases s.len(),
{
    if s.len() == 0 {
        assert(s =~= Seq::<u8>::empty());
        lemma_cum_empty(k);
    } else {
        lemma_cum_is_class(s.drop_last(), k);
        lemma_cum_push(s, k);
        assert((s.last() as int) < k <==> s.last() <= k - 1);
        assert(cum_weight(s, k) == cum_weight(s.drop_last(), k) + if (s.last() as int) < k {
            1int
        } else {
            0int
        });
        assert(cum_sum(s, k) == cum_sum(s.drop_last(), k) + if (s.last() as int) < k {
            s.last() as int
        } else {
            0int
        });
        assert(class_weight(s, k - 1) == class_weight(s.drop_last(), k - 1) + if s.last() <= k - 1 {
            1int
        } else {
            0int
        });
        assert(class_sum(s, k - 1) == class_sum(s.drop_last(), k - 1) + if s.last() <= k - 1 {
            s.last() as int
        } else {
            0int
        });
    }
}

/// The class weight never exceeds the buffer length and the class sum never
/// exceeds 255 per counted entry.
proof fn lemma_class_bounds(s: Seq<u8>, t: int)
    ensures
        0 <= class_weight(s, t) <= s.len(),
        0 <= class_sum(s, t) <= 255 * class_weight(s, t),
    decreases s.len(),
{
    if s.len() > 0 {
        lemma_class_bounds(s.drop_last(), t);
    }
}

/// The red channel of an image as a grayscale buffer.
pub open spec fn red_seq(img: RasterImage) -> Seq<u8> {
    Seq::new((img.width * img.height) as nat, |p: int| img.red_at(p) as u8)
}

/// The green channel of an image as a grayscale buffer.
pub open spec fn green_seq(img: RasterImage) -> Seq<u8> {
    Seq::new((img.width * img.height) as nat, |p: int| img.green_at(p) as u8)
}

/// The blue channel of an image as a grayscale buffer.
pub open spec fn blue_seq(img: RasterImage) -> Seq<u8> {
    Seq::new((img.width * img.height) as nat, |p: int| img.blue_at(p) as u8)
}

/// The saturation channel of an image: `max(R,G,B) - min(R,G,B)` per pixel.
pub open spec fn sat_seq(img: RasterImage) -> Seq<u8> {
    Seq::new(
        (img.width * img.height) as nat,
        |p: int| sat_byte(img.red_at(p), img.green_at(p), img.blue_at(p)) as u8,
    )
}

/// The hue channel of an image, normalized to bytes.
pub open spec fn hue_seq(img: RasterImage) -> Seq<u8> {
    Seq::new(
        (img.width * img.height) as nat,
        |p: int| hue_byte(img.red_at(p), img.green_at(p), img.blue_at(p)) as u8,
    )
}

/// The value channel of an image: `max(R,G,B)` per pixel.
pub open spec fn value_seq(img: RasterImage) -> Seq<u8> {
    Seq::new(
        (img.width * img.height) as nat,
        |p: int| max3(img.red_at(p), img.green_at(p), img.blue_at(p)) as u8,
    )
}

/// Largest of three channel values.
pub open spec fn max3(r: int, g: int, b: int) -> int {
    if r >= g && r >= b {
        r
    } else if g >= b {
        g
    } else {
        b
    }
}

/// Smallest of three channel values.
pub open spec fn min3(r: int, g: int, b: int) -> int {
    if r <= g && r <= b {
        r
    } else if g <= b {
        g
    } else {
        b
    }
}

/// Saturation of an RGB pixel: `max(R,G,B) - min(R,G,B)`.
pub open spec fn sat_byte(r: int, g: int, b: int) -> int {
    max3(r, g, b) - min3(r, g, b)
}

/// Hue of an RGB pixel by the standard six-case max-component formula,
/// normalized from degrees in [0,360) to a byte in [0,255].
pub open spec fn hue_byte(r: int, g: int, b: int) -> int {
    let mx = max3(r, g, b);
    let mn = min3(r, g, b);
    let d = mx - mn;
    if d == 0 {
        0
    } else {
        let raw = if mx == r {
            if g >= b {
                60 * (g - b)
            } else {
                360 * d - 60 * (b - g)
            }
        } else if mx == g {
            120 * d + 60 * (b - r)
        } else {
            240 * d + 60 * (r - g)
        };
        raw * 255 / (360 * d)
    }
}

fn max3_u8(r: u8, g: u8, b: u8) -> (m: u8)
    ensures
        m as int == max3(r as int, g as int, b as int),
{
    if r >= g && r >= b {
        r
    } else if g >= b {
        g
    } else {
        b
    }
}

fn min3_u8(r: u8, g: u8, b: u8) -> (m: u8)
    ensures
        m as int == min3(r as int, g as int, b as int),
{
    if r <= g && r <= b {
        r
    } else if g <= b {
        g
    } else {
        b
    }
}

fn hue_of(r: u8, g: u8, b: u8) -> (h: u8)
    ensures
        h as int == hue_byte(r as int, g as int, b as int),
{
    let mx = max3_u8(r, g, b);
    let mn = min3_u8(r, g, b);
    if mx == mn {
        return 0;
    }
    let d: u32 = (mx - mn) as u32;
    let raw: u32 = if mx == r {
        if g >= b {
            60 * ((g - b) as u32)
        } else {
            360 * d - 60 * ((b - g) as u32)
        }
    } else if mx == g {
        if b >= r {
            120 * d + 60 * ((b - r) as u32)
        } else {
            120 * d - 60 * ((r - b) as u32)
        }
    } else {
        if r >= g {
            240 * d + 60 * ((r - g) as u32)
        } else {
            240 * d - 60 * ((g - r) as u32)
        }
    };
    proof {
        assert(raw < 360 * d);
        assert((raw as int) * 255 / ((360 * (d as int))) <= 255) by (nonlinear_arith)
            requires
                raw < 360 * d,
                1 <= d <= 255,
        ;
    }
    (raw * 255 / (360 * d)) as u8
}

impl RasterImage {
    /// Contrast enhancement by histogram stretching of the grayscale
    /// reading; uniform images are returned unchanged rather than divided
    /// by zero.
    pub fn enhance_contrast(&self) -> (r: RasterImage)
        requires
            self.wf(),
        ensures
            r.wf(),
            r.width == self.width,
            r.height == self.height,
            r.channels == 1,
            r.data@ == stretch_seq(self.gray_view()),
    {
        let gray = self.to_gray();
        let n: usize = gray.data.len();
        let mut mn: u8 = 255;
        let mut mx: u8 = 0;
        let mut i: usize = 0;
        while i < n
            invariant
                n == gray.data@.len(),
                i <= n,
                mn == seq_min(gray.data@.take(i as int)),
                mx == seq_max(gray.data@.take(i as int)),
            decreases n - i,
        {
            let v = gray.data[i];
            proof {
                assert(gray.data@.take(i + 1).drop_last() =~= gray.data@.take(i as int));
                assert(gray.data@.take(i + 1).last() == gray.data@[i as int]);
            }
            if v < mn {
                mn = v;
            }
            if v > mx {
                mx = v;
            }
            i = i + 1;
        }
        proof {
            assert(gray.data@.take(n as int) =~= gray.data@);
        }
        if mn == mx {
            return gray;
        }
        proof {
            assert(gray.data@.len() >= 1) by (nonlinear_arith)
                requires
                    gray.data@.len() == gray.width * gray.height * gray.channels,
                    gray.width >= 1,
                    gray.height >= 1,
                    gray.channels == 1,
            ;
            lemma_min_max_bounds(gray.data@, 0);
        }
        let range: u32 = (mx - mn) as u32;
        let mut out: Vec<u8> = Vec::new();
        let mut i: usize = 0;
        while i < n
            invariant
                n == gray.data@.len(),
                i <= n,
                out@.len() == i,
                mn == seq_min(gray.data@),
                mx == seq_max(gray.data@),
                mn < mx,
                range == mx - mn,
                forall|j: int|
                    0 <= j < i ==> out@[j] == ((gray.data@[j] - seq_min(gray.data@)) * 255 / (
                    seq_max(gray.data@) - seq_min(gray.data@))) as u8,
            decreases n - i,
        {
            proof {
                lemma_min_max_bounds(gray.data@, i as int);
            }
            let v = gray.data[i];
            proof {
                assert((((v - mn) as int) * 255) / (range as int) <= 255) by (nonlinear_arith)
                    requires
                        0 <= v - mn <= range,
                        range >= 1,
                ;
            }
            let scaled: u32 = ((v - mn) as u32) * 255 / range;
            out.push(scaled as u8);
            i = i + 1;
        }
        let img = RasterImage {
            width: gray.width,
            height: gray.height,
            channels: 1,
            data: out,
        };
        assert(img.data@ =~= stretch_seq(self.gray_view()));
        img
    }

    /// Aggressive binarization: histogram stretch followed by a fixed
    /// middle threshold.
    pub fn apply_high_contrast_threshold(&self) -> (r: RasterImage)
        requires
            self.wf(),
        ensures
            r.wf(),
            r.width == self.width,
            r.height == self.height,
            r.channels == 1,
            r.data@ == threshold_seq(stretch_seq(self.gray_view()), 127),
    {
        let enhanced = self.enhance_contrast();
        enhanced.apply_fixed_threshold(127)
    }

    /// Contrast and brightness adjustment in one pass, applied to every
    /// channel byte. `brightness_pct` and `contrast_pct` are percentages
    /// (100 is neutral).
    pub fn apply_contrast_brightness(&self, contrast_pct: u32, brightness_pct: u32) -> (r:
        RasterImage)
        requires
            self.wf(),
            contrast_pct <= 1000,
            brightness_pct <= 1000,
        ensures
            r.wf(),
            r.width == self.width,
            r.height == self.height,
            r.channels == self.channels,
            r.data@.len() == self.data@.len(),
            forall|j: int|
                0 <= j < r.data@.len() ==> r.data@[j] == adjust_byte(
                    self.data@[j] as int,
                    brightness_pct as int,
                    contrast_pct as int,
                ) as u8,
    {
        let n: usize = self.data.len();
        let mut out: Vec<u8> = Vec::new();
        let mut i: usize = 0;
        while i < n
            invariant
                n == self.data@.len(),
                contrast_pct <= 1000,
                brightness_pct <= 1000,
                i <= n,
                out@.len() == i,
                forall|j: int|
                    0 <= j < i ==> out@[j] == adjust_byte(
                        self.data@[j] as int,
                        brightness_pct as int,
                        contrast_pct as int,
                    ) as u8,
            decreases n - i,
        {
            let v = self.data[i] as u32;
            proof {
                assert(v * brightness_pct <= 255_000) by (nonlinear_arith)
                    requires
                        v <= 255,
                        brightness_pct <= 1000,
                ;
            }
            let b: u32 = v * brightness_pct / 100;
            proof {
                assert(b <= 2550);
                assert(b >= 128 ==> (b - 128) * contrast_pct <= 2_550_000) by (nonlinear_arith)
                    requires
                        b <= 2550,
                        contrast_pct <= 1000,
                ;
                assert(b < 128 ==> (128 - b) * contrast_pct <= 128_000) by (nonlinear_arith)
                    requires
                        b <= 2550,
                        contrast_pct <= 1000,
                ;
            }
            let adjusted: u32 = if b >= 128 {
                let inc: u32 = (b - 128) * contrast_pct / 100;
                if 128 + inc > 255 {
                    255
                } else {
                    128 + inc
                }
            } else {
                let dec: u32 = (128 - b) * contrast_pct / 100;
                if dec > 128 {
                    0
                } else {
                    128 - dec
                }
            };
            out.push(adjusted as u8);
            i = i + 1;
        }
        let img = RasterImage {
            width: self.width,
            height: self.height,
            channels: self.channels,
            data: out,
        };
        img
    }

    /// Otsu automatic thresholding: binarize at the threshold with the
    /// largest between-class separation; a uniform image is returned
    /// unchanged rather than divided by zero.
    pub fn apply_otsu_threshold(&self) -> (r: RasterImage)
        requires
            self.wf(),
        ensures
            r.wf(),
            r.width == self.width,
            r.height == self.height,
            r.channels == 1,
            r.data@ == otsu_seq(self.gray_view()),
            self.channels == 1 && uniform_seq(self.data@) ==> r.data@ == self.data@,
    {
        let gray = self.to_gray();
        let ghost g: Seq<u8> = gray.data@;
        let len: usize = gray.data.len();
        proof {
            assert(len >= 1 && len <= 100_000_000) by (nonlinear_arith)
                requires
                    len == gray.width * gray.height * gray.channels,
                    1 <= gray.width,
                    1 <= gray.height,
                    gray.width * gray.height <= 100_000_000,
                    gray.channels == 1,
            ;
        }
        // Uniform image: return it unchanged.
        let first = gray.data[0];
        let mut uni = true;
        let mut i: usize = 1;
        while i < len
            invariant
                gray.data@ == g,
                len == g.len(),
                1 <= i <= len,
                g[0] == first,
                uni <==> (forall|j: int| 0 <= j < i ==> g[j] == first),
            decreases len - i,
        {
            if gray.data[i] != first {
                uni = false;
            }
            i = i + 1;
        }
        if uni {
            proof {
                assert(uniform_seq(g));
            }
            return gray;
        }
        proof {
            assert(g[0] == first);
            assert(!uniform_seq(g)) by {
                if uniform_seq(g) {
                    assert(forall|j: int| 0 <= j < g.len() ==> #[trigger] g[j] == g[0]);
                }
            }
        }
        // Histogram of the 256 gray levels.
        let mut hist: Vec<u32> = Vec::new();
        let mut v: usize = 0;
        while v < 256
            invariant
                hist@.len() == v,
                v <= 256,
                forall|w: int| 0 <= w < v ==> hist@[w] == 0,
            decreases 256 - v,
        {
            hist.push(0);
            v = v + 1;
        }
        let mut i: usize = 0;
        while i < len
            invariant
                gray.data@ == g,
                len == g.len(),
                len <= 100_000_000,
                i <= len,
                hist@.len() == 256,
                forall|w: int| 0 <= w < 256 ==> hist@[w] as int == count_val(g.take(i as int), w),
                forall|w: int| 0 <= w < 256 ==> hist@[w] <= i,
            decreases len - i,
        {
            let px = gray.data[i] as usize;
            proof {
                assert(g.take(i + 1).drop_last() =~= g.take(i as int));
                assert(g.take(i + 1).last() == g[i as int]);
            }
            let c = hist[px];
            hist.set(px, c + 1);
            i = i + 1;
        }
        proof {
            assert(g.take(len as int) =~= g);
        }
        // Total weighted sum over the histogram.
        let mut total: u64 = 0;
        let mut v: usize = 0;
        while v < 256
            invariant
                len == g.len(),
                len <= 100_000_000,
                hist@.len() == 256,
                forall|w: int| 0 <= w < 256 ==> hist@[w] as int == count_val(g, w),
                forall|w: int| 0 <= w < 256 ==> hist@[w] <= len,
                v <= 256,
                total == cum_sum(g, v as nat),
                0 <= total <= 255 * (len as int),
            decreases 256 - v,
        {
            proof {
                lemma_cum_is_class(g, (v + 1) as nat);
                lemma_class_bounds(g, v as int);
                assert((v as int) * (hist@[v as int] as int) <= 255 * 100_000_000)
                    by (nonlinear_arith)
                    requires
                        v < 256,
                        0 <= hist@[v as int] <= 100_000_000,
                ;
                assert(cum_sum(g, (v + 1) as nat) <= 255 * class_weight(g, v as int));
            }
            total = total + (v as u64) * (hist[v] as u64);
            v = v + 1;
        }
        proof {
            lemma_cum_is_class(g, 256);
        }
        // Scan the thresholds, keeping the earliest best score.
        let n64: u64 = len as u64;
        let mut wb: u64 = 0;
        let mut sumb: u64 = 0;
        let mut best_t: usize = 0;
        let mut best_sc: i128 = -1;
        let mut t: usize = 0;
        while t < 256
            invariant
                len == g.len(),
                1 <= len <= 100_000_000,
                n64 == len,
                hist@.len() == 256,
                forall|w: int| 0 <= w < 256 ==> hist@[w] as int == count_val(g, w),
                forall|w: int| 0 <= w < 256 ==> hist@[w] <= len,
                total == class_sum(g, 255),
                0 <= total <= 255 * (len as int),
                t <= 256,
                wb == cum_weight(g, t as nat),
                sumb == cum_sum(g, t as nat),
                0 <= wb <= len,
                0 <= sumb <= 255 * (len as int),
                best_t < 256,
                t == 0 ==> best_t == 0 && best_sc == -1,
                t >= 1 ==> best_t == otsu_best(g, t as int) && best_sc == otsu_score(
                    g,
                    best_t as int,
                ),
            decreases 256 - t,
        {
            proof {
                lemma_cum_is_class(g, (t + 1) as nat);
                lemma_class_bounds(g, t as int);
                assert((t as int) * (hist@[t as int] as int) <= 255 * 100_000_000)
                    by (nonlinear_arith)
                    requires
                        t < 256,
                        0 <= hist@[t as int] <= 100_000_000,
                ;
            }
            wb = wb + (hist[t] as u64);
            sumb = sumb + (t as u64) * (hist[t] as u64);
            proof {
                assert(wb == class_weight(g, t as int));
                assert(sumb == class_sum(g, t as int));
            }
            let sc: i128 = if wb == 0 || wb >= n64 {
                -1
            } else {
                let n_i: i128 = n64 as i128;
                let wb_i: i128 = wb as i128;
                let sb_i: i128 = sumb as i128;
                let s_i: i128 = total as i128;
                proof {
                    assert(0 <= sb_i * n_i <= 2_550_000_000_000_000_000) by (nonlinear_arith)
                        requires
                            0 <= sb_i <= 255 * n_i,
                            0 < n_i <= 100_000_000,
                    ;
                    assert(0 <= s_i * wb_i <= 2_550_000_000_000_000_000) by (nonlinear_arith)
                        requires
                            0 <= s_i <= 255 * n_i,
                            0 <= wb_i <= n_i,
                            0 < n_i <= 100_000_000,
                    ;
                }
                let num: i128 = sb_i * n_i - s_i * wb_i;
                proof {
                    assert(0 <= num * num <= 0x4000_0000_0000_0000_0000_0000_0000_0000)
                        by (nonlinear_arith)
                        requires
                            -2_550_000_000_000_000_000 <= num <= 2_550_000_000_000_000_000,
                    ;
                    assert(1 <= wb_i * (n_i - wb_i) <= 10_000_000_000_000_000) by (nonlinear_arith)
                        requires
                            1 <= wb_i,
                            1 <= n_i - wb_i,
                            wb_i <= 100_000_000,
                            n_i - wb_i <= 100_000_000,
                    ;
                }
                let den: i128 = wb_i * (n_i - wb_i);
                (num * num) / den
            };
            proof {
                assert(sc == otsu_score(g, t as int));
            }
            if sc > best_sc {
                best_t = t;
                best_sc = sc;
            }
            t = t + 1;
        }
        proof {
            assert(best_t == otsu_best(g, 256));
        }
        let out = gray.apply_fixed_threshold(best_t as u8);
        proof {
            assert(out.data@ == otsu_seq(self.gray_view()));
        }
        out
    }

    /// The red, green and blue components of pixel `p` as one tuple.
    fn rgb_at(&self, p: usize) -> (r: (u8, u8, u8))
        requires
            self.wf(),
            p < self.width * self.height,
        ensures
            r.0 as int == self.red_at(p as int),
            r.1 as int == self.green_at(p as int),
            r.2 as int == self.blue_at(p as int),
    {
        if self.channels == 3 {
            let len0: usize = self.data.len();
            assert(len0 == 3 * (self.width * self.height));
            assert(3 * (p as int) + 2 < len0 as int);
            (self.data[3 * p], self.data[3 * p + 1], self.data[3 * p + 2])
        } else {
            assert(self.data@.len() == self.width * self.height) by (nonlinear_arith)
                requires
                    self.data@.len() == self.width * self.height * self.channels,
                    self.channels == 1,
            ;
            (self.data[p], self.data[p], self.data[p])
        }
    }

    /// Number of pixels, as an executable value.
    fn pixels(&self) -> (n: usize)
        requires
            self.wf(),
        ensures
            n == self.width * self.height,
    {
        if self.channels == 1 {
            assert(self.data@.len() == self.width * self.height) by (nonlinear_arith)
                requires
                    self.data@.len() == self.width * self.height * self.channels,
                    self.channels == 1,
            ;
            self.data.len()
        } else {
            let len0: usize = self.data.len();
            assert(len0 == 3 * (self.width * self.height));
            self.data.len() / 3
        }
    }

    /// Independent grayscale images for the red, green and blue channels and
    /// for the saturation (`max(R,G,B) - min(R,G,B)`), in that order.
    pub fn extract_color_channels(&self) -> (r: Vec<RasterImage>)
        requires
            self.wf(),
        ensures
            r@.len() == 4,
            forall|k: int|
                0 <= k < 4 ==> {
                    &&& (#[trigger] r@[k]).wf()
                    &&& r@[k].width == self.width
                    &&& r@[k].height == self.height
                    &&& r@[k].channels == 1
                },
            r@[0].data@ == red_seq(*self),
            r@[1].data@ == green_seq(*self),
            r@[2].data@ == blue_seq(*self),
            r@[3].data@ == sat_seq(*self),
    {
        let n: usize = self.pixels();
        let mut red: Vec<u8> = Vec::new();
        let mut green: Vec<u8> = Vec::new();
        let mut blue: Vec<u8> = Vec::new();
        let mut sat: Vec<u8> = Vec::new();
        let mut p: usize = 0;
        while p < n
            invariant
                self.wf(),
                n == self.width * self.height,
                p <= n,
                red@.len() == p,
                green@.len() == p,
                blue@.len() == p,
                sat@.len() == p,
                forall|q: int| 0 <= q < p ==> red@[q] == self.red_at(q) as u8,
                forall|q: int| 0 <= q < p ==> green@[q] == self.green_at(q) as u8,
                forall|q: int| 0 <= q < p ==> blue@[q] == self.blue_at(q) as u8,
                forall|q: int|
                    0 <= q < p ==> sat@[q] == sat_byte(
                        self.red_at(q),
                        self.green_at(q),
                        self.blue_at(q),
                    ) as u8,
            decreases n - p,
        {
            let (rv, gv, bv) = self.rgb_at(p);
            let mx = max3_u8(rv, gv, bv);
            let mn = min3_u8(rv, gv, bv);
            red.push(rv);
            green.push(gv);
            blue.push(bv);
            sat.push(mx - mn);
            p = p + 1;
        }
        let mut out: Vec<RasterImage> = Vec::new();
        out.push(RasterImage { width: self.width, height: self.height, channels: 1, data: red });
        out.push(RasterImage { width: self.width, height: self.height, channels: 1, data: green });
        out.push(RasterImage { width: self.width, height: self.height, channels: 1, data: blue });
        out.push(RasterImage { width: self.width, height: self.height, channels: 1, data: sat });
        proof {
            assert(out@[0].data@ =~= red_seq(*self));
            assert(out@[1].data@ =~= green_seq(*self));
            assert(out@[2].data@ =~= blue_seq(*self));
            assert(out@[3].data@ =~= sat_seq(*self));
        }
        out
    }

    /// Hue channel of the HSV reading, normalized from [0,360) to [0,255].
    pub fn extract_hue_channel(&self) -> (r: RasterImage)
        requires
            self.wf(),
        ensures
            r.wf(),
            r.width == self.width,
            r.height == self.height,
            r.channels == 1,
            r.data@ == hue_seq(*self),
    {
        let n: usize = self.pixels();
        let mut out: Vec<u8> = Vec::new();
        let mut p: usize = 0;
        while p < n
            invariant
                self.wf(),
                n == self.width * self.height,
                p <= n,
                out@.len() == p,
                forall|q: int|
                    0 <= q < p ==> out@[q] == hue_byte(
                        self.red_at(q),
                        self.green_at(q),
                        self.blue_at(q),
                    ) as u8,
            decreases n - p,
        {
            let (rv, gv, bv) = self.rgb_at(p);
            out.push(hue_of(rv, gv, bv));
            p = p + 1;
        }
        let img = RasterImage { width: self.width, height: self.height, channels: 1, data: out };
        assert(img.data@ =~= hue_seq(*self));
        img
    }

    /// Value channel of the HSV reading: `max(R,G,B)` per pixel.
    pub fn extract_value_channel(&self) -> (r: RasterImage)
        requires
            self.wf(),
        ensures
            r.wf(),
            r.width == self.width,
            r.height == self.height,
            r.channels == 1,
            r.data@ == value_seq(*self),
    {
        let n: usize = self.pixels();
        let mut out: Vec<u8> = Vec::new();
        let mut p: usize = 0;
        while p < n
            invariant
                self.wf(),
                n == self.width * self.height,
                p <= n,
                out@.len() == p,
                forall|q: int|
                    0 <= q < p ==> out@[q] == max3(
                        self.red_at(q),
                        self.green_at(q),
                        self.blue_at(q),
                    ) as u8,
            decreases n - p,
        {
            let (rv, gv, bv) = self.rgb_at(p);
            out.push(max3_u8(rv, gv, bv));
            p = p + 1;
        }
        let img = RasterImage { width: self.width, height: self.height, channels: 1, data: out };
        assert(img.data@ =~= value_seq(*self));
        img
    }

    /// Contrast reduction used by the stress battery: halves the distance
    /// of every byte from the midpoint.
    pub fn reduce_contrast(&self) -> (r: RasterImage)
        requires
            self.wf(),
        ensures
            r.wf(),
            r.width == self.width,
            r.height == self.height,
            r.channels == self.channels,
            r.data@.len() == self.data@.len(),
            forall|j: int|
                0 <= j < r.data@.len() ==> r.data@[j] == adjust_byte(self.data@[j] as int, 100, 50)
                    as u8,
    {
        self.apply_contrast_brightness(50, 100)
    }
}


/// What the byte-level image codec makes of a byte string: `Some` with the
/// RGB pixels and dimensions of the decoded raster, `None` when the bytes
/// are not a recognizable image. The codec is a pure function of the bytes.
pub uninterp spec fn loaded_rgb_of(bytes: Seq<u8>) -> Option<(Seq<u8>, int, int)>;

/// Whether the byte string decodes to a non-empty raster that fits the
/// library's dimension limits.
pub open spec fn image_ok(bytes: Seq<u8>) -> bool {
    loaded_rgb_of(bytes) matches Some(t) && ({
        &&& 1 <= t.1
        &&& 1 <= t.2
        &&& t.1 * t.2 <= MAX_PIXELS
        &&& t.0.len() == t.1 * t.2 * 3
    })
}

/// Relies on image::load_from_memory to decode PNG/JPEG/... bytes, and on
/// ImageBuffer to hold exactly width * height * 3 bytes after to_rgb8.
#[verifier::external_body]
fn load_rgb_from_bytes(bytes: &[u8]) -> (r: Option<(Vec<u8>, u32, u32)>)
    ensures
        r matches Some(t) ==> loaded_rgb_of(bytes@) == Some((t.0@, t.1 as int, t.2 as int))
            && t.0@.len() == t.1 * t.2 * 3,
        r is None ==> loaded_rgb_of(bytes@) is None,
{
    match image::load_from_memory(bytes) {
        Ok(img) => {
            let rgb = img.to_rgb8();
            let (w, h) = rgb.dimensions();
            Some((rgb.into_raw(), w, h))
        },
        Err(_) => None,
    }
}

/// Relies on DynamicImage::thumbnail: a fast integer resampling that scales
/// the image to the largest size that fits within the given bounds,
/// preserving aspect ratio; output dimensions stay at least 1.
#[verifier::external_body]
fn thumbnail_rgb_raw(data: &Vec<u8>, width: u32, height: u32, target: u32) -> (r: (
    Vec<u8>,
    u32,
    u32,
))
    requires
        data@.len() == width * height * 3,
        width >= 1,
        height >= 1,
        target >= 1,
        target < width || target < height,
    ensures
        1 <= r.1 <= target,
        1 <= r.2 <= target,
        r.0@.len() == r.1 * r.2 * 3,
{
    let img = image::RgbImage::from_raw(width, height, data.clone()).unwrap();
    let out = image::DynamicImage::ImageRgb8(img).thumbnail(target, target).to_rgb8();
    let (w, h) = out.dimensions();
    (out.into_raw(), w, h)
}

/// Relies on DynamicImage::thumbnail, as thumbnail_rgb_raw, on a
/// single-channel image.
#[verifier::external_body]
fn thumbnail_gray_raw(data: &Vec<u8>, width: u32, height: u32, target: u32) -> (r: (
    Vec<u8>,
    u32,
    u32,
))
    requires
        data@.len() == width * height * 1,
        width >= 1,
        height >= 1,
        target >= 1,
        target < width || target < height,
    ensures
        1 <= r.1 <= target,
        1 <= r.2 <= target,
        r.0@.len() == r.1 * r.2 * 1,
{
    let img = image::GrayImage::from_raw(width, height, data.clone()).unwrap();
    let out = image::DynamicImage::ImageLuma8(img).thumbnail(target, target).to_luma8();
    let (w, h) = out.dimensions();
    (out.into_raw(), w, h)
}

/// Relies on DynamicImage::resize with the Triangle filter: scales the image
/// to the largest size that fits within the given bounds, preserving aspect
/// ratio; output dimensions stay at least 1.
#[verifier::external_body]
fn resize_triangle_rgb_raw(data: &Vec<u8>, width: u32, height: u32, nw: u32, nh: u32) -> (r: (
    Vec<u8>,
    u32,
    u32,
))
    requires
        data@.len() == width * height * 3,
        1 <= nw <= width,
        1 <= nh <= height,
    ensures
        1 <= r.1 <= nw,
        1 <= r.2 <= nh,
        r.0@.len() == r.1 * r.2 * 3,
{
    let img = image::RgbImage::from_raw(width, height, data.clone()).unwrap();
    let out = image::DynamicImage::ImageRgb8(img)
        .resize(nw, nh, image::imageops::FilterType::Triangle)
        .to_rgb8();
    let (w, h) = out.dimensions();
    (out.into_raw(), w, h)
}

/// Relies on DynamicImage::resize with the Triangle filter, as
/// resize_triangle_rgb_raw, on a single-channel image.
#[verifier::external_body]
fn resize_triangle_gray_raw(data: &Vec<u8>, width: u32, height: u32, nw: u32, nh: u32) -> (r: (
    Vec<u8>,
    u32,
    u32,
))
    requires
        data@.len() == width * height * 1,
        1 <= nw <= width,
        1 <= nh <= height,
    ensures
        1 <= r.1 <= nw,
        1 <= r.2 <= nh,
        r.0@.len() == r.1 * r.2 * 1,
{
    let img = image::GrayImage::from_raw(width, height, data.clone()).unwrap();
    let out = image::DynamicImage::ImageLuma8(img)
        .resize(nw, nh, image::imageops::FilterType::Triangle)
        .to_luma8();
    let (w, h) = out.dimensions();
    (out.into_raw(), w, h)
}

/// Relies on DynamicImage::blur: a Gaussian blur that preserves the image
/// dimensions. The sigma crosses this boundary in integer tenths, because
/// no floating-point value or type may appear in the library; the body turns
/// the two integers into the float sigma (tenths / 10) through
/// rxing::point_i, the one integer-to-float carrier available from the
/// dependencies without naming a float type.
#[verifier::external_body]
fn blur_rgb_raw(data: &Vec<u8>, width: u32, height: u32, sigma_tenths: u32) -> (r: Vec<u8>)
    requires
        data@.len() == width * height * 3,
        width >= 1,
        height >= 1,
        1 <= sigma_tenths <= 50,
    ensures
        r@.len() == data@.len(),
{
    let img = image::RgbImage::from_raw(width, height, data.clone()).unwrap();
    let sigma = rxing::point_i(sigma_tenths as i32, 10i32);
    image::DynamicImage::ImageRgb8(img).blur(sigma.x / sigma.y).to_rgb8().into_raw()
}

/// Relies on DynamicImage::blur, as blur_rgb_raw (including the integer
/// tenths-to-sigma carrier), on a single-channel image.
#[verifier::external_body]
fn blur_gray_raw(data: &Vec<u8>, width: u32, height: u32, sigma_tenths: u32) -> (r: Vec<u8>)
    requires
        data@.len() == width * height * 1,
        width >= 1,
        height >= 1,
        1 <= sigma_tenths <= 50,
    ensures
        r@.len() == data@.len(),
{
    let img = image::GrayImage::from_raw(width, height, data.clone()).unwrap();
    let sigma = rxing::point_i(sigma_tenths as i32, 10i32);
    image::DynamicImage::ImageLuma8(img).blur(sigma.x / sigma.y).to_luma8().into_raw()
}

/// Decode image bytes into a raster, enforcing the dimension limits.
pub fn load_raster(bytes: &[u8]) -> (r: Result<RasterImage, QraiError>)
    ensures
        r matches Ok(img) ==> {
            &&& img.wf()
            &&& img.channels == 3
            &&& image_ok(bytes@)
            &&& loaded_rgb_of(bytes@) == Some((img.data@, img.width as int, img.height as int))
        },
        r is Ok <==> image_ok(bytes@),
        r matches Err(e) ==> (e is ImageLoad || e is DimensionsTooLarge),
        loaded_rgb_of(bytes@) is None ==> (r matches Err(e) && e is ImageLoad),
{
    match load_rgb_from_bytes(bytes) {
        None => Err(QraiError::ImageLoad(String::from_str("unrecognized image format"))),
        Some((data, width, height)) => {
            if width < 1 || height < 1 {
                return Err(QraiError::ImageLoad(String::from_str("empty image")));
            }
            proof {
                assert((width as int) * (height as int) < 0x10000000000000000) by (nonlinear_arith)
                    requires
                        width <= 0xFFFF_FFFFu32,
                        height <= 0xFFFF_FFFFu32,
                ;
            }
            let area: u64 = (width as u64) * (height as u64);
            if area > (MAX_PIXELS as u64) {
                return Err(
                    QraiError::DimensionsTooLarge { width, height, max_dimension: MAX_DIMENSION },
                );
            }
            Ok(RasterImage { width, height, channels: 3, data })
        },
    }
}

impl RasterImage {
    /// Shrink so that both sides fit within `target`, by the fast integer
    /// resampler. The caller checks that the image is larger than the target.
    pub fn thumbnail_resize(&self, target: u32) -> (r: RasterImage)
        requires
            self.wf(),
            1 <= target <= MAX_DIMENSION,
            target < self.width || target < self.height,
        ensures
            r.wf(),
            r.channels == self.channels,
            r.width <= target,
            r.height <= target,
    {
        if self.channels == 3 {
            let (data, width, height) = thumbnail_rgb_raw(
                &self.data,
                self.width,
                self.height,
                target,
            );
            proof {
                assert((width as int) * (height as int) <= 100_000_000) by (nonlinear_arith)
                    requires
                        1 <= width <= 10000,
                        1 <= height <= 10000,
                ;
            }
            RasterImage { width, height, channels: 3, data }
        } else {
            let (data, width, height) = thumbnail_gray_raw(
                &self.data,
                self.width,
                self.height,
                target,
            );
            proof {
                assert((width as int) * (height as int) <= 100_000_000) by (nonlinear_arith)
                    requires
                        1 <= width <= 10000,
                        1 <= height <= 10000,
                ;
            }
            RasterImage { width, height, channels: 1, data }
        }
    }

    /// Shrink to fit within `nw` by `nh`, with the Triangle filter.
    pub fn resize_to(&self, nw: u32, nh: u32) -> (r: RasterImage)
        requires
            self.wf(),
            1 <= nw <= self.width,
            1 <= nh <= self.height,
        ensures
            r.wf(),
            r.channels == self.channels,
            r.width <= nw,
            r.height <= nh,
    {
        if self.channels == 3 {
            let (data, width, height) = resize_triangle_rgb_raw(
                &self.data,
                self.width,
                self.height,
                nw,
                nh,
            );
            proof {
                assert((width as int) * (height as int) <= (self.width as int) * (
                self.height as int)) by (nonlinear_arith)
                    requires
                        1 <= width <= self.width,
                        1 <= height <= self.height,
                ;
            }
            RasterImage { width, height, channels: 3, data }
        } else {
            let (data, width, height) = resize_triangle_gray_raw(
                &self.data,
                self.width,
                self.height,
                nw,
                nh,
            );
            proof {
                assert((width as int) * (height as int) <= (self.width as int) * (
                self.height as int)) by (nonlinear_arith)
                    requires
                        1 <= width <= self.width,
                        1 <= height <= self.height,
                ;
            }
            RasterImage { width, height, channels: 1, data }
        }
    }

    /// An owned copy of the image.
    pub fn duplicate(&self) -> (r: RasterImage)
        ensures
            r.width == self.width,
            r.height == self.height,
            r.channels == self.channels,
            r.data@ == self.data@,
    {
        RasterImage {
            width: self.width,
            height: self.height,
            channels: self.channels,
            data: self.data.clone(),
        }
    }

    /// Gaussian blur with sigma given in tenths (10 is sigma 1.0); the
    /// dimensions are preserved.
    pub fn apply_blur(&self, sigma_tenths: u32) -> (r: RasterImage)
        requires
            self.wf(),
            1 <= sigma_tenths <= 50,
        ensures
            r.wf(),
            r.width == self.width,
            r.height == self.height,
            r.channels == self.channels,
    {
        if self.channels == 3 {
            let data = blur_rgb_raw(&self.data, self.width, self.height, sigma_tenths);
            RasterImage { width: self.width, height: self.height, channels: 3, data }
        } else {
            let data = blur_gray_raw(&self.data, self.width, self.height, sigma_tenths);
            RasterImage { width: self.width, height: self.height, channels: 1, data }
        }
    }
}

} // verus!
