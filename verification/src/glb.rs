//! Textures of the binary glTF (GLB) model loader: decoded RGB textures,
//! their average color, and turning a model's raw image pixels into a
//! small RGB texture with the `image` crate; and the merging of a mesh's
//! primitive index lists.

use vstd::prelude::*;

verus! {

/// A decoded RGB texture, row-major, 3 bytes per pixel.
#[derive(Clone, Debug, PartialEq, Eq)]
pub struct RgbTex {
    pub w: u32,
    pub h: u32,
    pub px: Vec<u8>,
}

/// The sum of the bytes of `px[..k]` at positions `c`, `c + 3`, `c + 6`, …
pub open spec fn channel_sum(px: Seq<u8>, c: int, k: int) -> int
    decreases k,
{
    if k <= 0 {
        0
    } else {
        channel_sum(px, c, k - 1) + if (k - 1) % 3 == c {
            px[k - 1] as int
        } else {
            0
        }
    }
}

/// `a / n` rounded to the nearest integer, halves away from zero, and
/// capped at 255.
pub open spec fn rounded_mean(a: int, n: int) -> int {
    let r = (2 * a + n) / (2 * n);
    if r > 255 {
        255
    } else {
        r
    }
}

/// The average of channel `c` of a texture's bytes: the channel's sum over
/// the number of whole pixels (at least 1), rounded and capped at 255.
pub open spec fn channel_average(px: Seq<u8>, c: int) -> int {
    let n = if px.len() / 3 > 1 {
        px.len() / 3
    } else {
        1
    };
    rounded_mean(channel_sum(px, c, px.len() as int), n as int)
}

proof fn lemma_channel_sum_bound(px: Seq<u8>, c: int, k: int)
    requires
        0 <= k <= px.len(),
    ensures
        0 <= channel_sum(px, c, k) <= 255 * k,
    decreases k,
{
    if k > 0 {
        lemma_channel_sum_bound(px, c, k - 1);
    }
}

impl RgbTex {
    /// The average color of the texture (fallback when UVs are missing);
    /// white for an empty texture.
    pub fn average(&self) -> (avg: [u8; 3])
        ensures
            self.px@.len() == 0 ==> avg@ == seq![255u8, 255u8, 255u8],
            self.px@.len() > 0 ==> avg@ == seq![
                channel_average(self.px@, 0) as u8,
                channel_average(self.px@, 1) as u8,
                channel_average(self.px@, 2) as u8,
            ],
    {
        if self.px.len() == 0 {
            return [255, 255, 255];
        }
        let mut acc: [u128; 3] = [0, 0, 0];
        let mut i: usize = 0;
        while i < self.px.len()
            invariant
                i <= self.px@.len(),
                acc@[0] == channel_sum(self.px@, 0, i as int),
                acc@[1] == channel_sum(self.px@, 1, i as int),
                acc@[2] == channel_sum(self.px@, 2, i as int),
            decreases self.px@.len() - i,
        {
            proof {
                lemma_channel_sum_bound(self.px@, 0, i as int);
                lemma_channel_sum_bound(self.px@, 1, i as int);
                lemma_channel_sum_bound(self.px@, 2, i as int);
            }
            let c = i % 3;
            let v = acc[c] + self.px[i] as u128;
            acc[c] = v;
            i = i + 1;
        }
        let third = self.px.len() / 3;
        let n: u128 = if third > 1 {
            third as u128
        } else {
            1
        };
        proof {
            lemma_channel_sum_bound(self.px@, 0, self.px@.len() as int);
            lemma_channel_sum_bound(self.px@, 1, self.px@.len() as int);
            lemma_channel_sum_bound(self.px@, 2, self.px@.len() as int);
        }
        let r0 = mean_byte(acc[0], n);
        let r1 = mean_byte(acc[1], n);
        let r2 = mean_byte(acc[2], n);
        let avg = [r0, r1, r2];
        assert(avg@ =~= seq![
            channel_average(self.px@, 0) as u8,
            channel_average(self.px@, 1) as u8,
            channel_average(self.px@, 2) as u8,
        ]);
        avg
    }
}

/// `a / n` rounded (halves away from zero) and capped at 255.
fn mean_byte(a: u128, n: u128) -> (r: u8)
    requires
        n >= 1,
        a <= 255 * 0x1_0000_0000_0000_0000,
        n <= 0x1_0000_0000_0000_0000,
    ensures
        r == rounded_mean(a as int, n as int),
{
    let q = (2 * a + n) / (2 * n);
    if q > 255 {
        255
    } else {
        q as u8
    }
}

/// The pixel layouts a model's embedded image can come in that the loader
/// decodes: 8-bit RGB and 8-bit RGBA; anything else is skipped.
#[derive(Clone, Copy, Debug, PartialEq, Eq, Structural)]
pub enum PixelFormat {
    R8G8B8,
    R8G8B8A8,
    Other,
}

/// The bytes per pixel of a decodable layout.
pub open spec fn channels(f: PixelFormat) -> int {
    match f {
        PixelFormat::R8G8B8 => 3,
        PixelFormat::R8G8B8A8 => 4,
        PixelFormat::Other => 0,
    }
}

/// The bytes a `w` x `h` image of 8-bit RGB (or RGBA) pixels takes.
pub open spec fn bytes_needed(w: u32, h: u32, alpha: bool) -> int {
    (if alpha {
        4int
    } else {
        3int
    }) * w * h
}

/// Scaling a `w` x `h` image to cover a `side` x `side` square keeps both
/// scaled sides (the longer one is about `side * w / h` or `side * h / w`)
/// within `u32`, with a margin for rounding. Then the scaled image covers
/// the square and the crop is exactly `side` x `side`. Past that,
/// `resize_to_fill` clamps the long side to `u32::MAX` pixels and asks for
/// an image of that length, more than memory holds (and the crop would come
/// out smaller than the square).
pub open spec fn fill_fits(w: u32, h: u32, side: u32) -> bool {
    side * w <= (u32::MAX - 1) * h && side * h <= (u32::MAX - 1) * w
}

/// Builds a `w` x `h` image from the 8-bit RGB bytes `px`
/// (`RgbImage::from_raw`: `None` when `px` is too short for `w * h`
/// pixels), scales it to cover a `side` x `side` square and crops it to
/// that square (`DynamicImage::resize_to_fill`, Lanczos3 filter), and
/// returns it as 8-bit RGB (`to_rgb8`): width, height and bytes. Claimed:
/// `None` exactly when the bytes are too few; otherwise the image is exactly
/// `side` x `side`, three bytes per pixel. Its pixel values are not claimed:
/// the Lanczos3 weights come from `f32::sin`, whose precision std leaves
/// unspecified, so they may differ from one platform or run to another.
/// `requires` leaves out the empty image and the sizes past [`fill_fits`].
#[verifier::external_body]
fn resize_rgb8(px: &[u8], w: u32, h: u32, side: u32) -> (r: Option<(u32, u32, Vec<u8>)>)
    requires
        w > 0 && h > 0 && side > 0,
        fill_fits(w, h, side),
    ensures
        r is Some <==> bytes_needed(w, h, false) <= px@.len(),
        r matches Some(t) ==> t.0 == side && t.1 == side && t.2@.len() == 3 * t.0 * t.1,
{
    let img: image::DynamicImage = image::RgbImage::from_raw(w, h, px.to_vec())?.into();
    let out = img.resize_to_fill(side, side, image::imageops::FilterType::Lanczos3).to_rgb8();
    Some((out.width(), out.height(), out.into_raw()))
}

/// As [`resize_rgb8`], from 8-bit RGBA bytes (`RgbaImage::from_raw`: `None`
/// when `px` is too short for `w * h` pixels of four bytes); the result is
/// 8-bit RGB (`to_rgb8` drops the alpha). The same claims, and the same
/// pixel values left unclaimed.
#[verifier::external_body]
fn resize_rgba8(px: &[u8], w: u32, h: u32, side: u32) -> (r: Option<(u32, u32, Vec<u8>)>)
    requires
        w > 0 && h > 0 && side > 0,
        fill_fits(w, h, side),
    ensures
        r is Some <==> bytes_needed(w, h, true) <= px@.len(),
        r matches Some(t) ==> t.0 == side && t.1 == side && t.2@.len() == 3 * t.0 * t.1,
{
    let img: image::DynamicImage = image::RgbaImage::from_raw(w, h, px.to_vec())?.into();
    let out = img.resize_to_fill(side, side, image::imageops::FilterType::Lanczos3).to_rgb8();
    Some((out.width(), out.height(), out.into_raw()))
}

/// Turn decoded raw pixels into an RGB texture, scaled and cropped to a
/// `max_side` x `max_side` square (keeps memory small; the software
/// rasterizer only needs per-triangle color samples). `None` for an
/// unsupported layout or too few bytes for `w` x `h` pixels.
pub fn decode_pixels(px: &[u8], format: PixelFormat, w: u32, h: u32, max_side: u32) -> (t: Option<
    RgbTex,
>)
    requires
        w > 0 && h > 0 && max_side > 0,
        fill_fits(w, h, max_side),
    ensures
        t is Some <==> format != PixelFormat::Other && channels(format) * w * h <= px@.len(),
        t matches Some(tex) ==> tex.w == max_side && tex.h == max_side && tex.px@.len() == 3
            * tex.w * tex.h,
{
    let r = match format {
        PixelFormat::R8G8B8 => resize_rgb8(px, w, h, max_side),
        PixelFormat::R8G8B8A8 => resize_rgba8(px, w, h, max_side),
        PixelFormat::Other => return None,
    };
    match r {
        Some((nw, nh, data)) => Some(RgbTex { w: nw, h: nh, px: data }),
        None => None,
    }
}

/// The vertex indices of a mesh primitive, offset by `base` (the number of
/// vertices of the mesh's earlier primitives) so they index the merged
/// vertex list; `None` if an offset index would pass `u32::MAX`.
pub fn rebase_indices(base: u32, idx: &Vec<u32>) -> (r: Option<Vec<u32>>)
    ensures
        r is Some <==> forall|k: int| 0 <= k < idx@.len() ==> base + #[trigger] idx@[k] <= u32::MAX,
        r matches Some(v) ==> v@.len() == idx@.len() && forall|k: int|
            0 <= k < idx@.len() ==> #[trigger] v@[k] == base + idx@[k],
{
    let mut v: Vec<u32> = Vec::new();
    let mut k: usize = 0;
    while k < idx.len()
        invariant
            k <= idx@.len(),
            v@.len() == k,
            forall|j: int| 0 <= j < k ==> #[trigger] v@[j] == base + idx@[j],
            forall|j: int| 0 <= j < k ==> base + #[trigger] idx@[j] <= u32::MAX,
        decreases idx@.len() - k,
    {
        let i = idx[k];
        if i > u32::MAX - base {
            return None;
        }
        v.push(base + i);
        k = k + 1;
    }
    Some(v)
}

} // verus!
