//! Square thumbnails: decode, cover-fit scale, then center-crop.

use vstd::prelude::*;

verus! {

/// Side, in pixels, of the thumbnails shown in the menu.
pub const THUMBNAIL_SIZE: u32 = 32;

/// The RGBA pixels (4 bytes a pixel, row by row), width and height of the
/// image that `data` encodes, or `None` where it is not a readable image.
pub uninterp spec fn decoded_rgba(data: Seq<u8>) -> Option<(Seq<u8>, u32, u32)>;

/// The RGBA pixels of a `w`×`h` RGBA image resampled to `nw`×`nh` with a
/// triangle filter.
pub uninterp spec fn resized_rgba(pixels: Seq<u8>, w: u32, h: u32, nw: u32, nh: u32) -> Seq<u8>;

/// Relies on `image::load_from_memory` and `DynamicImage::to_rgba8`: the
/// decoded image as RGBA, whose buffer holds at least 4 bytes per pixel.
#[verifier::external_body]
fn decode_rgba(data: &Vec<u8>) -> (r: Option<(Vec<u8>, u32, u32)>)
    ensures
        match r {
            None => decoded_rgba(data@) is None,
            Some((px, w, h)) => decoded_rgba(data@) == Some((px@, w, h)) && px@.len() >= 4 * w * h,
        },
{
    match image::load_from_memory(data) {
        Ok(img) => {
            let rgba = img.to_rgba8();
            let (w, h) = rgba.dimensions();
            Some((rgba.into_raw(), w, h))
        },
        Err(_) => None,
    }
}

/// Relies on `image::imageops::resize` with `FilterType::Triangle`: the
/// resampled image, whose buffer has exactly 4 bytes per pixel. The source
/// and target sizes are non-zero and their buffers addressable, as `resize`
/// needs to not panic.
#[verifier::external_body]
fn resize_rgba(pixels: Vec<u8>, w: u32, h: u32, nw: u32, nh: u32) -> (r: Vec<u8>)
    requires
        w > 0,
        h > 0,
        nw > 0,
        nh > 0,
        pixels@.len() >= 4 * w * h,
        4 * w * nh <= usize::MAX,
        4 * nw * nh <= usize::MAX,
    ensures
        r@ == resized_rgba(pixels@, w, h, nw, nh),
        r@.len() == 4 * nw * nh,
{
    let src = image::RgbaImage::from_raw(w, h, pixels).expect("buffer holds the image");
    image::imageops::resize(&src, nw, nh, image::imageops::FilterType::Triangle).into_raw()
}

/// `a / b` rounded to the nearest integer, halves up.
pub open spec fn round_div(a: nat, b: nat) -> nat
    recommends
        b > 0,
{
    a / b + if 2 * (a % b) >= b {
        1nat
    } else {
        0nat
    }
}

/// The size to which a `w`×`h` image is scaled so that it covers a
/// `size`×`size` square: the shorter side becomes `size`, the other keeps
/// the aspect ratio.
pub open spec fn cover_dims(w: nat, h: nat, size: nat) -> (nat, nat) {
    if w <= h {
        (size, round_div(h * size, w))
    } else {
        (round_div(w * size, h), size)
    }
}

/// Offset that centers a window of `size` in a length `len`.
pub open spec fn center_offset(len: nat, size: nat) -> nat {
    if len >= size {
        ((len - size) / 2) as nat
    } else {
        0
    }
}

/// Byte `i` of the `size`×`size` window centered in a `sw`×`sh` RGBA image;
/// a pixel outside the image stays zero.
pub open spec fn crop_byte(src: Seq<u8>, sw: nat, sh: nat, size: nat, i: nat) -> u8 {
    let p = i / 4;
    let sx = p % size + center_offset(sw, size);
    let sy = p / size + center_offset(sh, size);
    if sx < sw && sy < sh {
        src[((sy * sw + sx) * 4 + i % 4) as int]
    } else {
        0
    }
}

/// The `size`×`size` RGBA window centered in a `sw`×`sh` RGBA image.
pub open spec fn center_crop(src: Seq<u8>, sw: nat, sh: nat, size: nat) -> Seq<u8> {
    Seq::new(4 * size * size, |i: int| crop_byte(src, sw, sh, size, i as nat))
}

/// Scaling a non-empty image to cover a non-empty square leaves no side empty.
proof fn lemma_cover_dims_positive(w: nat, h: nat, size: nat)
    requires
        w > 0,
        h > 0,
        size > 0,
    ensures
        cover_dims(w, h, size).0 > 0,
        cover_dims(w, h, size).1 > 0,
{
    if w <= h {
        assert(h * size / w >= 1) by (nonlinear_arith)
            requires
                w <= h,
                w > 0,
                size > 0,
        {
        }
    } else {
        assert(w * size / h >= 1) by (nonlinear_arith)
            requires
                h < w,
                h > 0,
                size > 0,
        {
        }
    }
}

/// Whether the buffers of the scaling step are addressable.
pub open spec fn buffers_fit(w: nat, nw: nat, nh: nat, size: nat) -> bool {
    &&& nw <= u32::MAX
    &&& nh <= u32::MAX
    &&& 4 * w * nh <= usize::MAX
    &&& 4 * nw * nh <= usize::MAX
    &&& 4 * size * size <= usize::MAX
}

/// The thumbnail of side `size` of an image given as RGBA pixels.
pub open spec fn thumbnail_of_pixels(px: Seq<u8>, w: u32, h: u32, size: u32) -> Option<Seq<u8>> {
    let (nw, nh) = cover_dims(w as nat, h as nat, size as nat);
    if w == 0 || h == 0 || size == 0 || !buffers_fit(w as nat, nw, nh, size as nat) {
        None
    } else {
        Some(center_crop(resized_rgba(px, w, h, nw as u32, nh as u32), nw, nh, size as nat))
    }
}

/// The RGBA thumbnail of side `size` of the image that `data` encodes, or
/// `None` where the bytes are no readable image of some pixels.
pub open spec fn thumbnail_of(data: Seq<u8>, size: u32) -> Option<Seq<u8>> {
    match decoded_rgba(data) {
        None => None,
        Some((px, w, h)) => thumbnail_of_pixels(px, w, h, size),
    }
}

/// A square RGBA pixel buffer.
pub struct Thumbnail {
    pub rgba: Vec<u8>,
    pub width: u32,
    pub height: u32,
}

/// `round_div` on machine integers.
fn round_div_u64(a: u64, b: u64) -> (r: u64)
    requires
        b > 0,
        b <= u32::MAX,
    ensures
        r == round_div(a as nat, b as nat),
{
    let q = a / b;
    let m = a % b;
    if 2 * m >= b {
        assert(q < u64::MAX) by (nonlinear_arith)
            requires
                q == a / b,
                m == a % b,
                2 * m >= b,
                b > 0,
        {
        }
        q + 1
    } else {
        q
    }
}

/// Copies the `size`×`size` window centered in a `sw`×`sh` RGBA image.
pub fn center_crop_rgba(src: &Vec<u8>, sw: u32, sh: u32, size: u32) -> (r: Vec<u8>)
    requires
        src@.len() == 4 * sw * sh,
        4 * size * size <= usize::MAX,
    ensures
        r@ == center_crop(src@, sw as nat, sh as nat, size as nat),
{
    let n: usize = src.len();
    let s: usize = size as usize;
    assert(4 * s <= 4 * s * s) by (nonlinear_arith)
        requires
            4 * s * s <= usize::MAX,
    {
    }
    let total: usize = 4 * s * s;
    let xo: usize = if sw >= size { ((sw - size) / 2) as usize } else { 0 };
    let yo: usize = if sh >= size { ((sh - size) / 2) as usize } else { 0 };
    let mut out: Vec<u8> = Vec::new();
    let mut i: usize = 0;
    while i < total
        invariant
            total == 4 * size * size,
            xo == center_offset(sw as nat, size as nat),
            yo == center_offset(sh as nat, size as nat),
            src@.len() == 4 * sw * sh,
            n == src@.len(),
            i <= total,
            out@ == Seq::new(i as nat, |k: int| crop_byte(src@, sw as nat, sh as nat, size as nat, k as nat)),
        decreases total - i,
    {
        let p: usize = i / 4;
        assert(size > 0) by (nonlinear_arith)
            requires
                i < total,
                total == 4 * size * size,
        {
        }
        let sx: usize = p % (size as usize) + xo;
        let sy: usize = p / (size as usize) + yo;
        let b: u8 = if sx < sw as usize && sy < sh as usize {
            let sw_u: usize = sw as usize;
            assert(sy * sw_u + sx < sw * sh) by (nonlinear_arith)
                requires
                    sx < sw_u,
                    sy < sh,
                    sw_u == sw,
            {
            }
            assert(sy * sw_u <= 4 * sw * sh) by (nonlinear_arith)
                requires
                    sy < sh,
                    sw_u == sw,
            {
            }
            let row: usize = sy * sw_u;
            assert((row + sx) * 4 + 3 < 4 * sw * sh) by (nonlinear_arith)
                requires
                    row + sx < sw * sh,
            {
            }
            src[(row + sx) * 4 + i % 4]
        } else {
            0
        };
        out.push(b);
        i = i + 1;
        assert(out@ =~= Seq::new(i as nat, |k: int| crop_byte(src@, sw as nat, sh as nat, size as nat, k as nat)));
    }
    out
}

/// The thumbnail of side `size` of an image given as RGBA pixels.
pub fn thumbnail_from_pixels(px: Vec<u8>, w: u32, h: u32, size: u32) -> (r: Option<Thumbnail>)
    requires
        px@.len() >= 4 * w * h,
    ensures
        match r {
            None => thumbnail_of_pixels(px@, w, h, size) is None,
            Some(t) => thumbnail_of_pixels(px@, w, h, size) == Some(t.rgba@) && t.width == size
                && t.height == size,
        },
{
    if w == 0 || h == 0 || size == 0 {
        return None;
    }
    assert((h as u64) * (size as u64) <= u64::MAX && (w as u64) * (size as u64) <= u64::MAX)
        by (nonlinear_arith)
        requires
            h <= u32::MAX,
            w <= u32::MAX,
            size <= u32::MAX,
    {
    }
    let (nw, nh): (u64, u64) = if w <= h {
        (size as u64, round_div_u64(h as u64 * size as u64, w as u64))
    } else {
        (round_div_u64(w as u64 * size as u64, h as u64), size as u64)
    };
    proof {
        lemma_cover_dims_positive(w as nat, h as nat, size as nat);
    }
    if nw > u32::MAX as u64 || nh > u32::MAX as u64 {
        return None;
    }
    let lim: u128 = usize::MAX as u128;
    assert(4 * (w as u128) * (nh as u128) <= u128::MAX && 4 * (nw as u128) * (nh as u128)
        <= u128::MAX && 4 * (size as u128) * (size as u128) <= u128::MAX) by (nonlinear_arith)
        requires
            w <= u32::MAX,
            nw <= u32::MAX,
            nh <= u32::MAX,
            size <= u32::MAX,
    {
    }
    if 4 * (w as u128) * (nh as u128) > lim || 4 * (nw as u128) * (nh as u128) > lim || 4
        * (size as u128) * (size as u128) > lim {
        return None;
    }
    let scaled = resize_rgba(px, w, h, nw as u32, nh as u32);
    let rgba = center_crop_rgba(&scaled, nw as u32, nh as u32, size);
    Some(Thumbnail { rgba, width: size, height: size })
}

/// Generates the RGBA thumbnail of side `size` of the image that `data`
/// encodes: scaled to cover the square, then cropped to its center.
pub fn generate_thumbnail(data: &Vec<u8>, size: u32) -> (r: Option<Thumbnail>)
    ensures
        match r {
            None => thumbnail_of(data@, size) is None,
            Some(t) => thumbnail_of(data@, size) == Some(t.rgba@) && t.width == size && t.height
                == size,
        },
{
    match decode_rgba(data) {
        None => None,
        Some((px, w, h)) => thumbnail_from_pixels(px, w, h, size),
    }
}

/// Generating a thumbnail is a function of the image bytes: equal bytes give
/// equal thumbnails.
pub proof fn lemma_thumbnail_deterministic(a: Seq<u8>, b: Seq<u8>, size: u32)
    requires
        a == b,
    ensures
        thumbnail_of(a, size) == thumbnail_of(b, size),
{
}

/// Every readable image of some pixels whose scaled buffers are
/// addressable yields a thumbnail of exactly `size`×`size` RGBA pixels.
pub proof fn lemma_thumbnail_exists(data: Seq<u8>, size: u32)
    requires
        size > 0,
        decoded_rgba(data) matches Some((px, w, h)) && w > 0 && h > 0 && buffers_fit(
            w as nat,
            cover_dims(w as nat, h as nat, size as nat).0,
            cover_dims(w as nat, h as nat, size as nat).1,
            size as nat,
        ),
    ensures
        thumbnail_of(data, size) matches Some(px) && px.len() == 4 * size * size,
{
}

/// A generated thumbnail always holds exactly `size`×`size` RGBA pixels,
/// whatever the aspect ratio of the source.
pub proof fn lemma_thumbnail_is_square(data: Seq<u8>, size: u32)
    ensures
        thumbnail_of(data, size) matches Some(px) ==> px.len() == 4 * size * size,
{
}

} // verus!
