use vstd::prelude::*;

use crate::error::RainError;

verus! {

/// Opacity given to every overlay pixel that carries data (125 of 255).
pub const OVERLAY_ALPHA: u8 = 125;

/// An 8-bit RGBA raster, row-major, four bytes per pixel.
pub struct Raster {
    pub width: u32,
    pub height: u32,
    pub pixels: Vec<u8>,
}

impl Raster {
    pub open spec fn count(&self) -> int {
        self.width as int * self.height as int
    }

    pub open spec fn wf(&self) -> bool {
        &&& self.pixels@.len() == self.count() * 4
        &&& self.width > 0
        &&& self.height > 0
    }
}

/// The four channels of pixel `p`.
pub open spec fn px(s: Seq<u8>, p: int) -> Seq<u8> {
    s.subrange(4 * p, 4 * p + 4)
}

/// A pixel whose red, green and blue are all zero carries no data.
pub open spec fn no_data(s: Seq<u8>, p: int) -> bool {
    s[4 * p] == 0 && s[4 * p + 1] == 0 && s[4 * p + 2] == 0
}

/// The overlay pixel `p` as it is laid over the base: its colour, with no
/// opacity where it carries no data and the fixed opacity elsewhere.
pub open spec fn keyed_px(s: Seq<u8>, p: int) -> Seq<u8> {
    seq![s[4 * p], s[4 * p + 1], s[4 * p + 2], if no_data(s, p) { 0u8 } else { OVERLAY_ALPHA }]
}

/// The raster that the image decoder reads from `bytes` (width, height and
/// RGBA pixels), if it reads one.
pub uninterp spec fn decoded_rgba(bytes: Seq<u8>) -> Option<(int, int, Seq<u8>)>;

/// The RGBA pixels of a raster resampled to `new_width` by `new_height`
/// with nearest-neighbour sampling.
pub uninterp spec fn nearest_resized(
    pixels: Seq<u8>,
    width: int,
    height: int,
    new_width: int,
    new_height: int,
) -> Seq<u8>;

/// The pixel that the "over" operator gives for `top` laid on `bottom`.
pub uninterp spec fn blended_pixel(bottom: Seq<u8>, top: Seq<u8>) -> Seq<u8>;

/// Relies on image's `load_from_memory` and `DynamicImage::to_rgba8`: the
/// raster depends on the bytes alone.
#[verifier::external_body]
fn decode_rgba(bytes: &Vec<u8>) -> (r: Option<(u32, u32, Vec<u8>)>)
    ensures
        match r {
            Some((w, h, p)) => decoded_rgba(bytes@) == Some((w as int, h as int, p@)),
            None => decoded_rgba(bytes@) == None::<(int, int, Seq<u8>)>,
        },
{
    match image::load_from_memory(bytes.as_slice()) {
        Ok(img) => {
            let rgba = img.to_rgba8();
            Some((rgba.width(), rgba.height(), rgba.into_raw()))
        },
        Err(_) => None,
    }
}

/// Relies on image's `imageops::resize` with `FilterType::Nearest`: the
/// result has exactly the requested dimensions.
#[verifier::external_body]
fn resize_nearest(pixels: &Vec<u8>, width: u32, height: u32, new_width: u32, new_height: u32) -> (r:
    Vec<u8>)
    requires
        pixels@.len() == width as int * height as int * 4,
        width > 0,
        height > 0,
        new_width > 0,
        new_height > 0,
    ensures
        r@ == nearest_resized(
            pixels@,
            width as int,
            height as int,
            new_width as int,
            new_height as int,
        ),
        r@.len() == new_width as int * new_height as int * 4,
{
    let src = image::RgbaImage::from_raw(width, height, pixels.clone()).expect("sized buffer");
    image::imageops::resize(&src, new_width, new_height, image::imageops::FilterType::Nearest).into_raw()
}

/// Relies on image's `imageops::overlay` at the origin, for two rasters of
/// one size: each bottom pixel becomes the "over" blend of the top pixel on
/// it, and a top pixel with no opacity leaves the bottom pixel as it was.
#[verifier::external_body]
fn overlay_rgba(bottom: &mut Vec<u8>, top: &Vec<u8>, width: u32, height: u32)
    requires
        old(bottom)@.len() == width as int * height as int * 4,
        top@.len() == width as int * height as int * 4,
    ensures
        final(bottom)@.len() == old(bottom)@.len(),
        forall|p: int|
            0 <= p < width as int * height as int ==> #[trigger] px(final(bottom)@, p)
                == blended_pixel(px(old(bottom)@, p), px(top@, p)),
        forall|p: int|
            0 <= p < width as int * height as int && top@[4 * p + 3] == 0 ==> #[trigger] px(
                final(bottom)@,
                p,
            ) == px(old(bottom)@, p),
{
    let mut under = image::RgbaImage::from_raw(width, height, bottom.clone()).expect("sized buffer");
    let over = image::RgbaImage::from_raw(width, height, top.clone()).expect("sized buffer");
    image::imageops::overlay(&mut under, &over, 0, 0);
    *bottom = under.into_raw();
}

/// Decodes an image file's bytes into an RGBA raster.
pub fn decode_raster(bytes: &Vec<u8>) -> (r: Result<Raster, RainError>)
    ensures
        match decoded_rgba(bytes@) {
            Some((w, h, p)) => if w > 0 && h > 0 && p.len() == w * h * 4 {
                r matches Ok(ras) && ras.width == w && ras.height == h && ras.pixels@ == p
            } else {
                r == Err::<Raster, RainError>(RainError::Decode)
            },
            None => r == Err::<Raster, RainError>(RainError::Decode),
        },
        r matches Ok(ras) ==> ras.wf(),
        r is Ok <==> decodes(bytes@),
{
    match decode_rgba(bytes) {
        Some((w, h, p)) => {
            let wide = w as u64;
            let high = h as u64;
            assert(wide * high <= u32::MAX as int * u32::MAX as int) by (nonlinear_arith)
                requires
                    wide <= u32::MAX,
                    high <= u32::MAX,
            ;
            if w > 0 && h > 0 && (p.len() as u64) / 4 == wide * high && p.len() % 4 == 0 {
                Ok(Raster { width: w, height: h, pixels: p })
            } else {
                Err(RainError::Decode)
            }
        },
        None => Err(RainError::Decode),
    }
}

/// Gives each data pixel of `pixels` the fixed opacity and each no-data
/// pixel none; colours are kept.
pub fn key_overlay(pixels: &mut Vec<u8>, count: usize)
    requires
        old(pixels)@.len() == count * 4,
    ensures
        final(pixels)@.len() == old(pixels)@.len(),
        forall|p: int| 0 <= p < count ==> #[trigger] px(final(pixels)@, p) == keyed_px(old(pixels)@, p),
{
    let ghost orig = pixels@;
    let n = pixels.len();
    let mut i: usize = 0;
    while i < count
        invariant
            i <= count,
            pixels@.len() == count * 4,
            n == count * 4,
            orig.len() == count * 4,
            forall|p: int| 0 <= p < i ==> #[trigger] px(pixels@, p) == keyed_px(orig, p),
            forall|k: int| 4 * i <= k < count * 4 ==> pixels@[k] == orig[k],
        decreases count - i,
    {
        let k = 4 * i;
        let blank = pixels[k] == 0 && pixels[k + 1] == 0 && pixels[k + 2] == 0;
        let alpha: u8 = if blank { 0 } else { OVERLAY_ALPHA };
        let ghost before = pixels@;
        pixels.set(k + 3, alpha);
        proof {
            assert(px(pixels@, i as int) =~= keyed_px(orig, i as int));
            assert forall|p: int| 0 <= p < i implies #[trigger] px(pixels@, p) == keyed_px(orig, p) by {
                assert(px(pixels@, p) =~= px(before, p));
            }
        }
        i = i + 1;
    }
}

/// The overlay's pixels resampled to the base's size.
pub open spec fn resized_overlay(base: Raster, overlay: Raster) -> Seq<u8> {
    nearest_resized(
        overlay.pixels@,
        overlay.width as int,
        overlay.height as int,
        base.width as int,
        base.height as int,
    )
}

/// The pixels of the layer made from `base` and a `width` by `height`
/// overlay with pixels `pixels`.
pub open spec fn layer_pixels(base: Raster, width: int, height: int, pixels: Seq<u8>) -> Seq<u8> {
    let resized = nearest_resized(pixels, width, height, base.width as int, base.height as int);
    Seq::new(
        (base.count() * 4) as nat,
        |k: int| blended_pixel(px(base.pixels@, k / 4), keyed_px(resized, k / 4))[k % 4],
    )
}

/// Whether `bytes` decode to a raster that is not empty.
pub open spec fn decodes(bytes: Seq<u8>) -> bool {
    match decoded_rgba(bytes) {
        Some((w, h, p)) => 0 < w <= u32::MAX && 0 < h <= u32::MAX && p.len() == w * h * 4,
        None => false,
    }
}

/// The layer made from `base` and the snapshot file `bytes`, where they
/// decode.
pub open spec fn snapshot_layer(base: Raster, bytes: Seq<u8>) -> Seq<u8> {
    match decoded_rgba(bytes) {
        Some((w, h, p)) => layer_pixels(base, w, h, p),
        None => Seq::empty(),
    }
}

/// A snapshot that decodes gives a layer of the base's size.
pub proof fn lemma_layer_len(base: Raster, bytes: Seq<u8>)
    requires
        decodes(bytes),
    ensures
        snapshot_layer(base, bytes).len() == base.count() * 4,
{
}

/// Lays the snapshot `overlay`, resampled to the base's size, over a copy of
/// `base`: pixels without data leave the base as it is, the others are
/// blended over it at the fixed opacity, whatever their own opacity was.
pub fn blend_layer(base: &Raster, overlay: &Raster) -> (r: Raster)
    requires
        base.wf(),
        overlay.wf(),
    ensures
        r.wf(),
        r.width == base.width,
        r.height == base.height,
        r.pixels@ == layer_pixels(*base, overlay.width as int, overlay.height as int, overlay.pixels@),
        forall|p: int|
            0 <= p < base.count() ==> #[trigger] px(r.pixels@, p) == blended_pixel(
                px(base.pixels@, p),
                keyed_px(resized_overlay(*base, *overlay), p),
            ),
        forall|p: int|
            0 <= p < base.count() && no_data(resized_overlay(*base, *overlay), p) ==> #[trigger] px(
                r.pixels@,
                p,
            ) == px(base.pixels@, p),
        forall|p: int|
            0 <= p < base.count() && !no_data(resized_overlay(*base, *overlay), p) ==> #[trigger] px(
                r.pixels@,
                p,
            ) == blended_pixel(
                px(base.pixels@, p),
                seq![
                    resized_overlay(*base, *overlay)[4 * p],
                    resized_overlay(*base, *overlay)[4 * p + 1],
                    resized_overlay(*base, *overlay)[4 * p + 2],
                    OVERLAY_ALPHA,
                ],
            ),
{
    let count = base.pixels.len() / 4;
    let mut top = resize_nearest(
        &overlay.pixels,
        overlay.width,
        overlay.height,
        base.width,
        base.height,
    );
    let ghost resized = top@;
    key_overlay(&mut top, count);
    let mut layered = base.pixels.clone();
    assert(layered@ =~= base.pixels@);
    overlay_rgba(&mut layered, &top, base.width, base.height);
    assert forall|p: int| 0 <= p < base.count() implies #[trigger] px(top@, p) == keyed_px(
        resized,
        p,
    ) && (top@[4 * p + 3] == 0 <==> no_data(resized, p)) by {
        assert(px(top@, p) == keyed_px(resized, p));
        assert(top@[4 * p + 3] == px(top@, p)[3]);
    }
    let ghost want = layer_pixels(*base, overlay.width as int, overlay.height as int, overlay.pixels@);
    assert forall|k: int| 0 <= k < layered@.len() implies #[trigger] layered@[k] == want[k] by {
        let p = k / 4;
        assert(0 <= p < base.count());
        assert(px(layered@, p)[k % 4] == layered@[k]);
    }
    assert(layered@ =~= want);
    Raster { width: base.width, height: base.height, pixels: layered }
}

} // verus!
