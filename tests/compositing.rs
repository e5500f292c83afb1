use image::Pixel;
use rain_sg::compose::{blend_layer, decode_raster, key_overlay, Raster, OVERLAY_ALPHA};
use rain_sg::error::RainError;

fn png(w: u32, h: u32, pixels: Vec<u8>) -> Vec<u8> {
    let img = image::RgbaImage::from_raw(w, h, pixels).unwrap();
    let mut out = std::io::Cursor::new(Vec::new());
    img.write_to(&mut out, image::ImageOutputFormat::Png).unwrap();
    out.into_inner()
}

fn over(bottom: [u8; 4], top: [u8; 4]) -> [u8; 4] {
    let mut b = image::Rgba(bottom);
    b.blend(&image::Rgba(top));
    b.0
}

#[test]
fn keying_sets_alpha() {
    let mut px = vec![0, 0, 0, 255, 10, 0, 0, 3, 0, 0, 1, 255];
    key_overlay(&mut px, 3);
    assert_eq!(px, vec![0, 0, 0, 0, 10, 0, 0, OVERLAY_ALPHA, 0, 0, 1, 125]);
}

#[test]
fn decode_round_trip() {
    let bytes = png(2, 1, vec![1, 2, 3, 4, 5, 6, 7, 8]);
    let r = decode_raster(&bytes).unwrap();
    assert_eq!((r.width, r.height), (2, 1));
    assert_eq!(r.pixels, vec![1, 2, 3, 4, 5, 6, 7, 8]);
}

#[test]
fn decode_refuses_garbage() {
    assert!(matches!(decode_raster(&vec![1, 2, 3]), Err(RainError::Decode)));
    assert!(matches!(decode_raster(&Vec::new()), Err(RainError::Decode)));
}

#[test]
fn black_overlay_leaves_base() {
    let base = Raster { width: 2, height: 1, pixels: vec![9, 80, 200, 255, 40, 50, 60, 255] };
    let overlay = Raster { width: 2, height: 1, pixels: vec![0, 0, 0, 255, 0, 0, 0, 0] };
    let out = blend_layer(&base, &overlay);
    assert_eq!(out.pixels, base.pixels);
}

#[test]
fn data_pixels_blend_at_fixed_alpha() {
    let base = Raster { width: 2, height: 1, pixels: vec![0, 0, 255, 255, 0, 0, 255, 255] };
    let a = Raster { width: 2, height: 1, pixels: vec![255, 0, 0, 255, 255, 0, 0, 7] };
    let out = blend_layer(&base, &a);
    let want = over([0, 0, 255, 255], [255, 0, 0, 125]);
    assert_eq!(&out.pixels[0..4], &want);
    assert_eq!(&out.pixels[4..8], &want);
    assert_ne!(&out.pixels[0..4], &[255, 0, 0, 255]);
    assert_ne!(&out.pixels[0..4], &[0, 0, 255, 255]);
}

#[test]
fn overlay_is_resized_to_base() {
    let base = Raster { width: 2, height: 2, pixels: vec![0, 0, 255, 255].repeat(4) };
    let small = Raster { width: 1, height: 1, pixels: vec![255, 0, 0, 255] };
    let out = blend_layer(&base, &small);
    assert_eq!((out.width, out.height), (2, 2));
    assert_eq!(out.pixels.len(), 16);
    let want = over([0, 0, 255, 255], [255, 0, 0, 125]);
    for p in 0..4 {
        assert_eq!(&out.pixels[4 * p..4 * p + 4], &want);
    }
}

#[test]
fn larger_overlay_is_sampled_down() {
    let base = Raster { width: 1, height: 1, pixels: vec![0, 255, 0, 255] };
    let big = Raster { width: 2, height: 2, pixels: vec![0, 0, 0, 255].repeat(4) };
    let out = blend_layer(&base, &big);
    assert_eq!(out.pixels, vec![0, 255, 0, 255]);
}
