use edgeml::layout::{PLANE_LEN, TABLE_LEN, TENSOR_LEN};
use edgeml::pipeline::{preprocess, InferError};

fn level_table() -> Vec<u32> {
    (0..TABLE_LEN as u32).map(|i| i % 256).collect()
}

fn solid_jpeg(width: u32, height: u32, rgb: [u8; 3]) -> Vec<u8> {
    let img = image::RgbImage::from_pixel(width, height, image::Rgb(rgb));
    let mut out = Vec::new();
    image::codecs::jpeg::JpegEncoder::new_with_quality(&mut out, 100)
        .encode_image(&img)
        .unwrap();
    out
}

#[test]
fn malformed_bytes_are_a_decode_error() {
    assert_eq!(preprocess(b"not an image at all", &level_table()), Err(InferError::Decode));
    assert_eq!(preprocess(&[], &level_table()), Err(InferError::Decode));
    assert_eq!(preprocess(&[0xff, 0xd8, 0xff, 0xe0, 0, 16], &level_table()), Err(InferError::Decode));
}

#[test]
fn valid_image_after_malformed_one_still_works() {
    assert_eq!(preprocess(b"garbage", &level_table()), Err(InferError::Decode));
    let t = preprocess(&solid_jpeg(40, 30, [200, 100, 50]), &level_table()).unwrap();
    assert_eq!(t.len(), TENSOR_LEN);
}

#[test]
fn small_image_is_resized_to_model_input() {
    let t = preprocess(&solid_jpeg(16, 8, [200, 100, 50]), &level_table()).unwrap();
    assert_eq!(t.len(), TENSOR_LEN);
    for (c, want) in [200i64, 100, 50].iter().enumerate() {
        for p in [0, 1234, PLANE_LEN - 1] {
            let got = t[c * PLANE_LEN + p] as i64;
            assert!((got - want).abs() <= 4, "channel {c} pixel {p}: {got}");
        }
    }
}

#[test]
fn large_image_is_resized_to_model_input() {
    let t = preprocess(&solid_jpeg(500, 375, [10, 240, 128]), &level_table()).unwrap();
    assert_eq!(t.len(), TENSOR_LEN);
    let got = t[PLANE_LEN + 100] as i64;
    assert!((got - 240).abs() <= 4);
}
