use pathtracer::color::{channel_byte, rgb_bytes};
use pathtracer::image::{EncodeError, Image};

fn level(c: f32) -> i64 {
    (c * 255.999).floor() as i64
}

#[test]
fn white_quantizes_to_full_bytes() {
    let c = 1.0f32.sqrt();
    assert_eq!(rgb_bytes([level(c), level(c), level(c)]), [255, 255, 255]);
}

#[test]
fn black_quantizes_to_zero_bytes() {
    let c = 0.0f32.sqrt();
    assert_eq!(rgb_bytes([level(c), level(c), level(c)]), [0, 0, 0]);
}

#[test]
fn mid_gray_quantizes_to_its_level() {
    assert_eq!(channel_byte(level(0.5)), 127);
    assert_eq!(rgb_bytes([level(0.25), level(0.5), level(0.75)]), [63, 127, 191]);
}

#[test]
fn out_of_range_channels_saturate() {
    assert_eq!(channel_byte(level(1.5)), 255);
    assert_eq!(channel_byte(level(-0.2)), 0);
    assert_eq!(channel_byte(level(-0.001)), 0);
    assert_eq!(channel_byte(i64::MAX), 255);
    assert_eq!(channel_byte(i64::MIN), 0);
    assert_eq!(channel_byte(256), 255);
    assert_eq!(channel_byte(-1), 0);
}

#[test]
fn new_image_is_black() {
    let img = Image::new(3, 2);
    assert_eq!(img.width(), 3);
    assert_eq!(img.height(), 2);
    assert_eq!(img.as_bytes().len(), 18);
    assert!(img.as_bytes().iter().all(|&b| b == 0));
}

#[test]
fn bottom_row_is_stored_last() {
    let mut img = Image::new(2, 2);
    img.set_pixel(1, 0, [1, 2, 3]);
    img.set_pixel(0, 1, [4, 5, 6]);
    assert_eq!(img.as_bytes(), &vec![4, 5, 6, 0, 0, 0, 0, 0, 0, 1, 2, 3]);
}

#[test]
fn empty_image_is_not_encoded() {
    assert_eq!(Image::new(0, 4).encode_png(), Err(EncodeError::Empty));
    assert_eq!(Image::new(4, 0).encode_png(), Err(EncodeError::Empty));
}

#[test]
fn encoded_image_is_a_png_of_its_pixels() {
    let mut img = Image::new(2, 1);
    img.set_pixel(0, 0, [255, 0, 0]);
    img.set_pixel(1, 0, [0, 0, 255]);
    let png = img.encode_png().unwrap();
    assert_eq!(&png[..8], &[137, 80, 78, 71, 13, 10, 26, 10]);
    let decoded = lodepng::decode24(&png).unwrap();
    assert_eq!(decoded.width, 2);
    assert_eq!(decoded.height, 1);
    let px: Vec<(u8, u8, u8)> = decoded.buffer.iter().map(|p| (p.r, p.g, p.b)).collect();
    assert_eq!(px, vec![(255, 0, 0), (0, 0, 255)]);
}
