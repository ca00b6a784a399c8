use hobby::error::HobbyError;
use hobby::gpu::texture::texture_image_from_bytes;

fn jpeg(pixels: &[u8], width: u32, height: u32) -> Vec<u8> {
    let mut bytes: Vec<u8> = Vec::new();
    image::jpeg::JPEGEncoder::new_with_quality(&mut bytes, 100)
        .encode(pixels, width, height, image::ColorType::RGB(8))
        .unwrap();
    bytes
}

#[test]
fn decodes_a_jpeg_texture_to_rgba() {
    let bytes = jpeg(&[200, 200, 200, 200, 200, 200, 200, 200, 200], 3, 1);
    let img = texture_image_from_bytes(&bytes).unwrap();
    assert_eq!((img.width, img.height), (3, 1));
    assert_eq!(img.pixels.len(), 12);
    for pixel in img.pixels.chunks(4) {
        assert_eq!(pixel[3], 255);
        for &channel in &pixel[..3] {
            assert!(channel >= 190 && channel <= 210);
        }
    }
}

#[test]
fn refuses_bytes_that_are_not_a_jpeg() {
    assert!(matches!(
        texture_image_from_bytes(&vec![1, 2, 3, 4]),
        Err(HobbyError::InvalidTextureImage)
    ));
    assert!(matches!(texture_image_from_bytes(&vec![]), Err(HobbyError::InvalidTextureImage)));
}

#[test]
fn decoded_pixels_are_four_bytes_each() {
    let bytes = jpeg(&[10; 2 * 3 * 3], 2, 3);
    let img = texture_image_from_bytes(&bytes).unwrap();
    assert_eq!((img.width, img.height), (2, 3));
    assert_eq!(img.pixels.len(), 4 * 2 * 3);
}
