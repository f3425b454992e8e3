use obs_shell::graphics::texture::{decode_image, TextureError};

fn png_bytes(width: u32, height: u32) -> (Vec<u8>, Vec<u8>) {
    let mut pixels: Vec<u8> = Vec::new();
    for i in 0..(width * height) {
        pixels.push((i % 251) as u8);
        pixels.push((i * 7 % 256) as u8);
        pixels.push(200);
        pixels.push(255);
    }
    let img = image::RgbaImage::from_raw(width, height, pixels.clone()).unwrap();
    let mut out = std::io::Cursor::new(Vec::new());
    img.write_to(&mut out, image::ImageFormat::Png).unwrap();
    (out.into_inner(), pixels)
}

#[test]
fn png_decodes_to_its_size() {
    let (bytes, _) = png_bytes(5, 3);
    let img = decode_image(&bytes).ok().unwrap();
    assert_eq!(img.width, 5);
    assert_eq!(img.height, 3);
}

#[test]
fn png_decodes_to_its_pixels() {
    let (bytes, pixels) = png_bytes(4, 7);
    let img = decode_image(&bytes).ok().unwrap();
    assert_eq!(img.rgba.len(), 4 * 4 * 7);
    assert_eq!(img.rgba, pixels);
}

#[test]
fn one_pixel_png() {
    let (bytes, _) = png_bytes(1, 1);
    let img = decode_image(&bytes).ok().unwrap();
    assert_eq!((img.width, img.height), (1, 1));
}

#[test]
fn non_image_bytes_fail_to_decode() {
    let r = decode_image(b"this is not an image");
    assert!(matches!(r, Err(TextureError::Decode(_))));
}

#[test]
fn empty_bytes_fail_to_decode() {
    let r = decode_image(&[]);
    assert!(matches!(r, Err(TextureError::Decode(_))));
}

#[test]
fn bmp_decodes_to_its_size_and_rgba() {
    let img = image::RgbImage::from_raw(2, 1, vec![10, 20, 30, 40, 50, 60]).unwrap();
    let mut out = std::io::Cursor::new(Vec::new());
    img.write_to(&mut out, image::ImageFormat::Bmp).unwrap();
    let decoded = decode_image(&out.into_inner()).ok().unwrap();
    assert_eq!((decoded.width, decoded.height), (2, 1));
    assert_eq!(decoded.rgba, vec![10, 20, 30, 255, 40, 50, 60, 255]);
}
