use pathtracer::Image;

#[test]
fn ppm_single_pixel() {
    let mut img = Image::make(1, 1);
    *img.pixel(0, 0).unwrap() = 0x00112233;
    let bytes = img.ppm_bytes();
    assert_eq!(bytes, b"P3\n1 1\n255\n17 34 51\n".to_vec());
}

#[test]
fn ppm_lists_top_row_first() {
    let mut img = Image::make(1, 2);
    *img.pixel(0, 0).unwrap() = 1; // bottom buffer row
    *img.pixel(0, 1).unwrap() = 2; // top buffer row
    let bytes = img.ppm_bytes();
    assert_eq!(bytes, b"P3\n1 2\n255\n0 0 2\n0 0 1\n".to_vec());
}

#[test]
fn ppm_decimal_channel_widths() {
    let mut img = Image::make(1, 1);
    *img.pixel(0, 0).unwrap() = 0x000009ff;
    let bytes = img.ppm_bytes();
    assert_eq!(bytes, b"P3\n1 1\n255\n0 9 255\n".to_vec());
}

#[test]
fn ppm_empty_image_is_header_only() {
    let img = Image::make(0, 0);
    assert_eq!(img.ppm_bytes(), b"P3\n0 0\n255\n".to_vec());
    let tall = Image::make(0, 5);
    assert_eq!(tall.ppm_bytes(), b"P3\n0 5\n255\n".to_vec());
}

#[test]
fn ppm_header_dimensions_in_decimal() {
    let img = Image::make(200, 100);
    let bytes = img.ppm_bytes();
    assert!(bytes.starts_with(b"P3\n200 100\n255\n"));
    // one "R G B" line per pixel
    let body = &bytes[b"P3\n200 100\n255\n".len()..];
    assert_eq!(body.iter().filter(|&&b| b == b'\n').count(), 200 * 100);
}
