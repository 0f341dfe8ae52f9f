use pathtracer::{pack_rgb, path_continues, Image, MAX_DEPTH};

#[test]
fn make_allocates_black_buffer() {
    let mut img = Image::make(3, 2);
    assert_eq!(img.width, 3);
    assert_eq!(img.height, 2);
    assert_eq!(img.pixels.len(), 6);
    for y in 0..2u32 {
        for x in 0..3u32 {
            assert_eq!(*img.pixel(x, y).unwrap(), 0);
        }
    }
}

#[test]
fn pixel_addresses_row_major() {
    let mut img = Image::make(2, 2);
    *img.pixel(0, 0).unwrap() = 10;
    *img.pixel(1, 0).unwrap() = 11;
    *img.pixel(0, 1).unwrap() = 12;
    *img.pixel(1, 1).unwrap() = 13;
    assert_eq!(img.pixels, vec![10, 11, 12, 13]);
}

#[test]
fn pixel_out_of_buffer_is_none() {
    let mut img = Image::make(2, 2);
    assert!(img.pixel(0, 2).is_none());
    assert!(img.pixel(99, 99).is_none());
    // The index is y * width + x, so an x at the row's end still lands in
    // the buffer as long as the flat index does.
    assert!(img.pixel(2, 0).is_some());
    assert!(img.pixel(3, 1).is_none());
}

#[test]
fn pack_rgb_packs_channels() {
    assert_eq!(pack_rgb(0, 0, 0), 0);
    assert_eq!(pack_rgb(255, 0, 0), 0xff0000);
    assert_eq!(pack_rgb(0, 255, 0), 0x00ff00);
    assert_eq!(pack_rgb(0, 0, 255), 0x0000ff);
    assert_eq!(pack_rgb(1, 2, 3), 0x010203);
    assert_eq!(pack_rgb(255, 255, 255), 0xffffff);
}

#[test]
fn path_stops_at_depth_cap() {
    assert_eq!(MAX_DEPTH, 50);
    assert!(path_continues(false, 0));
    assert!(path_continues(false, 49));
    assert!(!path_continues(false, 50));
    assert!(!path_continues(false, 51));
}

#[test]
fn path_stops_on_absorption() {
    assert!(!path_continues(true, 0));
    assert!(!path_continues(true, 49));
}
