use raytracer::texture::ImageTexture;

#[test]
fn new_keeps_dimensions() {
    let pixels = vec![0u8; 3 * 2 * 4];
    let tex = ImageTexture::new(3, 2, pixels);
    assert_eq!(tex.width(), 3);
    assert_eq!(tex.height(), 2);
}

#[test]
fn pixel_reads_the_right_bytes() {
    // 2x2 texture; each pixel's bytes are distinct.
    let pixels = vec![
        10, 11, 12, 13, // (0, 0)
        20, 21, 22, 23, // (1, 0)
        30, 31, 32, 33, // (0, 1)
        40, 41, 42, 43, // (1, 1)
    ];
    let tex = ImageTexture::new(2, 2, pixels);
    assert_eq!(tex.pixel(0, 0), (10, 11, 12, 13));
    assert_eq!(tex.pixel(1, 0), (20, 21, 22, 23));
    assert_eq!(tex.pixel(0, 1), (30, 31, 32, 33));
    assert_eq!(tex.pixel(1, 1), (40, 41, 42, 43));
}

#[test]
fn zero_sized_texture_is_representable() {
    let tex = ImageTexture::new(0, 5, Vec::new());
    assert_eq!(tex.width(), 0);
    assert_eq!(tex.height(), 5);
}
