use compositor::codec::pack;
use compositor::codec::unpack;
use compositor::codec::unpack_pixels;

#[test]
fn pack_lays_out_channels_most_to_least_significant() {
    assert_eq!(pack(0xFF, 0x00, 0x00, 0xFF), 0xFF0000FF);
    assert_eq!(pack(0x00, 0xFF, 0x00, 0x77), 0x00FF0077);
    assert_eq!(pack(0x00, 0x00, 0xFF, 0xFF), 0x0000FFFF);
    assert_eq!(pack(0x12, 0x34, 0x56, 0x78), 0x12345678);
}

#[test]
fn unpack_extracts_channels_in_rgba_order() {
    assert_eq!(unpack(0xFF00FFFF), (0xFF, 0x00, 0xFF, 0xFF));
    assert_eq!(unpack(0x12345678), (0x12, 0x34, 0x56, 0x78));
    assert_eq!(unpack(0x00000000), (0x00, 0x00, 0x00, 0x00));
}

#[test]
fn unpack_inverts_pack_on_byte_range_samples() {
    let samples: Vec<(u8, u8, u8, u8)> = vec![
        (0, 0, 0, 0),
        (255, 255, 255, 255),
        (255, 0, 0, 255),
        (1, 2, 3, 4),
        (0x80, 0x7F, 0x01, 0xFE),
    ];
    for (r, g, b, a) in samples {
        assert_eq!(unpack(pack(r, g, b, a)), (r, g, b, a));
    }
}

#[test]
fn pack_inverts_unpack_on_packed_samples() {
    let samples: Vec<u32> = vec![0x00000000, 0xFFFFFFFF, 0xFF00FFFF, 0x12345678, 0x00F600FF];
    for p in samples {
        let (r, g, b, a) = unpack(p);
        assert_eq!(pack(r, g, b, a), p);
    }
}

#[test]
fn unpack_pixels_interleaves_four_bytes_per_pixel() {
    let pixels: Vec<u32> = vec![0x12345678, 0xFF00FFFF];
    let bytes = unpack_pixels(&pixels);
    assert_eq!(bytes, vec![0x12, 0x34, 0x56, 0x78, 0xFF, 0x00, 0xFF, 0xFF]);
}

#[test]
fn unpack_pixels_of_empty_buffer_is_empty() {
    let pixels: Vec<u32> = Vec::new();
    let bytes = unpack_pixels(&pixels);
    assert!(bytes.is_empty());
}
