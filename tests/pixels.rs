use cloud::pixels::{decode_frame, decode_rgb565, encode_rgb888, encode_rgba8};
use cloud::{Frame, IMAGE_HEIGHT, IMAGE_SIZE, IMAGE_WIDTH};

#[test]
fn frame_geometry() {
    assert_eq!(IMAGE_SIZE, IMAGE_WIDTH * IMAGE_HEIGHT * 2);
}

#[test]
fn decode_primary_colours() {
    // little-endian RGB565: white, red, green, blue, black
    let f = Frame(vec![0xFF, 0xFF, 0x00, 0xF8, 0xE0, 0x07, 0x1F, 0x00, 0x00, 0x00]);
    let rgb = decode_rgb565(&f.0);
    assert_eq!(rgb, vec![255, 255, 255, 255, 0, 0, 0, 255, 0, 0, 0, 255, 0, 0, 0]);
}

#[test]
fn decode_mid_values() {
    // r = 16, g = 32, b = 8 -> 16*255/31, 32*255/63, 8*255/31
    let c: u16 = (16 << 11) | (32 << 5) | 8;
    let f = Frame(c.to_le_bytes().to_vec());
    assert_eq!(decode_rgb565(&f.0), vec![131, 129, 65]);
}

#[test]
fn decode_ignores_trailing_odd_byte() {
    assert_eq!(decode_rgb565(&vec![0xFF, 0xFF, 0x12]).len(), 3);
    assert_eq!(decode_rgb565(&vec![]).len(), 0);
}

#[test]
fn round_trip_every_pixel_value() {
    let mut bytes = Vec::with_capacity(2 * 65536);
    for c in 0..=u16::MAX {
        bytes.extend_from_slice(&c.to_le_bytes());
    }
    let rgb = decode_rgb565(&bytes);
    let back = encode_rgb888(&rgb);
    assert_eq!(back.len(), 65536);
    for (i, c) in back.iter().enumerate() {
        assert_eq!(*c as usize, i);
    }
}

#[test]
fn encode_rgba_ignores_alpha() {
    let rgba = vec![255, 255, 255, 0, 255, 0, 0, 255, 0, 0, 0, 7];
    assert_eq!(encode_rgba8(&rgba), vec![0xFFFF, 0xF800, 0x0000]);
    assert_eq!(encode_rgb888(&vec![0, 255, 0, 1, 2]), vec![0x07E0]);
}

#[test]
fn frames_must_have_the_full_size() {
    let mut bytes = vec![0u8; IMAGE_SIZE];
    bytes[0] = 0x00;
    bytes[1] = 0xF8;
    let rgb = decode_frame(&Frame(bytes.clone())).expect("a full frame");
    assert_eq!(rgb.len(), 3 * IMAGE_WIDTH * IMAGE_HEIGHT);
    assert_eq!(&rgb[..6], &[255, 0, 0, 0, 0, 0]);
    bytes.push(0);
    assert!(decode_frame(&Frame(bytes)).is_none());
    assert!(decode_frame(&Frame(vec![0u8; IMAGE_SIZE - 2])).is_none());
}
