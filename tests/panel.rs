use cloud::panel::{
    char_offset, countdown_digits, countdown_ten, hex_words, pixel_offset, text_cells,
    time_digits, FrameClock, KeyEdges,
};
use cloud::texture::Texture;
use cloud::digit_to_hex;

#[test]
fn seven_segment_digits() {
    let expected = [0x3f, 0x06, 0x5b, 0x4f, 0x66, 0x6d, 0x7d, 0x07, 0x7f, 0x6f];
    for d in 0..10u8 {
        assert_eq!(digit_to_hex(d), expected[d as usize]);
    }
}

#[test]
fn time_and_countdown_digits() {
    assert_eq!(time_digits(4, 37), [0, 0, 0, 0x66, 0x4f, 0x07]);
    assert_eq!(countdown_digits(5), [0, 0, 0, 0, 0, 0x6d]);
    assert_eq!(countdown_ten(), [0, 0, 0, 0, 0x06, 0x3f]);
    assert_eq!(hex_words([1, 2, 3, 4, 5, 6]), (0x0304_0506, 0x0102));
}

#[test]
fn key_edges_report_new_presses_only() {
    let mut k = KeyEdges::new();
    assert_eq!(k.update(0b0101), [true, false, true, false]);
    assert_eq!(k.update(0b0111), [false, true, false, false]);
    assert_eq!(k.update(0b1000), [false, false, false, true]);
    assert_eq!(k.update(0b1000), [false, false, false, false]);
}

#[test]
fn frame_clock_spreads_a_second() {
    let mut c = FrameClock::new(30);
    let gaps: Vec<u64> = (0..30).map(|_| c.tick(false)).collect();
    assert_eq!(gaps.iter().sum::<u64>(), 1000);
    assert_eq!(gaps[0], 33);
    assert_eq!(gaps[2], 34);
    assert_eq!(c.frame, 0);
    c.tick(false);
    assert_eq!(c.frame, 1);
    assert_eq!(c.tick(true), 33);
    assert_eq!(c.frame, 1);
}

#[test]
fn buffer_offsets() {
    assert_eq!(pixel_offset(0, 0), 0);
    assert_eq!(pixel_offset(319, 239), 2 * 319 + 1024 * 239);
    assert_eq!(char_offset(79, 59), 79 + 128 * 59);
}

#[test]
fn text_wraps_rows_and_screen() {
    let cells = text_cells(78, 0, 3);
    assert_eq!(cells, vec![(78, 0), (79, 0), (0, 1)]);
    let cells = text_cells(500, 500, 2);
    assert_eq!(cells, vec![(79, 59), (0, 0)]);
}

#[test]
fn texture_accessors() {
    let t = Texture::new(2, 3, vec![1, 2, 3, 4, 5, 6]);
    assert_eq!(t.width(), 2);
    assert_eq!(t.height(), 3);
    assert_eq!(t.data(), &[1, 2, 3, 4, 5, 6]);
}
