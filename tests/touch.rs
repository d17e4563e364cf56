use cloud::touch::{decode_event, packet_byte_ok, touched_area, PacketReader, TapDetector};
use cloud::{vga_area, PenState, TouchArea, TouchEvent};

#[test]
fn area_contains_bounds_inclusive() {
    let a = TouchArea::new((10, 20), (30, 40));
    assert!(a.contains(10, 20));
    assert!(a.contains(30, 40));
    assert!(!a.contains(31, 40));
    assert!(!a.contains(10, 19));
}

#[test]
fn display_areas_scale_to_touchscreen() {
    let a = vga_area((11, 8), (106, 103));
    assert!(a.contains(11 * 4096 / 320, 8 * 4096 / 240));
    assert!(a.contains(106 * 4096 / 320, 103 * 4096 / 240));
    assert!(!a.contains(106 * 4096 / 320 + 1, 103 * 4096 / 240));
    let full = vga_area((0, 0), (319, 239));
    assert!(full.contains(0, 0));
    assert!(full.contains(4083, 4078));
    assert!(!full.contains(4084, 0));
}

#[test]
fn packets_are_validated_and_decoded() {
    assert!(packet_byte_ok(0, 0x81));
    assert!(!packet_byte_ok(0, 0x01));
    assert!(packet_byte_ok(1, 0x7F));
    assert!(!packet_byte_ok(2, 0x20));
    let mut r = PacketReader::new();
    // a stray byte before the header is dropped
    assert_eq!(r.feed(0x05), None);
    let mut got = None;
    for b in [0x81, 0x05, 0x03, 0x7F, 0x1F] {
        got = r.feed(b);
    }
    let packet = got.expect("a complete packet");
    assert_eq!(packet, [0x81, 0x05, 0x03, 0x7F, 0x1F]);
    let e = decode_event(packet);
    assert_eq!(e, TouchEvent { x: 3 * 128 + 5, y: 31 * 128 + 127, pen_state: PenState::Down });
    assert_eq!(decode_event([0x80, 0, 0, 0, 0]).pen_state, PenState::Up);
}

#[test]
fn taps_select_the_first_matching_area() {
    let areas = [TouchArea::new((0, 0), (10, 10)), TouchArea::new((0, 0), (100, 100))];
    assert_eq!(touched_area(&areas, (5, 5), (6, 6)), Some(0));
    assert_eq!(touched_area(&areas, (5, 5), (50, 50)), Some(1));
    assert_eq!(touched_area(&areas, (5, 5), (500, 50)), None);
    let mut t = TapDetector::new();
    let up = |x, y| TouchEvent { x, y, pen_state: PenState::Up };
    let down = |x, y| TouchEvent { x, y, pen_state: PenState::Down };
    assert_eq!(t.feed(up(1, 1), &areas), None);
    assert_eq!(t.feed(down(50, 50), &areas), None);
    assert_eq!(t.feed(down(60, 60), &areas), None);
    assert_eq!(t.feed(up(55, 55), &areas), Some(1));
    assert_eq!(t.feed(up(55, 55), &areas), None);
}
