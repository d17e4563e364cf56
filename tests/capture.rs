use cloud::capture::{advance_clock, texture_from_rgba, workout_for_area, workout_for_keys, FrameBatcher};
use cloud::raster::{box_span, clamp_pixel, line_points};
use cloud::{Frame, VideoRequest, WorkoutType, IMAGE_HEIGHT, IMAGE_WIDTH};

#[test]
fn eighty_frames_go_out_as_thirty_thirty_twenty() {
    let mut b = FrameBatcher::new(30);
    let mut sent = Vec::new();
    for i in 0..80u32 {
        if let Some(req) = b.push(Frame(i.to_le_bytes().to_vec())) {
            sent.push(req);
        }
    }
    sent.extend(b.finish());
    let sizes: Vec<usize> = sent
        .iter()
        .filter_map(|r| match r {
            VideoRequest::Frames(f) => Some(f.len()),
            _ => None,
        })
        .collect();
    assert_eq!(sizes, vec![30, 30, 20]);
    assert!(matches!(sent.last(), Some(VideoRequest::Done)));
    assert_eq!(sent.len(), 4);
    match &sent[1] {
        VideoRequest::Frames(f) => assert_eq!(f[0].0, 30u32.to_le_bytes().to_vec()),
        other => panic!("unexpected {:?}", other),
    }
}

#[test]
fn full_last_batch_leaves_only_done() {
    let mut b = FrameBatcher::new(2);
    assert!(b.push(Frame(vec![1])).is_none());
    assert!(b.push(Frame(vec![2])).is_some());
    let rest = b.finish();
    assert_eq!(rest.len(), 1);
    assert!(matches!(rest[0], VideoRequest::Done));
}

#[test]
fn workout_selection() {
    assert_eq!(workout_for_keys([true, true, false, false]), Some(WorkoutType::Squat));
    assert_eq!(workout_for_keys([false, true, false, false]), Some(WorkoutType::Pushup));
    assert_eq!(workout_for_keys([false, false, true, true]), None);
    assert_eq!(workout_for_area(0), WorkoutType::Squat);
    assert_eq!(workout_for_area(1), WorkoutType::Pushup);
}

#[test]
fn recording_clock_rolls_minutes() {
    assert_eq!(advance_clock(0, 0), (0, 1));
    assert_eq!(advance_clock(0, 59), (1, 0));
    assert_eq!(advance_clock(4, 30), (4, 31));
}

#[test]
fn textures_from_rgba_need_a_full_screen() {
    let n = IMAGE_WIDTH * IMAGE_HEIGHT;
    let mut rgba = vec![0u8; 4 * n];
    rgba[0] = 255;
    rgba[3] = 255;
    let t = texture_from_rgba(&rgba).expect("full screen");
    assert_eq!(t.width(), IMAGE_WIDTH);
    assert_eq!(t.height(), IMAGE_HEIGHT);
    assert_eq!(t.data()[0], 0xF800);
    assert_eq!(t.data()[1], 0);
    assert!(texture_from_rgba(&vec![0u8; 4 * n - 4]).is_none());
}

#[test]
fn clamping_and_boxes() {
    assert_eq!(clamp_pixel(500, 10), (319, 10));
    assert_eq!(clamp_pixel(10, 500), (10, 239));
    assert_eq!(box_span(30, 400, 10, 5), (10, 5, 30, 239));
}

#[test]
fn lines_step_along_the_longer_axis() {
    let h = line_points(0, 0, 4, 0);
    assert_eq!(h, vec![(0, 0), (1, 0), (2, 0), (3, 0), (4, 0)]);
    let back = line_points(4, 0, 0, 0);
    assert_eq!(back.len(), 5);
    let v = line_points(2, 1, 2, 4);
    assert_eq!(v, vec![(2, 1), (2, 2), (2, 3), (2, 4)]);
    let d = line_points(0, 0, 3, 3);
    assert_eq!(d, vec![(0, 0), (1, 1), (2, 2), (3, 3)]);
    let shallow = line_points(0, 0, 4, 2);
    assert_eq!(shallow.len(), 5);
    assert_eq!(shallow[0], (0, 0));
    assert_eq!(shallow[4], (4, 2));
    let clamped = line_points(1000, 1000, 1000, 1000);
    assert_eq!(clamped, vec![(319, 239)]);
}
