use cloud::naming::{
    analyzer_args, blob_name, folder_path, frame_file, frame_pattern, pad4_decimal, user_document,
    video_file, ANALYZER_PROGRAM, VIDEO_ROOT, WORKOUT_COLLECTION,
};
use cloud::{
    Feedback, Frame, IngestAction, Ingestion, UserId, VideoId, VideoPart, WorkoutEntry,
    WorkoutType,
};

fn batch(n: usize) -> Vec<Frame> {
    (0..n).map(|i| Frame(vec![i as u8, 0])).collect()
}

#[test]
fn full_video_numbers_frames_consecutively() {
    let mut ing = Ingestion::with_id(VideoId::new("vid"), UserId::new("alice"), WorkoutType::Squat);
    assert_eq!(ing.folder, "../.video/vid.d");
    let mut names = Vec::new();
    for (k, expected_first) in [(30usize, 0u64), (30, 30), (20, 60)] {
        match ing.handle_part(Some(VideoPart::Frames(batch(k)))) {
            IngestAction::WriteFrames { first_index, frames } => {
                assert_eq!(first_index, expected_first);
                assert_eq!(frames.len(), k);
                for i in 0..frames.len() as u64 {
                    names.push(frame_file(&ing.folder, first_index + i));
                }
            }
            other => panic!("unexpected {:?}", other),
        }
    }
    assert_eq!(ing.received_count, 80);
    assert_eq!(names.len(), 80);
    assert_eq!(names[0], "../.video/vid.d/0000.png");
    assert_eq!(names[79], "../.video/vid.d/0079.png");
    for (i, n) in names.iter().enumerate() {
        assert_eq!(*n, format!("../.video/vid.d/{:04}.png", i));
    }
    assert!(matches!(ing.handle_part(Some(VideoPart::Done)), IngestAction::Finalize));
    assert!(ing.finished);
}

#[test]
fn cancel_mid_video_removes_folder() {
    let mut ing = Ingestion::with_id(VideoId::new("vid"), UserId::new("alice"), WorkoutType::Squat);
    assert!(matches!(ing.handle_part(Some(VideoPart::Frames(batch(30)))), IngestAction::WriteFrames { .. }));
    assert!(matches!(ing.handle_part(None), IngestAction::RemoveFolder));
    assert!(ing.finished);
    assert_eq!(ing.received_count, 30);
}

#[test]
fn empty_batch_keeps_count() {
    let mut ing = Ingestion::with_id(VideoId::new("v"), UserId::new("u"), WorkoutType::Pushup);
    match ing.handle_part(Some(VideoPart::Frames(vec![]))) {
        IngestAction::WriteFrames { first_index, frames } => {
            assert_eq!(first_index, 0);
            assert!(frames.is_empty());
        }
        other => panic!("unexpected {:?}", other),
    }
    assert_eq!(ing.received_count, 0);
}

#[test]
fn fresh_video_ids_are_hyphenated_uuids() {
    let a = Ingestion::start(UserId::new("alice"), WorkoutType::Squat);
    let b = Ingestion::start(UserId::new("alice"), WorkoutType::Squat);
    let id = a.video_id.as_str();
    assert_eq!(id.len(), 36);
    for (i, c) in id.chars().enumerate() {
        if [8, 13, 18, 23].contains(&i) {
            assert_eq!(c, '-');
        } else {
            assert!(c.is_ascii_hexdigit());
        }
    }
    assert_ne!(a.video_id.as_str(), b.video_id.as_str());
    assert_eq!(a.folder, format!("../.video/{}.d", id));
    assert_eq!(a.received_count, 0);
}

#[test]
fn padded_indices() {
    assert_eq!(pad4_decimal(0), "0000");
    assert_eq!(pad4_decimal(7), "0007");
    assert_eq!(pad4_decimal(79), "0079");
    assert_eq!(pad4_decimal(123), "0123");
    assert_eq!(pad4_decimal(9999), "9999");
    assert_eq!(pad4_decimal(12345), "12345");
    assert_eq!(pad4_decimal(u64::MAX), u64::MAX.to_string());
}

#[test]
fn paths_and_analyzer_arguments() {
    let v = VideoId::new("abc");
    assert_eq!(VIDEO_ROOT, "../.video");
    assert_eq!(folder_path(&v), "../.video/abc.d");
    assert_eq!(video_file(&v), "../.video/abc.mp4");
    assert_eq!(blob_name(&v), "videos/abc");
    assert_eq!(frame_pattern("../.video/abc.d"), "../.video/abc.d/%04d.png");
    assert_eq!(user_document(&UserId::new("alice")), "users/alice");
    assert_eq!(WORKOUT_COLLECTION, "workouts");
    assert_eq!(ANALYZER_PROGRAM, "python");
    let args = analyzer_args(WorkoutType::Squat, "../.video/abc.d", &v);
    assert_eq!(args, vec!["./.ml/squatPredictor.py", "../.video/abc.d/%04d.png", "../.video/abc.mp4"]);
    let args = analyzer_args(WorkoutType::Pushup, "d", &v);
    assert_eq!(args[0], "./.ml/pushupPredictor.py");
}

#[test]
fn workout_entry_is_completed_with_feedback() {
    let e = WorkoutEntry::pending(1_700_000_000, 5, WorkoutType::Squat);
    assert!(e.id.is_none() && e.video_id.is_none() && e.reps.is_none());
    let mut stored = e.clone();
    stored.id = Some("doc1".to_string());
    let fb = vec![Feedback { class: "good".to_string(), correction: "none".to_string() }];
    let done = stored.with_feedback(&VideoId::new("vid"), fb);
    assert_eq!(done.id.as_deref(), Some("doc1"));
    assert_eq!(done.video_id.as_ref().map(|v| v.as_str()), Some("vid"));
    assert_eq!(done.reps.as_ref().map(|r| r.len()), Some(1));
    assert_eq!(done.date_secs, 1_700_000_000);
    assert_eq!(done.workout_type, WorkoutType::Squat);
}
