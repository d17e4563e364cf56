use cloud::session::{classify_wire, WireAction, WireEvent, IDLE_TIMEOUT_SECS};
use cloud::{
    DeviceId, DeviceResponse, DeviceSession, DeviceState, Frame, LinkMessage, LinkRequest,
    SessionError, UserId, UserResponse, UserSession, UserState, VideoAction, VideoRequest,
    VideoState, WorkoutType,
};

#[test]
fn user_connect_flow() {
    let mut s = UserSession::new(UserId::new("alice"));
    let fwd = s.handle_ws_msg(LinkRequest::Connect { device_id: DeviceId::new("dev1") });
    match fwd {
        Some(LinkMessage::UserLink(l)) => {
            assert_eq!(l.user_id.as_str(), "alice");
            assert!(matches!(l.req, LinkRequest::Connect { ref device_id } if device_id.as_str() == "dev1"));
        }
        other => panic!("unexpected {:?}", other),
    }
    assert_eq!(s.state, UserState::PendingConnect);
    let reply = UserResponse::Connected { device_id: DeviceId::new("dev1") };
    assert!(s.handle_user_msg(&reply));
    assert_eq!(s.state, UserState::Connected);
}

#[test]
fn user_unknown_device_returns_to_disconnected() {
    let mut s = UserSession::new(UserId::new("alice"));
    assert!(s.handle_ws_msg(LinkRequest::Connect { device_id: DeviceId::new("ghost") }).is_some());
    assert!(s.handle_user_msg(&UserResponse::NoSuchDevice));
    assert_eq!(s.state, UserState::Disconnected);
}

#[test]
fn user_dropped_then_disconnect_is_ignored() {
    let mut s = UserSession::new(UserId::new("alice"));
    s.handle_ws_msg(LinkRequest::Connect { device_id: DeviceId::new("dev1") });
    assert!(s.handle_user_msg(&UserResponse::Connected { device_id: DeviceId::new("dev1") }));
    assert!(s.handle_user_msg(&UserResponse::Dropped));
    assert_eq!(s.state, UserState::Disconnected);
    assert!(s.handle_ws_msg(LinkRequest::Disconnect).is_none());
    assert_eq!(s.state, UserState::Disconnected);
}

#[test]
fn user_disconnect_flow() {
    let mut s = UserSession::new(UserId::new("alice"));
    s.handle_ws_msg(LinkRequest::Connect { device_id: DeviceId::new("dev1") });
    assert!(s.handle_user_msg(&UserResponse::Connected { device_id: DeviceId::new("dev1") }));
    let fwd = s.handle_ws_msg(LinkRequest::Disconnect);
    assert!(matches!(fwd, Some(LinkMessage::UserLink(ref l)) if matches!(l.req, LinkRequest::Disconnect)));
    assert_eq!(s.state, UserState::PendingDisconnect);
    assert!(s.handle_user_msg(&UserResponse::Disconnected));
    assert_eq!(s.state, UserState::Disconnected);
}

#[test]
fn user_unexpected_response_is_ignored() {
    let mut s = UserSession::new(UserId::new("alice"));
    assert!(!s.handle_user_msg(&UserResponse::Connected { device_id: DeviceId::new("dev1") }));
    assert_eq!(s.state, UserState::Disconnected);
    assert!(!s.handle_user_msg(&UserResponse::Disconnected));
    assert_eq!(s.state, UserState::Disconnected);
    s.handle_ws_msg(LinkRequest::Connect { device_id: DeviceId::new("dev1") });
    assert!(!s.handle_user_msg(&UserResponse::Disconnected));
    assert_eq!(s.state, UserState::PendingConnect);
}

#[test]
fn nothing_forwarded_after_drop_report() {
    let mut s = UserSession::new(UserId::new("alice"));
    assert!(s.finish().is_some());
    assert!(s.handle_ws_msg(LinkRequest::Connect { device_id: DeviceId::new("dev1") }).is_none());
    assert_eq!(s.state, UserState::Disconnected);
}

#[test]
fn user_drop_reported_once() {
    let mut s = UserSession::new(UserId::new("alice"));
    match s.finish() {
        Some(LinkMessage::UserDropped(u)) => assert_eq!(u.as_str(), "alice"),
        other => panic!("unexpected {:?}", other),
    }
    assert!(s.finish().is_none());
}

#[test]
fn idle_timeout_ends_session_and_reports_drop() {
    assert_eq!(IDLE_TIMEOUT_SECS, 20);
    assert_eq!(classify_wire(WireEvent::IdleTimeout), WireAction::EndSession);
    assert_eq!(classify_wire(WireEvent::Close), WireAction::EndSession);
    assert_eq!(classify_wire(WireEvent::Ended), WireAction::EndSession);
    assert_eq!(classify_wire(WireEvent::Ping), WireAction::Ignore);
    assert_eq!(classify_wire(WireEvent::Payload), WireAction::Handle);
    assert_eq!(classify_wire(WireEvent::Unexpected), WireAction::Fail);
    let mut s = DeviceSession::new(DeviceId::new("dev1"));
    match s.finish() {
        Some(LinkMessage::DeviceDropped(d)) => assert_eq!(d.as_str(), "dev1"),
        other => panic!("unexpected {:?}", other),
    }
    assert!(s.finish().is_none());
}

#[test]
fn device_video_flow() {
    let mut s = DeviceSession::new(DeviceId::new("dev1"));
    let a = s.handle_ws_msg(VideoRequest::Start { user_id: UserId::new("alice"), workout_type: WorkoutType::Squat });
    match a {
        Ok(VideoAction::StartIngestion { user_id, workout_type }) => {
            assert_eq!(user_id.as_str(), "alice");
            assert_eq!(workout_type, WorkoutType::Squat);
        }
        other => panic!("unexpected {:?}", other),
    }
    assert_eq!(s.video, VideoState::WaitDone);
    let frames = vec![Frame(vec![1, 2]), Frame(vec![3, 4])];
    match s.handle_ws_msg(VideoRequest::Frames(frames)) {
        Ok(VideoAction::SendFrames(f)) => assert_eq!(f.len(), 2),
        other => panic!("unexpected {:?}", other),
    }
    assert_eq!(s.video, VideoState::WaitDone);
    assert!(matches!(s.handle_ws_msg(VideoRequest::Done), Ok(VideoAction::SendDone)));
    assert_eq!(s.video, VideoState::WaitStart);
}

#[test]
fn device_cancel_twice() {
    let mut s = DeviceSession::new(DeviceId::new("dev1"));
    s.handle_ws_msg(VideoRequest::Start { user_id: UserId::new("alice"), workout_type: WorkoutType::Pushup }).unwrap();
    assert!(matches!(s.handle_ws_msg(VideoRequest::Cancel), Ok(VideoAction::Cancel)));
    assert_eq!(s.video, VideoState::WaitStart);
    assert!(matches!(s.handle_ws_msg(VideoRequest::Cancel), Ok(VideoAction::Cancel)));
    assert_eq!(s.video, VideoState::WaitStart);
}

#[test]
fn device_invalid_requests() {
    let mut s = DeviceSession::new(DeviceId::new("dev1"));
    assert_eq!(s.handle_ws_msg(VideoRequest::Done).unwrap_err(), SessionError::InvalidVideoRequest);
    assert_eq!(s.handle_ws_msg(VideoRequest::Frames(vec![])).unwrap_err(), SessionError::InvalidVideoRequest);
    s.handle_ws_msg(VideoRequest::Start { user_id: UserId::new("alice"), workout_type: WorkoutType::Squat }).unwrap();
    let r = s.handle_ws_msg(VideoRequest::Start { user_id: UserId::new("alice"), workout_type: WorkoutType::Squat });
    assert_eq!(r.unwrap_err(), SessionError::InvalidVideoRequest);
    assert_eq!(s.video, VideoState::WaitStart);
}

#[test]
fn device_connection_follows_mailbox() {
    let mut s = DeviceSession::new(DeviceId::new("dev1"));
    assert_eq!(s.handle_device_msg(&DeviceResponse::Disconnected), Err(SessionError::UnexpectedDeviceResponse));
    assert_eq!(s.handle_device_msg(&DeviceResponse::Connected { user_id: UserId::new("alice") }), Ok(()));
    assert_eq!(s.connection, DeviceState::Connected);
    assert_eq!(
        s.handle_device_msg(&DeviceResponse::Connected { user_id: UserId::new("alice") }),
        Err(SessionError::UnexpectedDeviceResponse)
    );
    assert_eq!(s.handle_device_msg(&DeviceResponse::Disconnected), Ok(()));
    assert_eq!(s.connection, DeviceState::Disconnected);
}
