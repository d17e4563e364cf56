use cloud::{
    DeviceId, DeviceResponse, LinkError, LinkManager, LinkMessage, LinkRequest, NewDevice,
    NewUser, Notice, UserId, UserLink, UserResponse,
};

fn register(lm: &mut LinkManager, user: &str, device: &str) {
    let r = lm.handle_message(LinkMessage::NewUser(NewUser { user_id: UserId::new(user) }));
    assert!(matches!(r.unwrap().as_slice(), [Notice::Registered]));
    let r = lm.handle_message(LinkMessage::NewDevice(NewDevice { device_id: DeviceId::new(device) }));
    assert!(matches!(r.unwrap().as_slice(), [Notice::Registered]));
}

fn connect(user: &str, device: &str) -> LinkMessage {
    LinkMessage::UserLink(UserLink {
        user_id: UserId::new(user),
        req: LinkRequest::Connect { device_id: DeviceId::new(device) },
    })
}

fn disconnect(user: &str) -> LinkMessage {
    LinkMessage::UserLink(UserLink { user_id: UserId::new(user), req: LinkRequest::Disconnect })
}

#[test]
fn pairing_notifies_user_then_device() {
    let mut lm = LinkManager::new();
    register(&mut lm, "alice", "dev1");
    let out = lm.handle_message(connect("alice", "dev1")).unwrap();
    assert_eq!(out.len(), 2);
    match &out[0] {
        Notice::ToUser(u, UserResponse::Connected { device_id }) => {
            assert_eq!(u.as_str(), "alice");
            assert_eq!(device_id.as_str(), "dev1");
        }
        other => panic!("unexpected {:?}", other),
    }
    match &out[1] {
        Notice::ToDevice(d, DeviceResponse::Connected { user_id }) => {
            assert_eq!(d.as_str(), "dev1");
            assert_eq!(user_id.as_str(), "alice");
        }
        other => panic!("unexpected {:?}", other),
    }
}

#[test]
fn connect_to_unknown_device_answers_no_such_device() {
    let mut lm = LinkManager::new();
    let r = lm.handle_message(LinkMessage::NewUser(NewUser { user_id: UserId::new("alice") }));
    assert!(r.is_ok());
    let out = lm.handle_message(connect("alice", "ghost")).unwrap();
    assert!(matches!(out.as_slice(), [Notice::ToUser(_, UserResponse::NoSuchDevice)]));
    // nothing changed: a device registered afterwards can still be paired
    let r = lm.handle_message(LinkMessage::NewDevice(NewDevice { device_id: DeviceId::new("ghost") }));
    assert!(r.is_ok());
    let out = lm.handle_message(connect("alice", "ghost")).unwrap();
    assert_eq!(out.len(), 2);
}

#[test]
fn device_drop_marks_user_dropped_and_disconnect_is_absorbed() {
    let mut lm = LinkManager::new();
    register(&mut lm, "alice", "dev1");
    lm.handle_message(connect("alice", "dev1")).unwrap();
    let out = lm.handle_message(LinkMessage::DeviceDropped(DeviceId::new("dev1"))).unwrap();
    match out.as_slice() {
        [Notice::ToUser(u, UserResponse::Dropped)] => assert_eq!(u.as_str(), "alice"),
        other => panic!("unexpected {:?}", other),
    }
    let out = lm.handle_message(disconnect("alice")).unwrap();
    assert!(out.is_empty());
    // now plainly disconnected: a second disconnect is a protocol breach
    assert_eq!(lm.handle_message(disconnect("alice")).unwrap_err(), LinkError::DisconnectedUser);
}

#[test]
fn dropped_user_cannot_pair_again() {
    let mut lm = LinkManager::new();
    register(&mut lm, "alice", "dev1");
    lm.handle_message(connect("alice", "dev1")).unwrap();
    lm.handle_message(LinkMessage::DeviceDropped(DeviceId::new("dev1"))).unwrap();
    let r = lm.handle_message(LinkMessage::NewDevice(NewDevice { device_id: DeviceId::new("dev2") }));
    assert!(r.is_ok());
    let out = lm.handle_message(connect("alice", "dev2")).unwrap();
    assert!(matches!(out.as_slice(), [Notice::ToUser(_, UserResponse::Dropped)]));
}

#[test]
fn disconnect_notifies_both_sides() {
    let mut lm = LinkManager::new();
    register(&mut lm, "alice", "dev1");
    lm.handle_message(connect("alice", "dev1")).unwrap();
    let out = lm.handle_message(disconnect("alice")).unwrap();
    assert!(matches!(
        out.as_slice(),
        [Notice::ToUser(_, UserResponse::Disconnected), Notice::ToDevice(_, DeviceResponse::Disconnected)]
    ));
    // the device is free again
    let out = lm.handle_message(connect("alice", "dev1")).unwrap();
    assert_eq!(out.len(), 2);
}

#[test]
fn duplicate_user_is_refused_and_entry_kept() {
    let mut lm = LinkManager::new();
    register(&mut lm, "alice", "dev1");
    lm.handle_message(connect("alice", "dev1")).unwrap();
    let out = lm.handle_message(LinkMessage::NewUser(NewUser { user_id: UserId::new("alice") })).unwrap();
    assert!(matches!(out.as_slice(), [Notice::DuplicateId]));
    // the existing pairing is untouched
    let out = lm.handle_message(disconnect("alice")).unwrap();
    assert_eq!(out.len(), 2);
}

#[test]
fn duplicate_device_is_refused() {
    let mut lm = LinkManager::new();
    register(&mut lm, "alice", "dev1");
    let out = lm.handle_message(LinkMessage::NewDevice(NewDevice { device_id: DeviceId::new("dev1") })).unwrap();
    assert!(matches!(out.as_slice(), [Notice::DuplicateId]));
}

#[test]
fn user_drop_releases_device_once() {
    let mut lm = LinkManager::new();
    register(&mut lm, "alice", "dev1");
    lm.handle_message(connect("alice", "dev1")).unwrap();
    let out = lm.handle_message(LinkMessage::UserDropped(UserId::new("alice"))).unwrap();
    match out.as_slice() {
        [Notice::ToDevice(d, DeviceResponse::Disconnected)] => assert_eq!(d.as_str(), "dev1"),
        other => panic!("unexpected {:?}", other),
    }
    let again = lm.handle_message(LinkMessage::UserDropped(UserId::new("alice")));
    assert_eq!(again.unwrap_err(), LinkError::NoUserEntry);
}

#[test]
fn unknown_user_drop_is_refused() {
    let mut lm = LinkManager::new();
    let r = lm.handle_message(LinkMessage::UserDropped(UserId::new("nobody")));
    assert_eq!(r.unwrap_err(), LinkError::NoUserEntry);
    let r = lm.handle_message(LinkMessage::DeviceDropped(DeviceId::new("nothing")));
    assert_eq!(r.unwrap_err(), LinkError::NoDeviceEntry);
}

#[test]
fn second_connect_while_paired_is_refused() {
    let mut lm = LinkManager::new();
    register(&mut lm, "alice", "dev1");
    register(&mut lm, "bob", "dev2");
    lm.handle_message(connect("alice", "dev1")).unwrap();
    assert_eq!(lm.handle_message(connect("alice", "dev2")).unwrap_err(), LinkError::HasDevice);
    assert_eq!(lm.handle_message(connect("bob", "dev1")).unwrap_err(), LinkError::HasUser);
    assert_eq!(lm.handle_message(connect("carol", "dev2")).unwrap_err(), LinkError::NoUserEntry);
}

#[test]
fn link_error_messages() {
    assert_eq!(LinkError::NoUserEntry.message(), "User entry should exist but doesn't");
    assert_eq!(LinkError::NoMoreMessages.message(), "No more link messages");
}

#[test]
fn dropped_user_asking_for_a_paired_device_is_a_breach() {
    let mut lm = LinkManager::new();
    register(&mut lm, "alice", "dev1");
    register(&mut lm, "bob", "dev2");
    lm.handle_message(connect("alice", "dev1")).unwrap();
    lm.handle_message(connect("bob", "dev2")).unwrap();
    lm.handle_message(LinkMessage::DeviceDropped(DeviceId::new("dev1"))).unwrap();
    assert_eq!(lm.handle_message(connect("alice", "dev2")).unwrap_err(), LinkError::HasUser);
}
