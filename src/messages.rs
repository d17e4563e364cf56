use vstd::prelude::*;

use crate::ids::{DeviceId, UserId};

verus! {

/// The kind of exercise being recorded; it selects the analyzer.
#[derive(Clone, Copy, Debug, PartialEq, Eq, Structural)]
pub enum WorkoutType {
    Squat,
    Pushup,
}

/// A request sent by a user over its session.
#[derive(Debug)]
pub enum LinkRequest {
    Connect { device_id: DeviceId },
    Disconnect,
}

/// One raw camera frame: RGB565 pixels, two little-endian bytes each.
#[derive(Clone, Debug)]
pub struct Frame(pub Vec<u8>);

/// A request sent by a device over its session.
#[derive(Debug)]
pub enum VideoRequest {
    Start { user_id: UserId, workout_type: WorkoutType },
    Frames(Vec<Frame>),
    Done,
    /// Drop whatever video is being recorded, if any.
    Cancel,
}

/// A message the broker sends to a user session.
#[derive(Clone, Debug, PartialEq, Eq)]
pub enum UserResponse {
    Connected { device_id: DeviceId },
    Disconnected,
    NoSuchDevice,
    Dropped,
}

/// A message the broker sends to a device session.
#[derive(Clone, Debug, PartialEq, Eq)]
pub enum DeviceResponse {
    Connected { user_id: UserId },
    Disconnected,
}

/// One analyzer record: the class of a repetition and the correction advised.
#[derive(Clone, Debug)]
pub struct Feedback {
    pub class: String,
    pub correction: String,
}

/// A user response with identifiers seen as text.
pub enum UserResponseModel {
    Connected(Seq<char>),
    Disconnected,
    NoSuchDevice,
    Dropped,
}

/// A device response with identifiers seen as text.
pub enum DeviceResponseModel {
    Connected(Seq<char>),
    Disconnected,
}

impl View for UserResponse {
    type V = UserResponseModel;

    open spec fn view(&self) -> UserResponseModel {
        match self {
            UserResponse::Connected { device_id } => UserResponseModel::Connected(device_id@),
            UserResponse::Disconnected => UserResponseModel::Disconnected,
            UserResponse::NoSuchDevice => UserResponseModel::NoSuchDevice,
            UserResponse::Dropped => UserResponseModel::Dropped,
        }
    }
}

impl View for DeviceResponse {
    type V = DeviceResponseModel;

    open spec fn view(&self) -> DeviceResponseModel {
        match self {
            DeviceResponse::Connected { user_id } => DeviceResponseModel::Connected(user_id@),
            DeviceResponse::Disconnected => DeviceResponseModel::Disconnected,
        }
    }
}

} // verus!
