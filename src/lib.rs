//! Session brokering between users and capture devices: the link manager that
//! owns the pairing state, the protocol state machines of user and device
//! sessions, the decisions of video ingestion, frame decoding, and the pure
//! logic of the capture device's panel.

pub mod assoc;
pub mod capture;
pub mod error;
pub mod ids;
pub mod ingest;
pub mod link;
pub mod messages;
pub mod naming;
pub mod panel;
pub mod pixels;
pub mod raster;
pub mod session;
pub mod texture;
pub mod touch;

pub use error::{AppError, AppErrorExt, ConnectRequest};
pub use ids::{DeviceId, UserId, VideoId};
pub use ingest::{IngestAction, Ingestion, VideoPart, WorkoutEntry};
pub use link::{LinkError, LinkManager, LinkMessage, NewDevice, NewUser, Notice, UserLink};
pub use messages::{
    DeviceResponse, Feedback, Frame, LinkRequest, UserResponse, VideoRequest, WorkoutType,
};
pub use panel::digit_to_hex;
pub use pixels::{IMAGE_HEIGHT, IMAGE_SIZE, IMAGE_WIDTH};
pub use session::{
    DeviceSession, DeviceState, SessionError, UserSession, UserState, VideoAction, VideoState,
};
pub use texture::Texture;
pub use touch::{vga_area, PenState, TouchArea, TouchEvent, TOUCHSCREEN_HEIGHT, TOUCHSCREEN_WIDTH};
