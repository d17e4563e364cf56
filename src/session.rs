use vstd::prelude::*;

use crate::ids::{DeviceId, UserId};
use crate::link::{LinkMessage, UserLink};
use crate::messages::{DeviceResponse, Frame, LinkRequest, UserResponse, VideoRequest, WorkoutType};

verus! {

/// Seconds without a wire message after which a session counts as dropped.
pub const IDLE_TIMEOUT_SECS: u64 = 20;

/// What a session's wire read produced.
#[derive(Clone, Copy, Debug, PartialEq, Eq, Structural)]
pub enum WireEvent {
    /// A message of the kind the session reads (text for users, binary for devices).
    Payload,
    Ping,
    Close,
    /// The stream ended.
    Ended,
    /// Nothing arrived for `IDLE_TIMEOUT_SECS`.
    IdleTimeout,
    /// A message of a kind the session does not read.
    Unexpected,
}

/// What a session does with a wire event.
#[derive(Clone, Copy, Debug, PartialEq, Eq, Structural)]
pub enum WireAction {
    /// Decode the payload and hand it to the state machine.
    Handle,
    /// Nothing to do; the transport answers pings.
    Ignore,
    /// Leave the loop; the session then reports itself dropped.
    EndSession,
    /// Leave the loop with an error; the session then reports itself dropped.
    Fail,
}

/// How a session treats what its wire read produced.
pub fn classify_wire(ev: WireEvent) -> (r: WireAction)
    ensures
        ev == WireEvent::Payload ==> r == WireAction::Handle,
        ev == WireEvent::Ping ==> r == WireAction::Ignore,
        (ev == WireEvent::Close || ev == WireEvent::Ended || ev == WireEvent::IdleTimeout) ==> r
            == WireAction::EndSession,
        ev == WireEvent::Unexpected ==> r == WireAction::Fail,
{
    match ev {
        WireEvent::Payload => WireAction::Handle,
        WireEvent::Ping => WireAction::Ignore,
        WireEvent::Close | WireEvent::Ended | WireEvent::IdleTimeout => WireAction::EndSession,
        WireEvent::Unexpected => WireAction::Fail,
    }
}

/// A protocol breach by the peer or the broker; the session ends on it.
#[derive(Clone, Copy, Debug, PartialEq, Eq, Structural)]
pub enum SessionError {
    UnexpectedDeviceResponse,
    InvalidVideoRequest,
}

/// Where a user session stands in the pairing protocol.
#[derive(Clone, Copy, Debug, PartialEq, Eq, Structural)]
pub enum UserState {
    Disconnected,
    PendingConnect,
    Connected,
    PendingDisconnect,
}

/// The protocol state of one user connection.
pub struct UserSession {
    pub user_id: UserId,
    pub state: UserState,
    /// Whether the drop of this session has been reported.
    pub ended: bool,
}

impl UserSession {
    pub fn new(user_id: UserId) -> (r: Self)
        ensures
            r.user_id@ == user_id@,
            r.state == UserState::Disconnected,
            !r.ended,
    {
        UserSession { user_id, state: UserState::Disconnected, ended: false }
    }

    /// Whether a request is forwarded to the link manager in state `s`.
    pub open spec fn forwards(s: UserState, req: LinkRequest) -> bool {
        (s == UserState::Disconnected && req is Connect) || (s == UserState::Connected
            && req is Disconnect)
    }

    /// Whether a response from the link manager is expected in state `s`.
    pub open spec fn expects(s: UserState, msg: UserResponse) -> bool {
        ||| msg is Dropped
        ||| (s == UserState::PendingConnect && (msg is Connected || msg is NoSuchDevice))
        ||| (s == UserState::PendingDisconnect && msg is Disconnected)
    }

    /// Handles a request read from the wire. Until the session has reported
    /// its drop, a connect while disconnected and a disconnect while
    /// connected are forwarded to the link manager; any other request is
    /// ignored. After the drop report nothing more is forwarded.
    pub fn handle_ws_msg(&mut self, req: LinkRequest) -> (r: Option<LinkMessage>)
        ensures
            final(self).user_id == old(self).user_id,
            final(self).ended == old(self).ended,
            old(self).ended ==> r is None && final(self).state == old(self).state,
            !old(self).ended && old(self).state == UserState::Disconnected && req is Connect ==> {
                &&& final(self).state == UserState::PendingConnect
                &&& r matches Some(LinkMessage::UserLink(l))
                &&& l.user_id@ == old(self).user_id@
                &&& l.req matches LinkRequest::Connect { device_id }
                &&& device_id@ == req->Connect_device_id@
            },
            !old(self).ended && old(self).state == UserState::Connected && req is Disconnect ==> {
                &&& final(self).state == UserState::PendingDisconnect
                &&& r matches Some(LinkMessage::UserLink(l))
                &&& l.user_id@ == old(self).user_id@
                &&& l.req is Disconnect
            },
            !Self::forwards(old(self).state, req) ==> r is None && final(self).state == old(
                self,
            ).state,
    {
        if self.ended {
            return None;
        }
        match (self.state, &req) {
            (UserState::Disconnected, LinkRequest::Connect { .. }) => {
                self.state = UserState::PendingConnect;
            },
            (UserState::Connected, LinkRequest::Disconnect) => {
                self.state = UserState::PendingDisconnect;
            },
            _ => {
                return None;
            },
        }
        Some(LinkMessage::UserLink(UserLink { user_id: self.user_id.duplicate(), req }))
    }

    /// Handles a response from the link manager. An expected response moves
    /// the state and is to be forwarded to the wire as it is (`true`); any
    /// other is ignored, leaving the state as it was (`false`).
    pub fn handle_user_msg(&mut self, msg: &UserResponse) -> (r: bool)
        ensures
            final(self).user_id == old(self).user_id,
            final(self).ended == old(self).ended,
            r == Self::expects(old(self).state, *msg),
            !r ==> final(self).state == old(self).state,
            r ==> final(self).state == (if msg is Connected {
                UserState::Connected
            } else {
                UserState::Disconnected
            }),
    {
        match (self.state, msg) {
            (UserState::PendingConnect, UserResponse::Connected { .. }) => {
                self.state = UserState::Connected;
            },
            (UserState::PendingDisconnect, UserResponse::Disconnected) => {
                self.state = UserState::Disconnected;
            },
            (UserState::PendingConnect, UserResponse::NoSuchDevice) => {
                self.state = UserState::Disconnected;
            },
            (_, UserResponse::Dropped) => {
                self.state = UserState::Disconnected;
            },
            _ => {
                return false;
            },
        }
        true
    }

    /// The drop report owed to the link manager when the session ends: the
    /// first call gives it, later calls give nothing.
    pub fn finish(&mut self) -> (r: Option<LinkMessage>)
        ensures
            final(self).ended,
            final(self).user_id == old(self).user_id,
            final(self).state == old(self).state,
            !old(self).ended ==> (r matches Some(LinkMessage::UserDropped(u)) && u@
                == old(self).user_id@),
            old(self).ended ==> r is None,
    {
        if self.ended {
            None
        } else {
            self.ended = true;
            Some(LinkMessage::UserDropped(self.user_id.duplicate()))
        }
    }
}

/// Whether a device session is paired, as its mailbox has told it.
#[derive(Clone, Copy, Debug, PartialEq, Eq, Structural)]
pub enum DeviceState {
    Disconnected,
    Connected,
}

/// Whether a device session has a video being recorded.
#[derive(Clone, Copy, Debug, PartialEq, Eq, Structural)]
pub enum VideoState {
    WaitStart,
    /// An ingestion is running and the session holds the sending end of its
    /// channel.
    WaitDone,
}

/// What the device session must do with the ingestion channel.
#[derive(Debug)]
pub enum VideoAction {
    /// Open a channel, start an ingestion on its receiving end, and keep the
    /// sending end.
    StartIngestion { user_id: UserId, workout_type: WorkoutType },
    /// Send these frames on the channel.
    SendFrames(Vec<Frame>),
    /// Send the end of the video on the channel, then drop the sending end.
    SendDone,
    /// Drop the sending end, if one is held; the ingestion then aborts.
    Cancel,
}

/// The protocol state of one device connection.
pub struct DeviceSession {
    pub device_id: DeviceId,
    pub connection: DeviceState,
    pub video: VideoState,
    /// Whether the drop of this session has been reported.
    pub ended: bool,
}

/// The video substate after `req` is handled in state `s`.
pub open spec fn video_next(s: VideoState, req: VideoRequest) -> VideoState {
    match (s, req) {
        (VideoState::WaitStart, VideoRequest::Start { .. }) => VideoState::WaitDone,
        (VideoState::WaitDone, VideoRequest::Frames(_)) => VideoState::WaitDone,
        _ => VideoState::WaitStart,
    }
}

/// Whether `req` is accepted in state `s`.
pub open spec fn video_accepts(s: VideoState, req: VideoRequest) -> bool {
    ||| (s == VideoState::WaitStart && req is Start)
    ||| (s == VideoState::WaitDone && (req is Frames || req is Done))
    ||| req is Cancel
}

impl DeviceSession {
    pub fn new(device_id: DeviceId) -> (r: Self)
        ensures
            r.device_id@ == device_id@,
            r.connection == DeviceState::Disconnected,
            r.video == VideoState::WaitStart,
            !r.ended,
    {
        DeviceSession {
            device_id,
            connection: DeviceState::Disconnected,
            video: VideoState::WaitStart,
            ended: false,
        }
    }

    /// Handles a video request read from the wire. A refused request leaves
    /// the video substate at `WaitStart` (any held channel is dropped) and
    /// ends the session.
    pub fn handle_ws_msg(&mut self, req: VideoRequest) -> (r: Result<VideoAction, SessionError>)
        ensures
            final(self).device_id == old(self).device_id,
            final(self).connection == old(self).connection,
            final(self).ended == old(self).ended,
            final(self).video == video_next(old(self).video, req),
            r is Ok <==> video_accepts(old(self).video, req),
            r is Err ==> r == Err::<VideoAction, SessionError>(SessionError::InvalidVideoRequest),
            r is Ok ==> match req {
                VideoRequest::Start { user_id, workout_type } => (r->Ok_0 matches VideoAction::StartIngestion { user_id: u, workout_type: w } && u@ == user_id@
                    && w == workout_type),
                VideoRequest::Frames(frames) => r->Ok_0 == VideoAction::SendFrames(frames),
                VideoRequest::Done => r->Ok_0 is SendDone,
                VideoRequest::Cancel => r->Ok_0 is Cancel,
            },
    {
        let s = self.video;
        self.video = VideoState::WaitStart;
        match (s, req) {
            (VideoState::WaitStart, VideoRequest::Start { user_id, workout_type }) => {
                self.video = VideoState::WaitDone;
                Ok(VideoAction::StartIngestion { user_id, workout_type })
            },
            (VideoState::WaitDone, VideoRequest::Frames(frames)) => {
                self.video = VideoState::WaitDone;
                Ok(VideoAction::SendFrames(frames))
            },
            (VideoState::WaitDone, VideoRequest::Done) => Ok(VideoAction::SendDone),
            (_, VideoRequest::Cancel) => Ok(VideoAction::Cancel),
            _ => Err(SessionError::InvalidVideoRequest),
        }
    }

    /// Handles a response from the link manager; on `Ok` it is forwarded to
    /// the wire as it is.
    pub fn handle_device_msg(&mut self, msg: &DeviceResponse) -> (r: Result<(), SessionError>)
        ensures
            final(self).device_id == old(self).device_id,
            final(self).video == old(self).video,
            final(self).ended == old(self).ended,
            r is Ok <==> ((old(self).connection == DeviceState::Disconnected && msg is Connected)
                || (old(self).connection == DeviceState::Connected && msg is Disconnected)),
            r is Ok ==> final(self).connection == (if msg is Connected {
                DeviceState::Connected
            } else {
                DeviceState::Disconnected
            }),
            r is Err ==> r == Err::<(), SessionError>(SessionError::UnexpectedDeviceResponse)
                && final(self).connection == old(self).connection,
    {
        match (self.connection, msg) {
            (DeviceState::Disconnected, DeviceResponse::Connected { .. }) => {
                self.connection = DeviceState::Connected;
                Ok(())
            },
            (DeviceState::Connected, DeviceResponse::Disconnected) => {
                self.connection = DeviceState::Disconnected;
                Ok(())
            },
            _ => Err(SessionError::UnexpectedDeviceResponse),
        }
    }

    /// The drop report owed to the link manager when the session ends: the
    /// first call gives it, later calls give nothing.
    pub fn finish(&mut self) -> (r: Option<LinkMessage>)
        ensures
            final(self).ended,
            final(self).device_id == old(self).device_id,
            !old(self).ended ==> (r matches Some(LinkMessage::DeviceDropped(d)) && d@
                == old(self).device_id@),
            old(self).ended ==> r is None,
    {
        if self.ended {
            None
        } else {
            self.ended = true;
            Some(LinkMessage::DeviceDropped(self.device_id.duplicate()))
        }
    }
}

/// `Cancel` returns the video substate to `WaitStart` from any state, and a
/// second `Cancel` changes nothing.
pub proof fn lemma_cancel_idempotent(s: VideoState)
    ensures
        video_accepts(s, VideoRequest::Cancel),
        video_next(s, VideoRequest::Cancel) == VideoState::WaitStart,
        video_next(video_next(s, VideoRequest::Cancel), VideoRequest::Cancel) == video_next(
            s,
            VideoRequest::Cancel,
        ),
{
}

} // verus!
