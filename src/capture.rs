use vstd::prelude::*;

use crate::messages::{Frame, VideoRequest, WorkoutType};
use crate::pixels::{encode_rgba8, pack565, narrow5, narrow6, IMAGE_HEIGHT, IMAGE_WIDTH};
use crate::texture::Texture;

verus! {

/// Groups captured frames into the batches a device sends.
pub struct FrameBatcher {
    pub batch_size: usize,
    pub pending: Vec<Frame>,
}

impl FrameBatcher {
    pub fn new(batch_size: usize) -> (r: Self)
        requires
            batch_size > 0,
        ensures
            r.batch_size == batch_size,
            r.pending@.len() == 0,
    {
        FrameBatcher { batch_size, pending: Vec::new() }
    }

    /// Adds a captured frame; gives the batch to send when it is full.
    pub fn push(&mut self, frame: Frame) -> (r: Option<VideoRequest>)
        requires
            old(self).pending@.len() < old(self).batch_size,
        ensures
            final(self).batch_size == old(self).batch_size,
            final(self).pending@.len() < final(self).batch_size,
            ({
                let all = old(self).pending@.push(frame);
                if all.len() == old(self).batch_size {
                    r matches Some(VideoRequest::Frames(b)) && b@ == all
                        && final(self).pending@.len() == 0
                } else {
                    r is None && final(self).pending@ == all
                }
            }),
    {
        self.pending.push(frame);
        if self.pending.len() == self.batch_size {
            let mut batch: Vec<Frame> = Vec::new();
            core::mem::swap(&mut batch, &mut self.pending);
            Some(VideoRequest::Frames(batch))
        } else {
            None
        }
    }

    /// What closes the video: the frames not yet sent, if any, then `Done`.
    pub fn finish(self) -> (r: Vec<VideoRequest>)
        ensures
            self.pending@.len() == 0 ==> r@.len() == 1 && r@[0] is Done,
            self.pending@.len() > 0 ==> r@.len() == 2 && r@[0] == VideoRequest::Frames(self.pending)
                && r@[1] is Done,
    {
        let mut out: Vec<VideoRequest> = Vec::new();
        if self.pending.len() > 0 {
            out.push(VideoRequest::Frames(self.pending));
        }
        out.push(VideoRequest::Done);
        out
    }
}

/// The workout chosen by the keys: key 0 for squats, key 1 for push-ups.
pub fn workout_for_keys(pressed: [bool; 4]) -> (r: Option<WorkoutType>)
    ensures
        pressed@[0] ==> r == Some(WorkoutType::Squat),
        !pressed@[0] && pressed@[1] ==> r == Some(WorkoutType::Pushup),
        !pressed@[0] && !pressed@[1] ==> r is None,
{
    if pressed[0] {
        Some(WorkoutType::Squat)
    } else if pressed[1] {
        Some(WorkoutType::Pushup)
    } else {
        None
    }
}

/// The workout chosen by touching one of the two selection areas.
pub fn workout_for_area(i: usize) -> (r: WorkoutType)
    ensures
        i == 0 ==> r == WorkoutType::Squat,
        i != 0 ==> r == WorkoutType::Pushup,
{
    if i == 0 {
        WorkoutType::Squat
    } else {
        WorkoutType::Pushup
    }
}

/// The recording clock one second later.
pub fn advance_clock(min: u8, sec: u8) -> (r: (u8, u8))
    requires
        min < 255,
        sec < 60,
    ensures
        r.0 as int * 60 + r.1 as int == min as int * 60 + sec as int + 1,
        r.1 < 60,
{
    if sec + 1 == 60 {
        (min + 1, 0)
    } else {
        (min, sec + 1)
    }
}

/// A full-screen texture from RGBA pixels; `None` unless there is exactly
/// one pixel per screen position.
pub fn texture_from_rgba(rgba: &Vec<u8>) -> (r: Option<Texture>)
    ensures
        r is Some <==> rgba@.len() / 4 == IMAGE_WIDTH * IMAGE_HEIGHT,
        r matches Some(t) ==> {
            &&& t.wf()
            &&& t.spec_width() == IMAGE_WIDTH
            &&& t.spec_height() == IMAGE_HEIGHT
            &&& forall|p: int|
                0 <= p < t.spec_data().len() ==> t.spec_data()[p] as nat == #[trigger] pack565(
                    narrow5(rgba@[4 * p] as nat),
                    narrow6(rgba@[4 * p + 1] as nat),
                    narrow5(rgba@[4 * p + 2] as nat),
                )
        },
{
    let data = encode_rgba8(rgba);
    if data.len() == IMAGE_WIDTH * IMAGE_HEIGHT {
        Some(Texture::new(IMAGE_WIDTH, IMAGE_HEIGHT, data))
    } else {
        None
    }
}

} // verus!
