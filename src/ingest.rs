use vstd::prelude::*;

use crate::ids::{UserId, VideoId};
use crate::messages::{Feedback, Frame, WorkoutType};
use crate::naming::{folder_path, folder_spec};

verus! {

/// Relies on `uuid::Uuid::new_v4` and the hyphenated text form that its
/// `Display` writes: 36 characters with hyphens at 8, 13, 18 and 23.
#[verifier::external_body]
fn fresh_video_id() -> (r: VideoId)
    ensures
        r@.len() == 36,
        r@[8] == '-' && r@[13] == '-' && r@[18] == '-' && r@[23] == '-',
{
    VideoId(uuid::Uuid::new_v4().to_string())
}

/// What a device session sends on the ingestion channel.
#[derive(Debug)]
pub enum VideoPart {
    Frames(Vec<Frame>),
    Done,
}

/// What the ingestion task must do next.
#[derive(Debug)]
pub enum IngestAction {
    /// Decode the frames and write frame `first_index + i` of the batch to
    /// its file, in parallel; the first failure aborts the video.
    WriteFrames { first_index: u64, frames: Vec<Frame> },
    /// Store the entry, run the analyzer, store its feedback, upload the
    /// video, then remove the video file and the frame directory.
    Finalize,
    /// The channel closed before the end of the video: remove the frame
    /// directory.
    RemoveFolder,
}

pub open spec fn sum_batches(batches: Seq<nat>) -> nat
    decreases batches.len(),
{
    if batches.len() == 0 {
        0
    } else {
        sum_batches(batches.drop_last()) + batches.last()
    }
}

/// The state of the ingestion of one video.
pub struct Ingestion {
    pub video_id: VideoId,
    pub user_id: UserId,
    pub workout_type: WorkoutType,
    /// The frame directory, created when the ingestion starts.
    pub folder: String,
    /// Frames received so far; frame `i` is stored as file `i`.
    pub received_count: u64,
    /// Whether the video is done or abandoned; its directory is then gone,
    /// or being removed by the finalization.
    pub finished: bool,
    /// Sizes of the frame batches consumed, in order.
    pub batches: Ghost<Seq<nat>>,
}

impl Ingestion {
    pub open spec fn wf(&self) -> bool {
        &&& self.received_count == sum_batches(self.batches@)
        &&& self.folder@ == folder_spec(self.video_id@)
    }

    /// Starts the ingestion of a new video under a fresh id; the caller
    /// creates `folder` before handing it any part.
    pub fn start(user_id: UserId, workout_type: WorkoutType) -> (r: Self)
        ensures
            r.wf(),
            r.user_id@ == user_id@,
            r.workout_type == workout_type,
            r.video_id@.len() == 36,
            r.received_count == 0,
            r.batches@ == Seq::<nat>::empty(),
            !r.finished,
    {
        let video_id = fresh_video_id();
        Ingestion::with_id(video_id, user_id, workout_type)
    }

    /// Starts the ingestion of a video whose id is given.
    pub fn with_id(video_id: VideoId, user_id: UserId, workout_type: WorkoutType) -> (r: Self)
        ensures
            r.wf(),
            r.video_id@ == video_id@,
            r.user_id@ == user_id@,
            r.workout_type == workout_type,
            r.received_count == 0,
            r.batches@ == Seq::<nat>::empty(),
            !r.finished,
    {
        let folder = folder_path(&video_id);
        Ingestion {
            video_id,
            user_id,
            workout_type,
            folder,
            received_count: 0,
            finished: false,
            batches: Ghost(Seq::empty()),
        }
    }

    /// Consumes the next part read from the channel; `None` is the channel
    /// closed.
    pub fn handle_part(&mut self, part: Option<VideoPart>) -> (r: IngestAction)
        requires
            old(self).wf(),
            !old(self).finished,
            part matches Some(VideoPart::Frames(f)) ==> old(self).received_count + f@.len()
                <= u64::MAX,
        ensures
            final(self).wf(),
            final(self).video_id == old(self).video_id,
            final(self).folder == old(self).folder,
            final(self).user_id == old(self).user_id,
            final(self).workout_type == old(self).workout_type,
            match part {
                Some(VideoPart::Frames(f)) => {
                    &&& r == IngestAction::WriteFrames {
                        first_index: old(self).received_count,
                        frames: f,
                    }
                    &&& final(self).received_count == old(self).received_count + f@.len()
                    &&& final(self).batches@ == old(self).batches@.push(f@.len())
                    &&& !final(self).finished
                },
                Some(VideoPart::Done) => {
                    &&& r is Finalize
                    &&& final(self).received_count == old(self).received_count
                    &&& final(self).batches@ == old(self).batches@
                    &&& final(self).finished
                },
                None => {
                    &&& r is RemoveFolder
                    &&& final(self).received_count == old(self).received_count
                    &&& final(self).batches@ == old(self).batches@
                    &&& final(self).finished
                },
            },
    {
        match part {
            Some(VideoPart::Frames(frames)) => {
                let first_index = self.received_count;
                let ghost consumed = self.batches@.push(frames@.len());
                assert(consumed.drop_last() =~= self.batches@);
                self.received_count = self.received_count + frames.len() as u64;
                self.batches = Ghost(consumed);
                IngestAction::WriteFrames { first_index, frames }
            },
            Some(VideoPart::Done) => {
                self.finished = true;
                IngestAction::Finalize
            },
            None => {
                self.finished = true;
                IngestAction::RemoveFolder
            },
        }
    }
}

/// Batches take consecutive frame indices from zero: batch `i` starts at the
/// total of the batches before it, ends where batch `i + 1` starts, and
/// stays below the total of all batches.
pub proof fn lemma_batches_fill_indices(batches: Seq<nat>, i: int)
    requires
        0 <= i < batches.len(),
    ensures
        sum_batches(batches.subrange(0, i + 1)) == sum_batches(batches.subrange(0, i))
            + batches[i],
        sum_batches(batches.subrange(0, i + 1)) <= sum_batches(batches),
    decreases batches.len(),
{
    let p = batches.subrange(0, i + 1);
    assert(p.drop_last() =~= batches.subrange(0, i));
    if i + 1 < batches.len() {
        lemma_batches_fill_indices(batches.drop_last(), i);
        assert(batches.drop_last().subrange(0, i + 1) =~= p);
        assert(batches.drop_last().subrange(0, i) =~= batches.subrange(0, i));
    } else {
        assert(p =~= batches);
    }
}

/// Every frame index below the total of the batches falls in the range of
/// some batch: together the batches name the files `0 .. total`.
pub proof fn lemma_batches_cover(batches: Seq<nat>, k: nat)
    requires
        k < sum_batches(batches),
    ensures
        exists|i: int|
            0 <= i < batches.len() && sum_batches(batches.subrange(0, i)) <= k
                < #[trigger] sum_batches(batches.subrange(0, i + 1)),
    decreases batches.len(),
{
    let n = batches.len() - 1;
    let pre = batches.drop_last();
    if k < sum_batches(pre) {
        lemma_batches_cover(pre, k);
        let i = choose|i: int|
            0 <= i < pre.len() && sum_batches(pre.subrange(0, i)) <= k
                < #[trigger] sum_batches(pre.subrange(0, i + 1));
        assert(pre.subrange(0, i) =~= batches.subrange(0, i));
        assert(pre.subrange(0, i + 1) =~= batches.subrange(0, i + 1));
    } else {
        assert(batches.subrange(0, n) =~= pre);
        assert(batches.subrange(0, n + 1) =~= batches);
    }
}

/// A stored workout: when it was recorded, its kind, and, once analysed, the
/// video id and the feedback per repetition.
#[derive(Clone, Debug)]
pub struct WorkoutEntry {
    /// The document id the database assigned, once stored.
    pub id: Option<String>,
    /// Seconds since the Unix epoch.
    pub date_secs: i64,
    /// Nanoseconds within the second.
    pub date_nanos: u32,
    pub workout_type: WorkoutType,
    pub video_id: Option<VideoId>,
    pub reps: Option<Vec<Feedback>>,
}

impl WorkoutEntry {
    /// The entry stored before the analysis: no video id and no feedback.
    pub fn pending(date_secs: i64, date_nanos: u32, workout_type: WorkoutType) -> (r: Self)
        ensures
            r.id is None,
            r.date_secs == date_secs,
            r.date_nanos == date_nanos,
            r.workout_type == workout_type,
            r.video_id is None,
            r.reps is None,
    {
        WorkoutEntry { id: None, date_secs, date_nanos, workout_type, video_id: None, reps: None }
    }

    /// The stored entry completed with the video id and the feedback.
    pub fn with_feedback(self, video_id: &VideoId, feedback: Vec<Feedback>) -> (r: Self)
        ensures
            r.id == self.id,
            r.date_secs == self.date_secs,
            r.date_nanos == self.date_nanos,
            r.workout_type == self.workout_type,
            r.video_id matches Some(v) && v@ == video_id@,
            r.reps == Some(feedback),
    {
        WorkoutEntry {
            id: self.id,
            date_secs: self.date_secs,
            date_nanos: self.date_nanos,
            workout_type: self.workout_type,
            video_id: Some(VideoId(video_id.0.clone())),
            reps: Some(feedback),
        }
    }
}

} // verus!
