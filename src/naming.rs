use vstd::prelude::*;

use crate::ids::{UserId, VideoId};
use crate::messages::WorkoutType;

verus! {

/// Directory under which videos and their frame directories live.
pub const VIDEO_ROOT: &'static str = "../.video";

/// Firestore collection of users, and the sub-collection of their workouts.
pub const USER_COLLECTION: &'static str = "users";

pub const WORKOUT_COLLECTION: &'static str = "workouts";

/// The program that runs an analyzer script.
pub const ANALYZER_PROGRAM: &'static str = "python";

pub open spec fn digit_char(d: nat) -> char {
    if d == 0 {
        '0'
    } else if d == 1 {
        '1'
    } else if d == 2 {
        '2'
    } else if d == 3 {
        '3'
    } else if d == 4 {
        '4'
    } else if d == 5 {
        '5'
    } else if d == 6 {
        '6'
    } else if d == 7 {
        '7'
    } else if d == 8 {
        '8'
    } else {
        '9'
    }
}

/// The decimal digits of `n`, most significant first, without leading zeros.
pub open spec fn decimal(n: nat) -> Seq<char>
    decreases n,
{
    if n < 10 {
        seq![digit_char(n)]
    } else {
        decimal(n / 10).push(digit_char(n % 10))
    }
}

/// `n` in decimal, padded with zeros on the left to at least four digits.
pub open spec fn pad4(n: nat) -> Seq<char> {
    if n < 10 {
        seq!['0', '0', '0'] + decimal(n)
    } else if n < 100 {
        seq!['0', '0'] + decimal(n)
    } else if n < 1000 {
        seq!['0'] + decimal(n)
    } else {
        decimal(n)
    }
}

/// The directory that holds the frames of a video.
pub open spec fn folder_spec(video_id: Seq<char>) -> Seq<char> {
    VIDEO_ROOT@ + "/"@ + video_id + ".d"@
}

/// The file of the frame with the given index.
pub open spec fn frame_file_spec(folder: Seq<char>, index: nat) -> Seq<char> {
    folder + "/"@ + pad4(index) + ".png"@
}

/// The pattern by which the analyzer reads the frames.
pub open spec fn frame_pattern_spec(folder: Seq<char>) -> Seq<char> {
    folder + "/%04d.png"@
}

/// The video file that the analyzer writes.
pub open spec fn video_file_spec(video_id: Seq<char>) -> Seq<char> {
    VIDEO_ROOT@ + "/"@ + video_id + ".mp4"@
}

/// The name of the uploaded video object.
pub open spec fn blob_name_spec(video_id: Seq<char>) -> Seq<char> {
    "videos/"@ + video_id
}

/// The document path under which a user's workouts are kept.
pub open spec fn user_document_spec(user_id: Seq<char>) -> Seq<char> {
    USER_COLLECTION@ + "/"@ + user_id
}

pub open spec fn analyzer_script_spec(w: WorkoutType) -> Seq<char> {
    match w {
        WorkoutType::Squat => "./.ml/squatPredictor.py"@,
        WorkoutType::Pushup => "./.ml/pushupPredictor.py"@,
    }
}

pub open spec fn digit_value(c: char) -> nat {
    if c == '1' {
        1
    } else if c == '2' {
        2
    } else if c == '3' {
        3
    } else if c == '4' {
        4
    } else if c == '5' {
        5
    } else if c == '6' {
        6
    } else if c == '7' {
        7
    } else if c == '8' {
        8
    } else if c == '9' {
        9
    } else {
        0
    }
}

/// The number that a string of decimal digits reads as.
pub open spec fn digits_value(s: Seq<char>) -> nat
    decreases s.len(),
{
    if s.len() == 0 {
        0
    } else {
        digits_value(s.drop_last()) * 10 + digit_value(s.last())
    }
}

proof fn lemma_digit_value(d: nat)
    requires
        d < 10,
    ensures
        digit_value(digit_char(d)) == d,
{
}

proof fn lemma_decimal_value(n: nat)
    ensures
        digits_value(decimal(n)) == n,
    decreases n,
{
    lemma_digit_value(n % 10);
    let s = decimal(n);
    if n >= 10 {
        lemma_decimal_value(n / 10);
        assert(s.drop_last() =~= decimal(n / 10));
        assert(s.last() == digit_char(n % 10));
        assert(digits_value(s) == digits_value(s.drop_last()) * 10 + digit_value(s.last()));
        assert(n == (n / 10) * 10 + n % 10);
    } else {
        assert(s.drop_last() =~= Seq::<char>::empty());
        assert(s.last() == digit_char(n));
        assert(digits_value(s) == digits_value(s.drop_last()) * 10 + digit_value(s.last()));
    }
}

proof fn lemma_leading_zeros(z: Seq<char>, t: Seq<char>)
    requires
        forall|i: int| 0 <= i < z.len() ==> z[i] == '0',
    ensures
        digits_value(z + t) == digits_value(t),
    decreases t.len(),
{
    if t.len() == 0 {
        assert(z + t =~= z);
        lemma_zeros_value(z);
    } else {
        lemma_leading_zeros(z, t.drop_last());
        assert((z + t).drop_last() =~= z + t.drop_last());
    }
}

proof fn lemma_zeros_value(z: Seq<char>)
    requires
        forall|i: int| 0 <= i < z.len() ==> z[i] == '0',
    ensures
        digits_value(z) == 0,
    decreases z.len(),
{
    if z.len() > 0 {
        lemma_zeros_value(z.drop_last());
    }
}

/// Padded indices read back as the index.
pub proof fn lemma_pad4_value(n: nat)
    ensures
        digits_value(pad4(n)) == n,
{
    lemma_decimal_value(n);
    if n < 10 {
        lemma_leading_zeros(seq!['0', '0', '0'], decimal(n));
    } else if n < 100 {
        lemma_leading_zeros(seq!['0', '0'], decimal(n));
    } else if n < 1000 {
        lemma_leading_zeros(seq!['0'], decimal(n));
    }
}

/// Distinct frame indices get distinct files, so a directory holding the
/// frames below `n` holds exactly `n` files.
pub proof fn lemma_frame_files_distinct(folder: Seq<char>, i: nat, j: nat)
    requires
        frame_file_spec(folder, i) == frame_file_spec(folder, j),
    ensures
        i == j,
{
    reveal_strlit("/");
    reveal_strlit(".png");
    let a = frame_file_spec(folder, i);
    let b = frame_file_spec(folder, j);
    let start = folder.len() + 1;
    assert(a.subrange(start as int, a.len() - 4) =~= pad4(i));
    assert(b.subrange(start as int, b.len() - 4) =~= pad4(j));
    lemma_pad4_value(i);
    lemma_pad4_value(j);
}

fn digit_str(d: u64) -> (r: &'static str)
    requires
        d < 10,
    ensures
        r@ == seq![digit_char(d as nat)],
{
    proof {
        reveal_strlit("0");
        reveal_strlit("1");
        reveal_strlit("2");
        reveal_strlit("3");
        reveal_strlit("4");
        reveal_strlit("5");
        reveal_strlit("6");
        reveal_strlit("7");
        reveal_strlit("8");
        reveal_strlit("9");
    }
    if d == 0 {
        "0"
    } else if d == 1 {
        "1"
    } else if d == 2 {
        "2"
    } else if d == 3 {
        "3"
    } else if d == 4 {
        "4"
    } else if d == 5 {
        "5"
    } else if d == 6 {
        "6"
    } else if d == 7 {
        "7"
    } else if d == 8 {
        "8"
    } else {
        "9"
    }
}

fn append_decimal(s: &mut String, n: u64)
    ensures
        final(s)@ == old(s)@ + decimal(n as nat),
    decreases n,
{
    if n >= 10 {
        append_decimal(s, n / 10);
    }
    s.append(digit_str(n % 10));
    assert(final(s)@ =~= old(s)@ + decimal(n as nat));
}

/// `n` in decimal, padded with zeros to at least four digits.
pub fn pad4_decimal(n: u64) -> (r: String)
    ensures
        r@ == pad4(n as nat),
{
    let mut s = String::new();
    proof {
        reveal_strlit("0");
    }
    if n < 1000 {
        s.append("0");
    }
    if n < 100 {
        s.append("0");
    }
    if n < 10 {
        s.append("0");
    }
    append_decimal(&mut s, n);
    assert(s@ =~= pad4(n as nat));
    s
}

/// The directory that holds the frames of a video: `{VIDEO_ROOT}/{id}.d`.
pub fn folder_path(video_id: &VideoId) -> (r: String)
    ensures
        r@ == folder_spec(video_id@),
{
    let mut s = String::from_str(VIDEO_ROOT);
    s.append("/");
    s.append(video_id.as_str());
    s.append(".d");
    s
}

/// The file of frame `index`: `{folder}/{index:04}.png`.
pub fn frame_file(folder: &str, index: u64) -> (r: String)
    ensures
        r@ == frame_file_spec(folder@, index as nat),
{
    let mut s = String::from_str(folder);
    s.append("/");
    let digits = pad4_decimal(index);
    s.append(digits.as_str());
    s.append(".png");
    s
}

/// The pattern by which the analyzer reads the frames: `{folder}/%04d.png`.
pub fn frame_pattern(folder: &str) -> (r: String)
    ensures
        r@ == frame_pattern_spec(folder@),
{
    let mut s = String::from_str(folder);
    s.append("/%04d.png");
    s
}

/// The video file the analyzer writes: `{VIDEO_ROOT}/{id}.mp4`.
pub fn video_file(video_id: &VideoId) -> (r: String)
    ensures
        r@ == video_file_spec(video_id@),
{
    let mut s = String::from_str(VIDEO_ROOT);
    s.append("/");
    s.append(video_id.as_str());
    s.append(".mp4");
    s
}

/// The name of the uploaded video object: `videos/{id}`.
pub fn blob_name(video_id: &VideoId) -> (r: String)
    ensures
        r@ == blob_name_spec(video_id@),
{
    let mut s = String::from_str("videos/");
    s.append(video_id.as_str());
    s
}

/// The document under which a user's workouts are kept: `users/{id}`.
pub fn user_document(user_id: &UserId) -> (r: String)
    ensures
        r@ == user_document_spec(user_id@),
{
    let mut s = String::from_str(USER_COLLECTION);
    s.append("/");
    s.append(user_id.as_str());
    s
}

/// The analyzer script for a kind of workout.
pub fn analyzer_script(w: WorkoutType) -> (r: &'static str)
    ensures
        r@ == analyzer_script_spec(w),
{
    match w {
        WorkoutType::Squat => "./.ml/squatPredictor.py",
        WorkoutType::Pushup => "./.ml/pushupPredictor.py",
    }
}

/// The arguments of the analyzer run: its script, the frame pattern, and the
/// video file to write.
pub fn analyzer_args(w: WorkoutType, folder: &str, video_id: &VideoId) -> (r: Vec<String>)
    ensures
        r@.len() == 3,
        r@[0]@ == analyzer_script_spec(w),
        r@[1]@ == frame_pattern_spec(folder@),
        r@[2]@ == video_file_spec(video_id@),
{
    let mut args: Vec<String> = Vec::new();
    args.push(String::from_str(analyzer_script(w)));
    args.push(frame_pattern(folder));
    args.push(video_file(video_id));
    args
}

} // verus!
