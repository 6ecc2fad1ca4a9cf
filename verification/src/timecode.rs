//! Minute:second:frame addressing of positions on a disc.
//!
//! A position is a signed count of frames. One second holds 75 frames and one
//! minute holds 60 seconds. Positions before the start of the user data (the
//! pregap) are negative.

use vstd::prelude::*;
use vstd::std_specs::ops::AddSpecImpl;

verus! {

/// The number of frames (sectors) in one second. A drive that delivers this
/// many sectors per second plays an audio disc at its natural speed.
pub const FRAMES_PER_SECOND: i32 = 75;

/// The number of seconds in one minute.
pub const SECONDS_PER_MINUTE: i32 = 60;

/// Quotient of `a` by a positive `b`, rounded toward zero.
pub open spec fn trunc_div(a: int, b: int) -> int
    recommends
        b > 0,
{
    if a >= 0 {
        a / b
    } else {
        -((-a) / b)
    }
}

/// Remainder of `a` by a positive `b` that goes with [`trunc_div`]: it has the
/// sign of `a`.
pub open spec fn trunc_rem(a: int, b: int) -> int
    recommends
        b > 0,
{
    a - b * trunc_div(a, b)
}

/// The frame count that stands for `minutes:seconds:frames`.
pub open spec fn frame_count(minutes: int, seconds: int, frames: int) -> int {
    minutes * 60 * 75 + seconds * 75 + frames
}

/// The minutes, seconds and frames that a frame count splits into. All three
/// carry the sign of the count.
pub open spec fn msf_of(frames: int) -> (int, int, int) {
    let seconds = trunc_div(frames, 75);
    (trunc_div(seconds, 60), trunc_rem(seconds, 60), trunc_rem(frames, 75))
}

/// Whether `n` can be held in an `i32`.
pub open spec fn fits_i32(n: int) -> bool {
    i32::MIN <= n <= i32::MAX
}

/// A position on a disc, held as a signed number of frames.
#[derive(Clone, Copy, Debug)]
pub struct Timecode(pub i32);

impl View for Timecode {
    type V = int;

    /// The number of frames.
    open spec fn view(&self) -> int {
        self.0 as int
    }
}

impl Default for Timecode {
    /// The position `00:00:00`.
    fn default() -> (r: Timecode)
        ensures
            r@ == 0,
    {
        Timecode(0)
    }
}

impl Timecode {
    /// The position at which `track` starts, as the track record gives it.
    pub fn from_track(track: &crate::mds::Track) -> (r: Timecode)
        ensures
            r@ == frame_count(track.minute as int, track.second as int, track.frame as int),
    {
        Timecode::from_msf(track.minute as i32, track.second as i32, track.frame as i32)
    }

    /// The position `minutes:seconds:frames`. The components need not be in
    /// range of a clock face: 90 seconds count as a minute and a half, and a
    /// negative component counts backwards.
    pub fn from_msf(minutes: i32, seconds: i32, frames: i32) -> (r: Timecode)
        requires
            fits_i32(frame_count(minutes as int, seconds as int, frames as int)),
        ensures
            r@ == frame_count(minutes as int, seconds as int, frames as int),
    {
        let total: i64 = (minutes as i64) * 60 * 75 + (seconds as i64) * 75 + (frames as i64);
        Timecode(total as i32)
    }

    /// The minutes, seconds and frames of this position. Each has the sign of
    /// the position.
    pub fn msf(&self) -> (r: (i32, i32, i32))
        ensures
            (r.0 as int, r.1 as int, r.2 as int) == msf_of(self@),
    {
        let seconds: i32 = self.0 / FRAMES_PER_SECOND;
        (seconds / SECONDS_PER_MINUTE, seconds % SECONDS_PER_MINUTE, self.0 % FRAMES_PER_SECOND)
    }
}

impl core::ops::Add for Timecode {
    type Output = Timecode;

    /// The position `rhs` frames after `self`.
    fn add(self, rhs: Timecode) -> (r: Timecode) {
        Timecode(self.0 + rhs.0)
    }
}

impl core::ops::AddAssign for Timecode {
    /// Moves the position on by `rhs` frames.
    fn add_assign(&mut self, rhs: Timecode)
        requires
            fits_i32(old(self)@ + rhs@),
        ensures
            final(self)@ == old(self)@ + rhs@,
    {
        self.0 = self.0 + rhs.0;
    }
}

impl AddSpecImpl for Timecode {
    open spec fn obeys_add_spec() -> bool {
        true
    }

    open spec fn add_req(self, rhs: Timecode) -> bool {
        fits_i32(self@ + rhs@)
    }

    open spec fn add_spec(self, rhs: Timecode) -> Timecode {
        Timecode((self.0 + rhs.0) as i32)
    }
}

/// Splitting a position that was put together from a minute count, a second
/// count below 60 and a frame count below 75, none of them negative, gives
/// those three numbers back.
pub proof fn lemma_msf_round_trip(minutes: int, seconds: int, frames: int)
    requires
        0 <= minutes,
        0 <= seconds < 60,
        0 <= frames < 75,
    ensures
        msf_of(frame_count(minutes, seconds, frames)) == (minutes, seconds, frames),
{
    let total = frame_count(minutes, seconds, frames);
    let all_seconds = minutes * 60 + seconds;
    assert(total == all_seconds * 75 + frames) by (nonlinear_arith)
        requires
            total == minutes * 60 * 75 + seconds * 75 + frames,
            all_seconds == minutes * 60 + seconds,
    ;
    assert(total / 75 == all_seconds && total % 75 == frames) by (nonlinear_arith)
        requires
            total == all_seconds * 75 + frames,
            0 <= frames < 75,
    ;
    assert(all_seconds / 60 == minutes && all_seconds % 60 == seconds) by (nonlinear_arith)
        requires
            all_seconds == minutes * 60 + seconds,
            0 <= seconds < 60,
    ;
}

/// A position and the three numbers it splits into stand for the same frame
/// count.
pub proof fn lemma_msf_recomposes(frames: int)
    ensures
        ({
            let (m, s, f) = msf_of(frames);
            frame_count(m, s, f) == frames
        }),
{
    let seconds = trunc_div(frames, 75);
    assert(60 * trunc_div(seconds, 60) * 75 == 75 * (60 * trunc_div(seconds, 60)))
        by (nonlinear_arith);
    assert(trunc_div(seconds, 60) * 60 * 75 == 60 * trunc_div(seconds, 60) * 75)
        by (nonlinear_arith);
    assert(trunc_rem(seconds, 60) * 75 == 75 * seconds - 75 * (60 * trunc_div(seconds, 60)))
        by (nonlinear_arith)
        requires
            trunc_rem(seconds, 60) == seconds - 60 * trunc_div(seconds, 60),
    ;
}

} // verus!
