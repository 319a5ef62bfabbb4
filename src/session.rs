use vstd::arithmetic::div_mod::{lemma_add_mod_noop_right, lemma_mod_add_multiples_vanish};
use vstd::prelude::*;

use crate::device::AudioClientShareMode;
use crate::error::AudioError;
use crate::format::WaveFormatExtensible;

verus! {

/// A contiguous run of source frames, `start` up to but not including
/// `start + len`.
#[derive(Debug, Clone, Copy, PartialEq, Eq, Structural)]
pub struct FrameSpan {
    pub start: usize,
    pub len: usize,
}

/// The runs of source frames read when `frames` frames are taken from
/// position `pos` of a looping source of `n` frames: each run goes on until
/// the frames are all taken or the end of the source is reached, and the next
/// starts again at frame zero.
pub open spec fn spans_from(pos: int, frames: int, n: int) -> Seq<FrameSpan>
    decreases frames,
{
    if frames <= 0 || pos < 0 || pos >= n {
        Seq::empty()
    } else {
        let len = if frames < n - pos {
            frames
        } else {
            n - pos
        };
        let next = if pos + len == n {
            0
        } else {
            pos + len
        };
        seq![FrameSpan { start: pos as usize, len: len as usize }] + spans_from(
            next,
            frames - len,
            n,
        )
    }
}

/// A position in a looping source of frames; reading past the last frame
/// goes on from the first.
pub struct PlaybackCursor {
    position: usize,
    num_frames: usize,
}

impl PlaybackCursor {
    /// The frame that is read next.
    pub closed spec fn spec_position(&self) -> nat {
        self.position as nat
    }

    /// The number of frames in the source.
    pub closed spec fn spec_num_frames(&self) -> nat {
        self.num_frames as nat
    }

    /// The source is not empty and the position lies inside it.
    pub open spec fn wf(&self) -> bool {
        &&& self.spec_num_frames() > 0
        &&& self.spec_position() < self.spec_num_frames()
    }

    /// A cursor at the first of `num_frames` frames.
    pub fn new(num_frames: usize) -> (r: PlaybackCursor)
        requires
            num_frames > 0,
        ensures
            r.wf(),
            r.spec_position() == 0,
            r.spec_num_frames() == num_frames,
    {
        PlaybackCursor { position: 0, num_frames }
    }

    /// The frame that is read next.
    pub fn position(&self) -> (r: usize)
        ensures
            r == self.spec_position(),
    {
        self.position
    }

    /// The number of frames in the source.
    pub fn num_frames(&self) -> (r: usize)
        ensures
            r == self.spec_num_frames(),
    {
        self.num_frames
    }

    /// Takes the next `frames` frames, wrapping to the first frame whenever
    /// the source is exhausted, and returns the runs of source frames taken.
    pub fn advance(&mut self, frames: u32) -> (r: Vec<FrameSpan>)
        requires
            old(self).wf(),
        ensures
            final(self).wf(),
            final(self).spec_num_frames() == old(self).spec_num_frames(),
            final(self).spec_position() == (old(self).spec_position() + frames)
                % old(self).spec_num_frames() as int,
            r@ == spans_from(
                old(self).spec_position() as int,
                frames as int,
                old(self).spec_num_frames() as int,
            ),
    {
        let n = self.num_frames;
        let ghost start = self.position as int;
        let mut pos = self.position;
        let mut remaining = frames as usize;
        let mut spans: Vec<FrameSpan> = Vec::new();
        while remaining > 0
            invariant
                0 <= pos < n,
                spans@ + spans_from(pos as int, remaining as int, n as int) == spans_from(
                    start,
                    frames as int,
                    n as int,
                ),
                (pos + remaining) % (n as int) == (start + frames) % (n as int),
            decreases remaining,
        {
            let room = n - pos;
            let len = if remaining < room {
                remaining
            } else {
                room
            };
            let next = if len == room {
                0
            } else {
                pos + len
            };
            let span = FrameSpan { start: pos, len };
            proof {
                assert(spans_from(pos as int, remaining as int, n as int) == seq![span]
                    + spans_from(next as int, remaining - len, n as int));
                assert(spans@.push(span) + spans_from(next as int, remaining - len, n as int)
                    =~= spans@ + (seq![span] + spans_from(
                    next as int,
                    remaining - len,
                    n as int,
                )));
                if len == room {
                    lemma_mod_add_multiples_vanish(remaining - len, n as int);
                    assert(pos + remaining == n + (remaining - len));
                }
            }
            spans.push(span);
            pos = next;
            remaining = remaining - len;
        }
        proof {
            assert(spans_from(pos as int, 0, n as int) =~= Seq::<FrameSpan>::empty());
            assert(spans@ =~= spans@ + Seq::<FrameSpan>::empty());
            vstd::arithmetic::div_mod::lemma_small_mod(pos as nat, n as nat);
        }
        self.position = pos;
        spans
    }
}

/// The source frames that `spans` cover, run after run.
pub open spec fn span_frames(spans: Seq<FrameSpan>) -> Seq<int>
    decreases spans.len(),
{
    if spans.len() == 0 {
        Seq::empty()
    } else {
        Seq::new(spans[0].len as nat, |j: int| spans[0].start + j) + span_frames(
            spans.drop_first(),
        )
    }
}

/// Taking `frames` frames from position `pos` reads the source frames
/// `pos`, `pos + 1`, ... in order, going on from the first frame after the
/// last: the k-th frame read is `(pos + k) mod n`, across any wrap.
pub proof fn lemma_spans_read_in_loop_order(pos: int, frames: int, n: int)
    requires
        0 <= pos < n <= usize::MAX,
        0 <= frames,
    ensures
        span_frames(spans_from(pos, frames, n)) == Seq::new(frames as nat, |k: int| (pos + k) % n),
    decreases frames,
{
    let expected = Seq::new(frames as nat, |k: int| (pos + k) % n);
    if frames == 0 {
        assert(span_frames(spans_from(pos, frames, n)) =~= expected);
    } else {
        let len = if frames < n - pos {
            frames
        } else {
            n - pos
        };
        let next = if pos + len == n {
            0
        } else {
            pos + len
        };
        let span = FrameSpan { start: pos as usize, len: len as usize };
        let rest = spans_from(next, frames - len, n);
        lemma_spans_read_in_loop_order(next, frames - len, n);
        assert((seq![span] + rest).drop_first() =~= rest);
        let got = span_frames(spans_from(pos, frames, n));
        assert(got == Seq::new(len as nat, |j: int| pos + j) + span_frames(rest));
        assert forall|k: int| 0 <= k < frames implies got[k] == expected[k] by {
            if k < len {
                vstd::arithmetic::div_mod::lemma_small_mod((pos + k) as nat, n as nat);
            } else if pos + len == n {
                lemma_mod_add_multiples_vanish(k - len, n);
                assert(pos + k == n + (k - len));
            } else {
                assert(pos + k == next + (k - len));
            }
        }
        assert(got =~= expected);
    }
}

/// Where a cursor at `pos` of an `n`-frame source stands after writes of the
/// sizes in `writes`, one after another.
pub open spec fn position_after(pos: int, writes: Seq<nat>, n: int) -> int
    decreases writes.len(),
{
    if writes.len() == 0 {
        pos
    } else {
        (position_after(pos, writes.drop_last(), n) + writes.last()) % n
    }
}

/// The number of frames in `writes` together.
pub open spec fn total_frames(writes: Seq<nat>) -> nat
    decreases writes.len(),
{
    if writes.len() == 0 {
        0
    } else {
        total_frames(writes.drop_last()) + writes.last()
    }
}

/// After any series of writes, the cursor stands at the total written past
/// its starting frame, counted round the loop.
pub proof fn lemma_position_after_total(pos: int, writes: Seq<nat>, n: int)
    requires
        0 < n,
        0 <= pos < n,
    ensures
        position_after(pos, writes, n) == (pos + total_frames(writes)) % n,
    decreases writes.len(),
{
    if writes.len() == 0 {
        vstd::arithmetic::div_mod::lemma_small_mod(pos as nat, n as nat);
    } else {
        let w = writes.drop_last();
        lemma_position_after_total(pos, w, n);
        lemma_add_mod_noop_right(writes.last() as int, pos + total_frames(w), n);
    }
}

/// Writing as many frames as the source holds, in writes of any sizes,
/// brings a cursor that started at the first frame back to the first frame.
pub proof fn lemma_full_pass_returns_to_start(writes: Seq<nat>, n: int)
    requires
        0 < n,
        total_frames(writes) == n,
    ensures
        position_after(0, writes, n) == 0,
{
    lemma_position_after_total(0, writes, n);
    vstd::arithmetic::div_mod::lemma_mod_self_0(n);
}

/// Nanoseconds in one unit of the operating system's reference time.
pub const NANOS_PER_REFERENCE_UNIT: u64 = 100;

/// Converts a device period reported in reference-time units to
/// nanoseconds; a negative period, or one past the nanosecond range, is an
/// error.
pub fn period_from_reference_time(reference_time: i64) -> (r: Result<u64, AudioError>)
    ensures
        r is Ok <==> 0 <= reference_time && reference_time * 100 <= u64::MAX,
        r matches Ok(ns) ==> ns == reference_time * 100,
        r is Err ==> r == Err::<u64, AudioError>(AudioError::InvalidPeriod),
{
    if reference_time < 0 {
        return Err(AudioError::InvalidPeriod);
    }
    let units = reference_time as u64;
    match units.checked_mul(NANOS_PER_REFERENCE_UNIT) {
        Some(ns) => Ok(ns),
        None => Err(AudioError::InvalidPeriod),
    }
}

/// Converts a duration in nanoseconds to whole reference-time units.
pub fn reference_time_from_nanos(nanos: u64) -> (r: i64)
    ensures
        r == nanos / 100,
{
    (nanos / NANOS_PER_REFERENCE_UNIT) as i64
}

/// The frames of the device buffer that are free for writing: its size less
/// the frames still queued for playback. Padding past the buffer size is an
/// error.
pub fn available_frames(buffer_size: u32, padding: u32) -> (r: Result<u32, AudioError>)
    ensures
        r is Ok <==> padding <= buffer_size,
        r matches Ok(a) ==> a == buffer_size - padding && 0 <= a <= buffer_size,
        r is Err ==> r == Err::<u32, AudioError>(AudioError::PaddingExceedsBuffer),
{
    if padding > buffer_size {
        Err(AudioError::PaddingExceedsBuffer)
    } else {
        Ok(buffer_size - padding)
    }
}

/// The lifecycle of a render session.
#[derive(Debug, Clone, Copy, PartialEq, Eq, Hash, Structural)]
pub enum SessionState {
    Uninitialized,
    Initialized,
    Started,
    Stopped,
}

/// Whether a session may initialize with these durations: the period is at
/// most the buffer, and the device's minimum period is the floor for both.
pub open spec fn durations_accepted(buffer_ns: u64, period_ns: u64, minimum_period_ns: u64) -> bool {
    minimum_period_ns <= period_ns && period_ns <= buffer_ns
}

/// What to hand the operating system to initialize the audio client, in
/// its own units.
#[derive(Debug, Clone, Copy, PartialEq, Eq, Structural)]
pub struct InitializeParams {
    pub share_mode: u32,
    pub buffer_reference_time: i64,
    pub period_reference_time: i64,
}

/// What one cycle of the fill loop does with the device buffer.
#[derive(Debug)]
pub enum FillAction {
    /// The buffer is full: no lease this cycle.
    Skip,
    /// Lease exactly `frames` frames and fill them from the runs of source
    /// frames in `spans`, in order, then release all of them.
    Write { frames: u32, spans: Vec<FrameSpan> },
}

/// One device's render session: its lifecycle state, the interleaved
/// channel count of its frames and its position in the looping source.
pub struct RenderSession {
    state: SessionState,
    channels: u16,
    cursor: PlaybackCursor,
}

impl RenderSession {
    /// The lifecycle state.
    pub closed spec fn spec_state(&self) -> SessionState {
        self.state
    }

    /// Samples per frame.
    pub closed spec fn spec_channels(&self) -> nat {
        self.channels as nat
    }

    /// The playback position.
    pub closed spec fn spec_cursor(&self) -> PlaybackCursor {
        self.cursor
    }

    /// The cursor is valid and a frame has at least one sample.
    pub open spec fn wf(&self) -> bool {
        &&& self.spec_cursor().wf()
        &&& self.spec_channels() > 0
    }

    /// A session over a source of `num_samples` interleaved samples of
    /// `channels` channels, not yet initialized. A trailing partial frame is
    /// not played; a source without a whole frame is an error.
    pub fn new(num_samples: usize, channels: u16) -> (r: Result<RenderSession, AudioError>)
        ensures
            channels == 0 ==> r == Err::<RenderSession, AudioError>(AudioError::UnsupportedFormat),
            channels > 0 && num_samples < channels ==> r == Err::<RenderSession, AudioError>(
                AudioError::EmptySource,
            ),
            r is Ok <==> channels > 0 && num_samples >= channels,
            r matches Ok(s) ==> {
                &&& s.wf()
                &&& s.spec_state() == SessionState::Uninitialized
                &&& s.spec_channels() == channels
                &&& s.spec_cursor().spec_position() == 0
                &&& s.spec_cursor().spec_num_frames() == (num_samples as int) / (channels as int)
            },
    {
        if channels == 0 {
            return Err(AudioError::UnsupportedFormat);
        }
        let num_frames = num_samples / (channels as usize);
        proof {
            assert(num_samples >= channels <==> (num_samples as int) / (channels as int) >= 1)
                by (nonlinear_arith)
                requires
                    channels > 0,
            ;
        }
        if num_frames == 0 {
            return Err(AudioError::EmptySource);
        }
        Ok(RenderSession {
            state: SessionState::Uninitialized,
            channels,
            cursor: PlaybackCursor::new(num_frames),
        })
    }

    /// The lifecycle state.
    pub fn state(&self) -> (r: SessionState)
        ensures
            r == self.spec_state(),
    {
        self.state
    }

    /// Samples per frame.
    pub fn channels(&self) -> (r: u16)
        ensures
            r == self.spec_channels(),
    {
        self.channels
    }

    /// The frame that is read next.
    pub fn position(&self) -> (r: usize)
        ensures
            r == self.spec_cursor().spec_position(),
    {
        self.cursor.position()
    }

    /// The number of frames in the looping source.
    pub fn num_frames(&self) -> (r: usize)
        ensures
            r == self.spec_cursor().spec_num_frames(),
    {
        self.cursor.num_frames()
    }

    /// Moves an uninitialized session to initialized for a device whose mix
    /// format is `format`, with the buffer and period durations in
    /// nanoseconds, and returns what to hand the operating system. A session
    /// initializes once; an unrenderable format, one whose channel count
    /// differs from the source's, or durations that break the period rules
    /// are refused, and a refusal leaves the session as it was.
    pub fn initialize(
        &mut self,
        share_mode: AudioClientShareMode,
        buffer_duration_ns: u64,
        period_duration_ns: u64,
        minimum_period_ns: u64,
        format: &WaveFormatExtensible,
    ) -> (r: Result<InitializeParams, AudioError>)
        requires
            old(self).wf(),
        ensures
            final(self).wf(),
            r is Ok <==> {
                &&& old(self).spec_state() == SessionState::Uninitialized
                &&& format.spec_is_renderable()
                &&& format.channels == old(self).spec_channels()
                &&& durations_accepted(buffer_duration_ns, period_duration_ns, minimum_period_ns)
            },
            old(self).spec_state() != SessionState::Uninitialized ==> r == Err::<
                InitializeParams,
                AudioError,
            >(AudioError::InvalidState),
            old(self).spec_state() == SessionState::Uninitialized && (!format.spec_is_renderable()
                || format.channels != old(self).spec_channels()) ==> r == Err::<
                InitializeParams,
                AudioError,
            >(AudioError::UnsupportedFormat),
            old(self).spec_state() == SessionState::Uninitialized && format.spec_is_renderable()
                && format.channels == old(self).spec_channels() && !durations_accepted(
                buffer_duration_ns,
                period_duration_ns,
                minimum_period_ns,
            ) ==> r == Err::<InitializeParams, AudioError>(AudioError::InvalidDevicePeriod),
            r matches Ok(p) ==> {
                &&& p.share_mode == share_mode.raw_spec()
                &&& p.buffer_reference_time == buffer_duration_ns / 100
                &&& p.period_reference_time == period_duration_ns / 100
            },
            r is Ok ==> final(self).spec_state() == SessionState::Initialized,
            r is Err ==> *final(self) == *old(self),
            final(self).spec_cursor() == old(self).spec_cursor(),
            final(self).spec_channels() == old(self).spec_channels(),
    {
        if self.state != SessionState::Uninitialized {
            return Err(AudioError::InvalidState);
        }
        if format.check_renderable().is_err() || format.channels != self.channels {
            return Err(AudioError::UnsupportedFormat);
        }
        if !(minimum_period_ns <= period_duration_ns && period_duration_ns <= buffer_duration_ns) {
            return Err(AudioError::InvalidDevicePeriod);
        }
        self.state = SessionState::Initialized;
        Ok(InitializeParams {
            share_mode: share_mode.raw(),
            buffer_reference_time: reference_time_from_nanos(buffer_duration_ns),
            period_reference_time: reference_time_from_nanos(period_duration_ns),
        })
    }

    /// Starts playback of an initialized or stopped session.
    pub fn start(&mut self) -> (r: Result<(), AudioError>)
        requires
            old(self).wf(),
        ensures
            final(self).wf(),
            r is Ok <==> (old(self).spec_state() == SessionState::Initialized
                || old(self).spec_state() == SessionState::Stopped),
            r is Ok ==> final(self).spec_state() == SessionState::Started,
            r is Err ==> r == Err::<(), AudioError>(AudioError::InvalidState),
            r is Err ==> *final(self) == *old(self),
            final(self).spec_cursor() == old(self).spec_cursor(),
            final(self).spec_channels() == old(self).spec_channels(),
    {
        match self.state {
            SessionState::Initialized | SessionState::Stopped => {
                self.state = SessionState::Started;
                Ok(())
            },
            _ => Err(AudioError::InvalidState),
        }
    }

    /// Stops playback of a started session.
    pub fn stop(&mut self) -> (r: Result<(), AudioError>)
        requires
            old(self).wf(),
        ensures
            final(self).wf(),
            r is Ok <==> old(self).spec_state() == SessionState::Started,
            r is Ok ==> final(self).spec_state() == SessionState::Stopped,
            r is Err ==> r == Err::<(), AudioError>(AudioError::InvalidState),
            r is Err ==> *final(self) == *old(self),
            final(self).spec_cursor() == old(self).spec_cursor(),
            final(self).spec_channels() == old(self).spec_channels(),
    {
        match self.state {
            SessionState::Started => {
                self.state = SessionState::Stopped;
                Ok(())
            },
            _ => Err(AudioError::InvalidState),
        }
    }

    /// Decides one cycle of the fill loop, given the device buffer's size
    /// and the frames still queued in it (none before the first start). A
    /// full buffer is skipped; otherwise every free frame is written from the
    /// looping source, and the cursor moves past them. Filling is allowed
    /// once initialized, to preload, and while started.
    pub fn fill(&mut self, buffer_size: u32, padding: u32) -> (r: Result<FillAction, AudioError>)
        requires
            old(self).wf(),
        ensures
            final(self).wf(),
            final(self).spec_state() == old(self).spec_state(),
            final(self).spec_channels() == old(self).spec_channels(),
            final(self).spec_cursor().spec_num_frames() == old(self).spec_cursor().spec_num_frames(),
            r is Ok <==> ((old(self).spec_state() == SessionState::Initialized
                || old(self).spec_state() == SessionState::Started) && padding <= buffer_size),
            old(self).spec_state() != SessionState::Initialized && old(self).spec_state()
                != SessionState::Started ==> r == Err::<FillAction, AudioError>(
                AudioError::InvalidState,
            ),
            (old(self).spec_state() == SessionState::Initialized || old(self).spec_state()
                == SessionState::Started) && padding > buffer_size ==> r == Err::<
                FillAction,
                AudioError,
            >(AudioError::PaddingExceedsBuffer),
            r is Err ==> final(self).spec_cursor() == old(self).spec_cursor(),
            r is Ok && padding == buffer_size ==> (r matches Ok(FillAction::Skip)
                && final(self).spec_cursor() == old(self).spec_cursor()),
            r is Ok && padding < buffer_size ==> (r matches Ok(FillAction::Write { frames, spans })
                && frames == buffer_size - padding && spans@ == spans_from(
                old(self).spec_cursor().spec_position() as int,
                buffer_size - padding,
                old(self).spec_cursor().spec_num_frames() as int,
            ) && final(self).spec_cursor().spec_position() == (old(
                self,
            ).spec_cursor().spec_position() + buffer_size - padding) % (old(
                self,
            ).spec_cursor().spec_num_frames() as int)),
    {
        match self.state {
            SessionState::Initialized | SessionState::Started => {},
            _ => {
                return Err(AudioError::InvalidState);
            },
        }
        let available = match available_frames(buffer_size, padding) {
            Ok(a) => a,
            Err(e) => {
                return Err(e);
            },
        };
        if available == 0 {
            return Ok(FillAction::Skip);
        }
        let spans = self.cursor.advance(available);
        Ok(FillAction::Write { frames: available, spans })
    }
}

} // verus!
