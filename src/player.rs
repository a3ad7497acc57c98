//! The transport state of a player that owns at most one engine pipeline.
//!
//! The pipeline itself is an opaque handle `H` that the caller builds and
//! drives; the player decides which operations are allowed, what is handed
//! to the engine, and what the engine's answers mean.
use crate::uri::{ensure_uri, resolves_to, UriError};
use vstd::prelude::*;

verus! {

/// Full volume, in parts per million.
pub const FULL_VOLUME: u32 = 1_000_000;

/// Normal playback speed, in parts per million.
pub const NORMAL_RATE: u64 = 1_000_000;

/// Nanoseconds in a millisecond.
pub const NANOS_PER_MILLI: u64 = 1_000_000;

/// The state last reached by the pipeline at the player's request.
#[derive(Clone, Copy, Debug, PartialEq, Eq, Structural)]
pub enum PipelineState {
    Null,
    Paused,
    Playing,
}

/// Why a player operation failed.
#[derive(Debug, PartialEq, Eq)]
pub enum PlayerError {
    /// The operation needs a loaded pipeline and there is none.
    PipelineNotInitialized,
    /// A frame was asked for and there is no video sink.
    VideoSinkNotInitialized,
    /// A playback rate that is not positive.
    InvalidPlaybackRate,
    /// The engine could not say where playback is.
    PositionQueryFailed,
    /// The engine could not say how long the media is.
    DurationQueryFailed,
    /// A pulled sample carried no format description.
    MissingCaps,
    /// A pulled sample's format is not a raw video format.
    InvalidVideoCaps,
    /// A pulled sample carried no buffer.
    MissingBuffer,
    /// A pulled sample's buffer could not be read.
    BufferNotReadable,
    /// The engine refused to move the pipeline to the given state.
    StateChange(PipelineState, String),
    /// The source could not be turned into a URI.
    Source(UriError),
    /// Any other failure reported by the engine.
    Engine(String),
}

/// One decoded video frame, copied out of the engine.
#[derive(Clone, Debug, PartialEq, Eq)]
pub struct VideoFrame {
    pub width: u32,
    pub height: u32,
    /// Bytes per row, alignment padding included.
    pub stride: u32,
    pub data: Vec<u8>,
}

/// What the engine said about a pulled sample's format.
#[derive(Debug)]
pub enum CapsInfo {
    Missing,
    Invalid,
    Video { width: u32, height: u32, stride: i32 },
}

/// What the engine gave for a pulled sample's pixel buffer.
#[derive(Debug)]
pub enum BufferData {
    Missing,
    Unreadable,
    Readable(Vec<u8>),
}

/// A sample taken from the video sink, as plain values.
pub struct PulledSample {
    pub caps: CapsInfo,
    pub buffer: BufferData,
}

/// The row length in bytes of a plane whose stride may be negative
/// (bottom-up layouts).
pub open spec fn abs_stride(stride: i32) -> int {
    if stride < 0 {
        -stride
    } else {
        stride as int
    }
}

/// The frame that a sample gives, or why it gives none: the format is
/// checked before the buffer.
pub open spec fn sample_to_frame(s: PulledSample) -> Result<VideoFrame, PlayerError> {
    match s.caps {
        CapsInfo::Missing => Err(PlayerError::MissingCaps),
        CapsInfo::Invalid => Err(PlayerError::InvalidVideoCaps),
        CapsInfo::Video { width, height, stride } => match s.buffer {
            BufferData::Missing => Err(PlayerError::MissingBuffer),
            BufferData::Unreadable => Err(PlayerError::BufferNotReadable),
            BufferData::Readable(data) => Ok(
                VideoFrame { width, height, stride: abs_stride(stride) as u32, data },
            ),
        },
    }
}

/// A volume in parts per million, clamped into silence .. full volume.
pub open spec fn clamp_volume(volume: int) -> int {
    if volume < 0 {
        0
    } else if volume > FULL_VOLUME {
        FULL_VOLUME as int
    } else {
        volume
    }
}

/// The latest seek position, in milliseconds, whose nanoseconds fit the
/// engine's clock.
pub const MAX_SEEK_MS: u64 = 18_446_744_073_709;

/// A seek position in milliseconds, with negative positions taken as zero
/// and positions past the engine's clock taken as its end.
pub open spec fn seek_target(position_ms: int) -> int {
    if position_ms < 0 {
        0
    } else if position_ms > MAX_SEEK_MS {
        MAX_SEEK_MS as int
    } else {
        position_ms
    }
}

/// Where a change of playback rate re-seeks to, in nanoseconds: the
/// engine's position, or the start when it could not say.
pub open spec fn reseek_position(queried_ns: Option<u64>) -> int {
    match queried_ns {
        Some(ns) => ns as int,
        None => 0,
    }
}

/// The position to re-seek to when the playback rate changes.
pub fn rate_seek_position(queried_ns: Option<u64>) -> (r: u64)
    ensures
        r == reseek_position(queried_ns),
{
    match queried_ns {
        Some(ns) => ns,
        None => 0,
    }
}

/// The row length in bytes for a stride as the engine reports it.
pub fn stride_bytes(stride: i32) -> (r: u32)
    ensures
        r == abs_stride(stride),
{
    if stride < 0 {
        (0i64 - stride as i64) as u32
    } else {
        stride as u32
    }
}

/// Checks a pulled sample and copies out its frame.
pub fn frame_from_sample(sample: PulledSample) -> (r: Result<VideoFrame, PlayerError>)
    ensures
        r == sample_to_frame(sample),
{
    match sample.caps {
        CapsInfo::Missing => Err(PlayerError::MissingCaps),
        CapsInfo::Invalid => Err(PlayerError::InvalidVideoCaps),
        CapsInfo::Video { width, height, stride } => match sample.buffer {
            BufferData::Missing => Err(PlayerError::MissingBuffer),
            BufferData::Unreadable => Err(PlayerError::BufferNotReadable),
            BufferData::Readable(data) => Ok(
                VideoFrame { width, height, stride: stride_bytes(stride), data },
            ),
        },
    }
}

/// A player that owns at most one pipeline, of handle type `H`.
pub struct NipaPlayerNext<H> {
    pipeline: Option<H>,
    state: PipelineState,
    volume: u32,
    playback_rate: u64,
}

impl<H> NipaPlayerNext<H> {
    /// The loaded pipeline, if any.
    pub closed spec fn handle(&self) -> Option<H> {
        self.pipeline
    }

    pub open spec fn loaded(&self) -> bool {
        self.handle() is Some
    }

    pub closed spec fn current_state(&self) -> PipelineState {
        self.state
    }

    /// Volume in parts per million.
    pub closed spec fn current_volume(&self) -> int {
        self.volume as int
    }

    /// Playback rate in parts per million.
    pub closed spec fn current_rate(&self) -> int {
        self.playback_rate as int
    }

    /// The volume stays in range, the rate stays positive, and a player
    /// without a pipeline is idle.
    pub closed spec fn wf(&self) -> bool {
        &&& self.volume <= FULL_VOLUME
        &&& self.playback_rate > 0
        &&& self.pipeline is None ==> self.state == PipelineState::Null
    }

    /// `self` is `before` with its pipeline torn down: no pipeline, idle,
    /// and the volume and playback rate kept.
    pub open spec fn stopped_from(&self, before: &Self) -> bool {
        &&& self.handle() is None
        &&& self.current_state() == PipelineState::Null
        &&& self.current_volume() == before.current_volume()
        &&& self.current_rate() == before.current_rate()
    }

    /// `other` differs from `self` at most in its volume.
    pub open spec fn same_but_volume(&self, other: &Self) -> bool {
        &&& other.handle() == self.handle()
        &&& other.current_state() == self.current_state()
        &&& other.current_rate() == self.current_rate()
    }

    /// `other` differs from `self` at most in its playback rate.
    pub open spec fn same_but_rate(&self, other: &Self) -> bool {
        &&& other.handle() == self.handle()
        &&& other.current_state() == self.current_state()
        &&& other.current_volume() == self.current_volume()
    }

    /// `other` differs from `self` at most in its state.
    pub open spec fn same_but_state(&self, other: &Self) -> bool {
        &&& other.handle() == self.handle()
        &&& other.current_volume() == self.current_volume()
        &&& other.current_rate() == self.current_rate()
    }

    /// An idle player at full volume and normal speed.
    pub fn new() -> (p: Self)
        ensures
            p.wf(),
            !p.loaded(),
            p.current_state() == PipelineState::Null,
            p.current_volume() == FULL_VOLUME,
            p.current_rate() == NORMAL_RATE,
    {
        NipaPlayerNext {
            pipeline: None,
            state: PipelineState::Null,
            volume: FULL_VOLUME,
            playback_rate: NORMAL_RATE,
        }
    }

    pub fn is_loaded(&self) -> (r: bool)
        ensures
            r == self.loaded(),
    {
        self.pipeline.is_some()
    }

    pub fn state(&self) -> (r: PipelineState)
        ensures
            r == self.current_state(),
    {
        self.state
    }

    /// Volume in parts per million.
    pub fn volume(&self) -> (r: u32)
        ensures
            r == self.current_volume(),
    {
        self.volume
    }

    /// Playback rate in parts per million.
    pub fn playback_rate(&self) -> (r: u64)
        ensures
            r == self.current_rate(),
    {
        self.playback_rate
    }

    /// The loaded pipeline, for the engine to act on.
    pub fn pipeline(&self) -> (r: Result<&H, PlayerError>)
        ensures
            !self.loaded() ==> r == Err::<&H, PlayerError>(PlayerError::PipelineNotInitialized),
            self.handle() matches Some(h) ==> (r matches Ok(p) && *p == h),
    {
        match &self.pipeline {
            Some(p) => Ok(p),
            None => Err(PlayerError::PipelineNotInitialized),
        }
    }

    /// The loaded pipeline, for its video sink to be pulled from.
    pub fn video_sink(&self) -> (r: Result<&H, PlayerError>)
        ensures
            !self.loaded() ==> r == Err::<&H, PlayerError>(PlayerError::VideoSinkNotInitialized),
            self.handle() matches Some(h) ==> (r matches Ok(p) && *p == h),
    {
        match &self.pipeline {
            Some(p) => Ok(p),
            None => Err(PlayerError::VideoSinkNotInitialized),
        }
    }

    /// Gives up the pipeline, if any, for the engine to take to the null
    /// state and release (its watcher joined). Never fails.
    pub fn stop(&mut self) -> (r: Option<H>)
        requires
            old(self).wf(),
        ensures
            final(self).wf(),
            final(self).stopped_from(old(self)),
            r == old(self).handle(),
    {
        let r = self.pipeline.take();
        self.state = PipelineState::Null;
        r
    }

    /// Starts loading `input`: the current pipeline, if any, is given up
    /// first (to be torn down), then the source is resolved to the URI that
    /// the new pipeline is to play, `cwd` being the outcome of reading the
    /// working directory.
    pub fn load(&mut self, input: &str, cwd: Result<String, String>) -> (r: (
        Option<H>,
        Result<String, UriError>,
    ))
        requires
            old(self).wf(),
        ensures
            final(self).wf(),
            final(self).stopped_from(old(self)),
            r.0 == old(self).handle(),
            resolves_to(input@, cwd, r.1),
    {
        let old_pipeline = self.stop();
        (old_pipeline, ensure_uri(input, cwd))
    }

    /// Completes a load with the pipeline built for it, given the engine's
    /// answer to the request to pause it: on success the player is loaded
    /// and paused, ready to play.
    pub fn finish_load(&mut self, pipeline: H, paused: Result<(), String>) -> (r: Result<
        (),
        PlayerError,
    >)
        requires
            old(self).wf(),
        ensures
            final(self).wf(),
            final(self).handle() == Some(pipeline),
            final(self).current_volume() == old(self).current_volume(),
            final(self).current_rate() == old(self).current_rate(),
            paused is Ok ==> r is Ok && final(self).current_state() == PipelineState::Paused,
            paused matches Err(e) ==> r == Err::<(), PlayerError>(
                PlayerError::StateChange(PipelineState::Paused, e),
            ) && final(self).current_state() == PipelineState::Null,
    {
        self.pipeline = Some(pipeline);
        self.state = PipelineState::Null;
        self.set_state(PipelineState::Paused, paused)
    }

    /// Records the engine's answer to a request to move the loaded pipeline
    /// to `target`.
    pub fn set_state(&mut self, target: PipelineState, outcome: Result<(), String>) -> (r: Result<
        (),
        PlayerError,
    >)
        requires
            old(self).wf(),
        ensures
            final(self).wf(),
            old(self).same_but_state(final(self)),
            !old(self).loaded() ==> r == Err::<(), PlayerError>(
                PlayerError::PipelineNotInitialized,
            ) && *final(self) == *old(self),
            old(self).loaded() && outcome is Ok ==> r is Ok && final(self).current_state()
                == target,
            old(self).loaded() ==> (outcome matches Err(e) ==> r == Err::<(), PlayerError>(
                PlayerError::StateChange(target, e),
            ) && *final(self) == *old(self)),
    {
        if self.pipeline.is_none() {
            return Err(PlayerError::PipelineNotInitialized);
        }
        match outcome {
            Ok(()) => {
                self.state = target;
                Ok(())
            },
            Err(e) => Err(PlayerError::StateChange(target, e)),
        }
    }

    /// Records the engine's answer to a request to play.
    pub fn play(&mut self, outcome: Result<(), String>) -> (r: Result<(), PlayerError>)
        requires
            old(self).wf(),
        ensures
            final(self).wf(),
            old(self).same_but_state(final(self)),
            !old(self).loaded() ==> r == Err::<(), PlayerError>(
                PlayerError::PipelineNotInitialized,
            ) && *final(self) == *old(self),
            old(self).loaded() && outcome is Ok ==> r is Ok && final(self).current_state()
                == PipelineState::Playing,
            old(self).loaded() ==> (outcome matches Err(e) ==> r == Err::<(), PlayerError>(
                PlayerError::StateChange(PipelineState::Playing, e),
            ) && *final(self) == *old(self)),
    {
        self.set_state(PipelineState::Playing, outcome)
    }

    /// Records the engine's answer to a request to pause.
    pub fn pause(&mut self, outcome: Result<(), String>) -> (r: Result<(), PlayerError>)
        requires
            old(self).wf(),
        ensures
            final(self).wf(),
            old(self).same_but_state(final(self)),
            !old(self).loaded() ==> r == Err::<(), PlayerError>(
                PlayerError::PipelineNotInitialized,
            ) && *final(self) == *old(self),
            old(self).loaded() && outcome is Ok ==> r is Ok && final(self).current_state()
                == PipelineState::Paused,
            old(self).loaded() ==> (outcome matches Err(e) ==> r == Err::<(), PlayerError>(
                PlayerError::StateChange(PipelineState::Paused, e),
            ) && *final(self) == *old(self)),
    {
        self.set_state(PipelineState::Paused, outcome)
    }

    /// The position, in milliseconds, of a flushing keyframe seek to
    /// `position_ms`.
    pub fn seek(&self, position_ms: i64) -> (r: Result<u64, PlayerError>)
        ensures
            !self.loaded() ==> r == Err::<u64, PlayerError>(PlayerError::PipelineNotInitialized),
            self.loaded() ==> (r matches Ok(t) && t == seek_target(position_ms as int)),
    {
        if self.pipeline.is_none() {
            return Err(PlayerError::PipelineNotInitialized);
        }
        if position_ms < 0 {
            Ok(0)
        } else if position_ms as u64 > MAX_SEEK_MS {
            Ok(MAX_SEEK_MS)
        } else {
            Ok(position_ms as u64)
        }
    }

    /// Stores `volume` (parts per million) clamped into range; returns
    /// whether a loaded pipeline is to receive it now. Never fails.
    pub fn set_volume(&mut self, volume: i64) -> (apply: bool)
        requires
            old(self).wf(),
        ensures
            final(self).wf(),
            old(self).same_but_volume(final(self)),
            final(self).current_volume() == clamp_volume(volume as int),
            apply == old(self).loaded(),
    {
        self.volume = if volume < 0 {
            0
        } else if volume > FULL_VOLUME as i64 {
            FULL_VOLUME
        } else {
            volume as u32
        };
        self.pipeline.is_some()
    }

    /// Stores a positive playback `rate` (parts per million); returns
    /// whether a loaded pipeline is to be re-seeked at its position with it.
    /// A rate that is not positive is refused and changes nothing.
    pub fn set_playback_rate(&mut self, rate: i64) -> (r: Result<bool, PlayerError>)
        requires
            old(self).wf(),
        ensures
            final(self).wf(),
            rate <= 0 ==> r == Err::<bool, PlayerError>(PlayerError::InvalidPlaybackRate)
                && *final(self) == *old(self),
            rate > 0 ==> r == Ok::<bool, PlayerError>(old(self).loaded()) && old(
                self,
            ).same_but_rate(final(self)) && final(self).current_rate() == rate,
    {
        if rate <= 0 {
            return Err(PlayerError::InvalidPlaybackRate);
        }
        self.playback_rate = rate as u64;
        Ok(self.pipeline.is_some())
    }

    /// The playback position in milliseconds, from the engine's answer in
    /// nanoseconds.
    pub fn position_ms(&self, queried_ns: Option<u64>) -> (r: Result<i64, PlayerError>)
        ensures
            !self.loaded() ==> r == Err::<i64, PlayerError>(PlayerError::PipelineNotInitialized),
            self.loaded() && queried_ns is None ==> r == Err::<i64, PlayerError>(
                PlayerError::PositionQueryFailed,
            ),
            self.loaded() ==> (queried_ns matches Some(ns) ==> r == Ok::<i64, PlayerError>(
                (ns / NANOS_PER_MILLI) as i64,
            )),
    {
        if self.pipeline.is_none() {
            return Err(PlayerError::PipelineNotInitialized);
        }
        match queried_ns {
            Some(ns) => Ok((ns / NANOS_PER_MILLI) as i64),
            None => Err(PlayerError::PositionQueryFailed),
        }
    }

    /// The media's duration in milliseconds, from the engine's answer in
    /// nanoseconds.
    pub fn duration_ms(&self, queried_ns: Option<u64>) -> (r: Result<i64, PlayerError>)
        ensures
            !self.loaded() ==> r == Err::<i64, PlayerError>(PlayerError::PipelineNotInitialized),
            self.loaded() && queried_ns is None ==> r == Err::<i64, PlayerError>(
                PlayerError::DurationQueryFailed,
            ),
            self.loaded() ==> (queried_ns matches Some(ns) ==> r == Ok::<i64, PlayerError>(
                (ns / NANOS_PER_MILLI) as i64,
            )),
    {
        if self.pipeline.is_none() {
            return Err(PlayerError::PipelineNotInitialized);
        }
        match queried_ns {
            Some(ns) => Ok((ns / NANOS_PER_MILLI) as i64),
            None => Err(PlayerError::DurationQueryFailed),
        }
    }

    /// The buffered position in milliseconds. The engine is not asked how
    /// far it has buffered ahead: this is the playback position.
    pub fn buffered_position_ms(&self, queried_ns: Option<u64>) -> (r: Result<i64, PlayerError>)
        ensures
            !self.loaded() ==> r == Err::<i64, PlayerError>(PlayerError::PipelineNotInitialized),
            self.loaded() && queried_ns is None ==> r == Err::<i64, PlayerError>(
                PlayerError::PositionQueryFailed,
            ),
            self.loaded() ==> (queried_ns matches Some(ns) ==> r == Ok::<i64, PlayerError>(
                (ns / NANOS_PER_MILLI) as i64,
            )),
    {
        self.position_ms(queried_ns)
    }

    /// The frame in the engine's answer to a non-blocking pull from the
    /// video sink: no sample is no frame, not an error.
    pub fn try_pull_frame(&self, pulled: Option<PulledSample>) -> (r: Result<
        Option<VideoFrame>,
        PlayerError,
    >)
        ensures
            !self.loaded() ==> r == Err::<Option<VideoFrame>, PlayerError>(
                PlayerError::VideoSinkNotInitialized,
            ),
            self.loaded() && pulled is None ==> r == Ok::<Option<VideoFrame>, PlayerError>(None),
            self.loaded() ==> (pulled matches Some(s) ==> r == match sample_to_frame(s) {
                Ok(f) => Ok(Some(f)),
                Err(e) => Err(e),
            }),
    {
        if self.pipeline.is_none() {
            return Err(PlayerError::VideoSinkNotInitialized);
        }
        match pulled {
            None => Ok(None),
            Some(s) => match frame_from_sample(s) {
                Ok(f) => Ok(Some(f)),
                Err(e) => Err(e),
            },
        }
    }
}

impl<H> Default for NipaPlayerNext<H> {
    fn default() -> (p: Self)
        ensures
            p.wf(),
            !p.loaded(),
            p.current_state() == PipelineState::Null,
            p.current_volume() == FULL_VOLUME,
            p.current_rate() == NORMAL_RATE,
    {
        NipaPlayerNext::new()
    }
}

/// Stopping is idempotent: a second `stop` right after the first finds no
/// pipeline to tear down and leaves the player as the first left it.
pub proof fn lemma_stop_twice<H>(
    before: NipaPlayerNext<H>,
    first: NipaPlayerNext<H>,
    second: NipaPlayerNext<H>,
)
    requires
        first.stopped_from(&before),
        second.stopped_from(&first),
    ensures
        first.handle() is None,
        second == first,
        second.current_volume() == before.current_volume(),
        second.current_rate() == before.current_rate(),
{
}

} // verus!
