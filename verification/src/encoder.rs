//! Timestamp and duration derivation for the video/audio muxer.
//!
//! The container wants monotonic, duration-correct samples in 100-nanosecond
//! units. Video sample times come from the session's elapsed recording time;
//! each sample's duration is the gap to the previous sample when that gap is
//! positive, else one frame interval — so every written sample has a strictly
//! positive duration even when pacing jitters or stalls. Audio sample times
//! are derived purely from the running count of written sample-frames divided
//! by the sample rate, never from the wall clock, so audio cannot drift
//! against its own track; the shortfall against elapsed time is recomputed
//! each cycle for drift correction against video.

use vstd::prelude::*;
use vstd::arithmetic::div_mod::lemma_fundamental_div_mod_converse;
use vstd::arithmetic::mul::lemma_mul_inequality;
use crate::compositor::lemma_mul_bound;
use crate::error::RecorderError;

verus! {

/// 100-nanosecond units in one second.
pub const HNS_PER_SEC: u64 = 10_000_000;

/// 100-nanosecond units in one millisecond.
pub const HNS_PER_MS: u64 = 10_000;

/// Milliseconds converted to 100-nanosecond units, saturating at `i64::MAX`.
pub open spec fn spec_ms_to_hns(ms: int) -> int {
    if ms * HNS_PER_MS > i64::MAX {
        i64::MAX as int
    } else {
        ms * HNS_PER_MS
    }
}

/// Duration of a video sample at `time`: the gap to the previous sample when
/// positive, else one frame interval, never less than one unit.
pub open spec fn spec_video_duration(last: Option<i64>, time: int, fps: int) -> int {
    match last {
        Some(prev) => if time > prev {
            let d = time - prev;
            if d < 1 {
                1
            } else {
                d
            }
        } else {
            spec_frame_interval(fps)
        },
        None => spec_frame_interval(fps),
    }
}

/// The fallback duration of one frame at the configured rate, at least one
/// unit.
pub open spec fn spec_frame_interval(fps: int) -> int {
    let d = HNS_PER_SEC as int / fps;
    if d < 1 {
        1
    } else {
        d
    }
}

/// Sample-frames that should have been written after `elapsed_ms` of
/// recording, given the track's sample rate.
pub open spec fn spec_desired_frames(elapsed_ms: int, sample_rate: int) -> int {
    elapsed_ms * sample_rate / 1000
}

/// Samples (frames times channels) still owed to the audio track after
/// `elapsed_ms`, bounded by the machine's address space.
pub open spec fn spec_audio_needed(
    elapsed_ms: int,
    sample_rate: int,
    channels: int,
    written: int,
) -> int {
    let desired = spec_desired_frames(elapsed_ms, sample_rate);
    let to_write = if desired > written {
        desired - written
    } else {
        0
    };
    let total = to_write * channels;
    if total > usize::MAX {
        usize::MAX as int
    } else {
        total
    }
}

/// A sample-frame count in 100-nanosecond units, saturating at `i64::MAX`.
pub open spec fn spec_frames_to_hns(frames: int, sample_rate: int) -> int {
    let p = frames * HNS_PER_SEC;
    let p2 = if p > i64::MAX {
        i64::MAX as int
    } else {
        p
    };
    p2 / sample_rate
}

/// Timestamps of one video sample handed to the muxer.
#[derive(Debug, Clone, Copy, PartialEq, Eq, Structural)]
pub struct VideoSample {
    pub time_hns: i64,
    pub duration_hns: i64,
}

/// Timestamps and length of one audio sample handed to the muxer.
#[derive(Debug, Clone, Copy, PartialEq, Eq, Structural)]
pub struct AudioSample {
    pub time_hns: i64,
    pub duration_hns: i64,
    pub frames: u64,
}

/// Derives sample timestamps for a muxer writing one H.264 video track and an
/// optional 16-bit PCM audio track.
pub struct VideoEncoder {
    pub width: u32,
    pub height: u32,
    pub fps: u32,
    pub bitrate_kbps: u32,
    pub last_video_time_hns: Option<i64>,
    pub audio_sample_rate: Option<u32>,
    pub audio_channels: Option<u16>,
    pub audio_written_frames: u64,
    pub finalized: bool,
}

impl VideoEncoder {
    /// Rates are positive, and the audio track is either fully configured or
    /// absent.
    pub open spec fn wf(self) -> bool {
        &&& self.fps >= 1
        &&& self.audio_sample_rate matches Some(sr) ==> sr >= 1
        &&& self.audio_channels matches Some(ch) ==> ch >= 1
        &&& self.audio_sample_rate is Some <==> self.audio_channels is Some
        &&& self.last_video_time_hns matches Some(t) ==> t >= 0
    }

    /// The expected byte length of one video frame.
    pub open spec fn spec_frame_len(self) -> int {
        self.width as int * self.height as int * 4
    }

    /// A fresh encoder for `width x height` video at `fps`, with an optional
    /// audio track described by its sample rate and channel count. Degenerate
    /// rates are raised to one.
    pub fn new(
        width: u32,
        height: u32,
        fps: u32,
        bitrate_kbps: u32,
        audio_cfg: Option<(u32, u16)>,
    ) -> (r: Self)
        ensures
            r.wf(),
            r.width == width,
            r.height == height,
            r.fps == if fps >= 1 {
                fps as int
            } else {
                1
            },
            r.bitrate_kbps == bitrate_kbps,
            r.last_video_time_hns is None,
            r.audio_sample_rate is Some <==> audio_cfg is Some,
            audio_cfg matches Some((sr, ch)) ==> {
                &&& r.audio_sample_rate == Some(
                    if sr >= 1 {
                        sr
                    } else {
                        1u32
                    },
                )
                &&& r.audio_channels == Some(
                    if ch >= 1 {
                        ch
                    } else {
                        1u16
                    },
                )
            },
            r.audio_written_frames == 0,
            !r.finalized,
    {
        let (audio_sample_rate, audio_channels) = match audio_cfg {
            Some((sr, ch)) => {
                let sr1 = if sr >= 1 {
                    sr
                } else {
                    1
                };
                let ch1 = if ch >= 1 {
                    ch
                } else {
                    1
                };
                (Some(sr1), Some(ch1))
            },
            None => (None, None),
        };
        VideoEncoder {
            width,
            height,
            fps: if fps >= 1 {
                fps
            } else {
                1
            },
            bitrate_kbps,
            last_video_time_hns: None,
            audio_sample_rate,
            audio_channels,
            audio_written_frames: 0,
            finalized: false,
        }
    }

    /// Samples still owed to the audio track at `elapsed_ms` of recording
    /// time, or `None` when no audio track was configured. The count is the
    /// shortfall between what should have been written by now and what has
    /// been — recomputed from elapsed time each call, so scheduling error
    /// never accumulates.
    pub fn audio_samples_needed_for_elapsed(&self, elapsed_ms: u64) -> (r: Option<usize>)
        requires
            self.wf(),
        ensures
            r is Some <==> self.audio_sample_rate is Some,
            r matches Some(n) ==> n == spec_audio_needed(
                elapsed_ms as int,
                self.audio_sample_rate->0 as int,
                self.audio_channels->0 as int,
                self.audio_written_frames as int,
            ),
    {
        let sr: u32 = match self.audio_sample_rate {
            Some(sr) => sr,
            None => {
                return None;
            },
        };
        let ch: u16 = match self.audio_channels {
            Some(ch) => ch,
            None => {
                return None;
            },
        };
        proof {
            lemma_mul_bound(elapsed_ms as int, 0xffff_ffff_ffff_ffff, sr as int, 0xffff_ffff);
        }
        let desired: u128 = (elapsed_ms as u128) * (sr as u128) / 1000;
        let written: u128 = self.audio_written_frames as u128;
        let to_write: u128 = if desired > written {
            desired - written
        } else {
            0
        };
        proof {
            lemma_mul_bound(
                to_write as int,
                0x1_0000_0000_0000_0000_0000_0000,
                ch as int,
                0xffff,
            );
        }
        let total: u128 = to_write * (ch as u128);
        if total > usize::MAX as u128 {
            Some(usize::MAX)
        } else {
            Some(total as usize)
        }
    }

    /// Derives the timestamp pair for one video frame at `elapsed_ms` and
    /// records its time for the next call. The duration is always at least
    /// one unit, and when the time advanced past the previous sample, the
    /// duration is exactly the gap — so consecutive sample times stay
    /// consistent. Fails when the frame's byte length does not match the
    /// configured dimensions, or after the encoder was finalized.
    pub fn encode_frame(&mut self, bgra: &Vec<u8>, elapsed_ms: u64) -> (r: Result<
        VideoSample,
        RecorderError,
    >)
        requires
            old(self).wf(),
        ensures
            final(self).wf(),
            old(self).finalized ==> r is Err && *final(self) == *old(self),
            !old(self).finalized && bgra@.len() != old(self).spec_frame_len() ==> r is Err
                && *final(self) == *old(self),
            r matches Err(e) ==> e.is_encoding_failed(),
            r is Ok <==> !old(self).finalized && bgra@.len() == old(self).spec_frame_len(),
            r matches Ok(s) ==> {
                &&& s.time_hns == spec_ms_to_hns(elapsed_ms as int)
                &&& s.duration_hns == spec_video_duration(
                    old(self).last_video_time_hns,
                    s.time_hns as int,
                    old(self).fps as int,
                )
                &&& s.duration_hns >= 1
                &&& (old(self).last_video_time_hns matches Some(prev) ==> (s.time_hns > prev
                    ==> s.time_hns == prev + s.duration_hns))
                &&& *final(self) == (VideoEncoder {
                    last_video_time_hns: Some(s.time_hns),
                    ..*old(self)
                })
            },
    {
        if self.finalized {
            return Err(RecorderError::encoding_failed("Encoder is finalized"));
        }
        proof {
            lemma_mul_bound(self.width as int, 0xffff_ffff, self.height as int, 0xffff_ffff);
        }
        let expected: u128 = (self.width as u128) * (self.height as u128) * 4;
        if (bgra.len() as u128) != expected {
            return Err(RecorderError::encoding_failed("BGRA frame size mismatch"));
        }

        proof {
            lemma_mul_bound(elapsed_ms as int, 0xffff_ffff_ffff_ffff, HNS_PER_MS as int, 10_000);
        }
        let t128: u128 = (elapsed_ms as u128) * (HNS_PER_MS as u128);
        let time_hns: i64 = if t128 > i64::MAX as u128 {
            i64::MAX
        } else {
            t128 as i64
        };

        let duration_hns: i64 = match self.last_video_time_hns {
            Some(prev) => if time_hns > prev {
                let d = time_hns - prev;
                if d < 1 {
                    1
                } else {
                    d
                }
            } else {
                self.frame_interval_hns()
            },
            None => self.frame_interval_hns(),
        };
        self.last_video_time_hns = Some(time_hns);
        Ok(VideoSample { time_hns, duration_hns })
    }

    /// One frame interval in 100-nanosecond units, at least one unit.
    fn frame_interval_hns(&self) -> (d: i64)
        requires
            self.fps >= 1,
        ensures
            d == spec_frame_interval(self.fps as int),
            d >= 1,
    {
        let d: u64 = HNS_PER_SEC / (self.fps as u64);
        if d < 1 {
            1
        } else {
            d as i64
        }
    }

    /// Derives the timestamp pair for a chunk of PCM bytes and advances the
    /// written-frame count. Sample time and duration come from the running
    /// frame count alone, never the wall clock. Returns `Ok(None)` — writing
    /// nothing — when no audio track is configured, the chunk is empty, or it
    /// is shorter than one frame. Fails after the encoder was finalized.
    pub fn encode_audio(&mut self, audio_pcm: &Vec<u8>) -> (r: Result<
        Option<AudioSample>,
        RecorderError,
    >)
        requires
            old(self).wf(),
        ensures
            final(self).wf(),
            old(self).finalized ==> r is Err && *final(self) == *old(self),
            r matches Err(e) ==> e.is_encoding_failed(),
            r is Ok <==> !old(self).finalized,
            r matches Ok(None) ==> *final(self) == *old(self),
            r is Ok && (old(self).audio_sample_rate is None || audio_pcm@.len() == 0
                || audio_pcm@.len() as int / (old(self).audio_channels->0 as int * 2) == 0) ==> r
                == Ok::<Option<AudioSample>, RecorderError>(None),
            r matches Ok(None) ==> old(self).audio_sample_rate is None || audio_pcm@.len() == 0
                || audio_pcm@.len() as int / (old(self).audio_channels->0 as int * 2) == 0,
            r matches Ok(Some(a)) ==> {
                let sr = old(self).audio_sample_rate->0 as int;
                let frames = audio_pcm@.len() as int / (old(self).audio_channels->0 as int * 2);
                &&& old(self).audio_sample_rate is Some
                &&& frames >= 1
                &&& a.frames == frames
                &&& a.time_hns == spec_frames_to_hns(old(self).audio_written_frames as int, sr)
                &&& a.duration_hns == {
                    let d = spec_frames_to_hns(frames, sr);
                    if d < 1 {
                        1
                    } else {
                        d
                    }
                }
                &&& a.duration_hns >= 1
                &&& *final(self) == (VideoEncoder {
                    audio_written_frames: (
                        if old(self).audio_written_frames + frames > u64::MAX {
                            u64::MAX
                        } else {
                            (old(self).audio_written_frames + frames) as u64
                        }
                    ),
                    ..*old(self)
                })
            },
    {
        if self.finalized {
            return Err(RecorderError::encoding_failed("Encoder is finalized"));
        }
        let sr: u32 = match self.audio_sample_rate {
            Some(sr) => sr,
            None => {
                return Ok(None);
            },
        };
        let ch: u16 = match self.audio_channels {
            Some(ch) => ch,
            None => {
                return Ok(None);
            },
        };
        if audio_pcm.len() == 0 {
            return Ok(None);
        }

        let bytes_per_frame: usize = (ch as usize) * 2;
        let frames: u64 = (audio_pcm.len() / bytes_per_frame) as u64;
        if frames == 0 {
            return Ok(None);
        }

        let time_hns: i64 = Self::frames_to_hns(self.audio_written_frames, sr);
        let dur: i64 = Self::frames_to_hns(frames, sr);
        let duration_hns: i64 = if dur < 1 {
            1
        } else {
            dur
        };
        self.audio_written_frames = if self.audio_written_frames > u64::MAX - frames {
            u64::MAX
        } else {
            self.audio_written_frames + frames
        };
        Ok(Some(AudioSample { time_hns, duration_hns, frames }))
    }

    /// A frame count converted to 100-nanosecond units at `sr` frames per
    /// second, saturating before the division exactly as the muxer path does.
    fn frames_to_hns(frames: u64, sr: u32) -> (r: i64)
        requires
            sr >= 1,
        ensures
            r == spec_frames_to_hns(frames as int, sr as int),
    {
        proof {
            lemma_mul_bound(frames as int, 0xffff_ffff_ffff_ffff, HNS_PER_SEC as int, 10_000_000);
        }
        let p: u128 = (frames as u128) * (HNS_PER_SEC as u128);
        let p2: u128 = if p > i64::MAX as u128 {
            i64::MAX as u128
        } else {
            p
        };
        (p2 / (sr as u128)) as i64
    }

    /// Derives the timestamps for one video frame and, in the same iteration,
    /// for the PCM chunk pulled to cover the audio shortfall. The video frame
    /// is processed first; a frame-size mismatch fails the call before any
    /// audio accounting.
    pub fn encode_frame_with_audio(
        &mut self,
        bgra: &Vec<u8>,
        elapsed_ms: u64,
        audio_pcm: &Vec<u8>,
    ) -> (r: Result<(VideoSample, Option<AudioSample>), RecorderError>)
        requires
            old(self).wf(),
        ensures
            final(self).wf(),
            old(self).finalized ==> r is Err && *final(self) == *old(self),
            !old(self).finalized && bgra@.len() != old(self).spec_frame_len() ==> r is Err
                && *final(self) == *old(self),
            r matches Err(e) ==> e.is_encoding_failed(),
            r is Ok <==> !old(self).finalized && bgra@.len() == old(self).spec_frame_len(),
            r matches Ok((s, a)) ==> {
                let sr = old(self).audio_sample_rate->0 as int;
                let frames = audio_pcm@.len() as int / (old(self).audio_channels->0 as int * 2);
                &&& s.time_hns == spec_ms_to_hns(elapsed_ms as int)
                &&& s.duration_hns == spec_video_duration(
                    old(self).last_video_time_hns,
                    s.time_hns as int,
                    old(self).fps as int,
                )
                &&& s.duration_hns >= 1
                &&& (old(self).last_video_time_hns matches Some(prev) ==> (s.time_hns > prev
                    ==> s.time_hns == prev + s.duration_hns))
                &&& final(self).last_video_time_hns == Some(s.time_hns)
                &&& (a is None <==> old(self).audio_sample_rate is None || audio_pcm@.len() == 0
                    || frames == 0)
                &&& (a matches Some(ax) ==> {
                    &&& ax.frames == frames
                    &&& ax.time_hns == spec_frames_to_hns(
                        old(self).audio_written_frames as int,
                        sr,
                    )
                    &&& ax.duration_hns >= 1
                    &&& final(self).audio_written_frames == (
                        if old(self).audio_written_frames + frames > u64::MAX {
                            u64::MAX
                        } else {
                            (old(self).audio_written_frames + frames) as u64
                        }
                    )
                })
                &&& (a is None ==> final(self).audio_written_frames == old(
                    self,
                ).audio_written_frames)
                &&& final(self).width == old(self).width
                &&& final(self).height == old(self).height
                &&& final(self).fps == old(self).fps
                &&& final(self).audio_sample_rate == old(self).audio_sample_rate
                &&& final(self).audio_channels == old(self).audio_channels
                &&& final(self).finalized == old(self).finalized
            },
    {
        let video = match self.encode_frame(bgra, elapsed_ms) {
            Ok(s) => s,
            Err(e) => {
                return Err(e);
            },
        };
        let audio = match self.encode_audio(audio_pcm) {
            Ok(a) => a,
            Err(e) => {
                return Err(e);
            },
        };
        Ok((video, audio))
    }

    /// Marks the container finished. Exactly-once: a second call fails and
    /// changes nothing.
    pub fn finalize(&mut self) -> (r: Result<(), RecorderError>)
        requires
            old(self).wf(),
        ensures
            final(self).wf(),
            old(self).finalized ==> r is Err && *final(self) == *old(self),
            r matches Err(e) ==> e.is_encoding_failed(),
            r is Ok <==> !old(self).finalized,
            r is Ok ==> *final(self) == (VideoEncoder { finalized: true, ..*old(self) }),
    {
        if self.finalized {
            return Err(RecorderError::encoding_failed("Encoder is already finalized"));
        }
        self.finalized = true;
        Ok(())
    }
}

/// Byte `i` of the vertically flipped frame: row `y` of the output is row
/// `height - 1 - y` of the input.
pub open spec fn spec_flipped_byte(src: Seq<u8>, w: int, h: int, i: int) -> u8 {
    let row = w * 4;
    let y = i / row;
    let j = i % row;
    src[(h - 1 - y) * row + j]
}

/// Reverses the row order of a 4-byte-per-pixel frame, for a muxer that wants
/// bottom-to-top rows. The result replaces `dst`'s contents.
pub fn flip_vertical_bgra(src: &Vec<u8>, width: u32, height: u32, dst: &mut Vec<u8>)
    requires
        width > 0,
        height > 0,
        src.len() == width as int * height as int * 4,
    ensures
        final(dst)@.len() == src@.len(),
        forall|i: int|
            0 <= i < src@.len() ==> final(dst)@[i] == spec_flipped_byte(
                src@,
                width as int,
                height as int,
                i,
            ),
{
    let ghost wi = width as int;
    let ghost hi = height as int;
    let ghost rowi = wi * 4;
    let src_len: usize = src.len();
    proof {
        assert(wi * 4 <= wi * hi * 4) by (nonlinear_arith)
            requires
                wi > 0,
                hi > 0,
        ;
        assert(hi * (wi * 4) == wi * hi * 4) by (nonlinear_arith);
    }
    let row: usize = (width as usize) * 4;

    let mut out: Vec<u8> = Vec::new();
    let mut y: u32 = 0;
    while y < height
        invariant
            0 <= y <= height,
            width > 0,
            height > 0,
            wi == width as int,
            hi == height as int,
            rowi == wi * 4,
            row == rowi,
            src_len == src.len(),
            src_len == wi * hi * 4,
            hi * rowi == src_len,
            out@.len() == y as int * rowi,
            forall|i: int|
                0 <= i < out@.len() ==> out@[i] == spec_flipped_byte(src@, wi, hi, i),
        decreases height - y,
    {
        proof {
            lemma_mul_inequality(hi - 1 - y as int, hi - 1, rowi);
            lemma_mul_inequality(0, hi - 1 - y as int, rowi);
            lemma_mul_inequality(y as int, hi - 1, rowi);
            assert((hi - 1) * rowi == hi * rowi - rowi) by (nonlinear_arith);
        }
        let src_off: usize = ((height - 1 - y) as usize) * row;

        let mut j: usize = 0;
        while j < row
            invariant
                0 <= j <= row,
                0 <= y < height,
                wi == width as int,
                hi == height as int,
                rowi == wi * 4,
                row == rowi,
                src_len == src.len(),
                src_len == wi * hi * 4,
                hi * rowi == src_len,
                src_off == (hi - 1 - y as int) * rowi,
                src_off + row <= src_len,
                out@.len() == y as int * rowi + j,
                forall|i: int|
                    0 <= i < out@.len() ==> out@[i] == spec_flipped_byte(src@, wi, hi, i),
            decreases row - j,
        {
            let v: u8 = src[src_off + j];
            out.push(v);
            proof {
                lemma_fundamental_div_mod_converse(
                    y as int * rowi + j as int,
                    rowi,
                    y as int,
                    j as int,
                );
            }
            j = j + 1;
        }
        proof {
            assert(y as int * rowi + rowi == (y as int + 1) * rowi) by (nonlinear_arith);
        }
        y = y + 1;
    }
    proof {
        assert(height as int * rowi == src_len) by {
            assert(hi * rowi == src_len);
        }
    }
    *dst = out;
}

} // verus!
