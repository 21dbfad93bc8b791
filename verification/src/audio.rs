//! Microphone ring buffer: a bounded FIFO store of 16-bit PCM samples.
//!
//! A platform stream callback appends raw samples; the capture loop pulls
//! fixed-size chunks. The buffer is capped at roughly ten seconds of audio at
//! the device's native rate; on overflow the oldest samples are evicted so
//! that memory stays bounded and the device callback is never blocked.
//!
//! Volumes are carried in thousandths (`1000` is full volume); scaling rounds
//! half away from zero and the result always fits a 16-bit sample.

use vstd::prelude::*;
use std::collections::VecDeque;

verus! {

/// Seconds of audio the ring buffer can hold.
pub const RING_BUFFER_SECONDS: u64 = 10;

/// The sample cap of the ring buffer: ten seconds at the native rate, bounded
/// by the machine's address space.
pub open spec fn spec_ring_capacity(sample_rate: int, channels: int) -> int {
    let cap = sample_rate * channels * RING_BUFFER_SECONDS;
    if cap > usize::MAX {
        usize::MAX as int
    } else {
        cap
    }
}

/// The ring contents after appending `data`: the concatenation, with the
/// oldest samples dropped so that at most `cap` remain.
pub open spec fn spec_after_push(buf: Seq<i16>, data: Seq<i16>, cap: int) -> Seq<i16> {
    let all = buf + data;
    if all.len() > cap {
        all.skip(all.len() - cap)
    } else {
        all
    }
}

/// Concatenation of a sequence of callback deliveries, in arrival order.
pub open spec fn spec_concat_deliveries(deliveries: Seq<Seq<i16>>) -> Seq<i16>
    decreases deliveries.len(),
{
    if deliveries.len() == 0 {
        Seq::empty()
    } else {
        spec_concat_deliveries(deliveries.drop_last()) + deliveries.last()
    }
}

/// The ring contents after a whole sequence of callback deliveries, each
/// folded in by [`spec_after_push`].
pub open spec fn spec_fold_pushes(init: Seq<i16>, deliveries: Seq<Seq<i16>>, cap: int) -> Seq<i16>
    decreases deliveries.len(),
{
    if deliveries.len() == 0 {
        init
    } else {
        spec_after_push(
            spec_fold_pushes(init, deliveries.drop_last(), cap),
            deliveries.last(),
            cap,
        )
    }
}

/// Two consecutive pushes fold the same way as one push of their
/// concatenation: oldest-first eviction commutes with batching.
proof fn lemma_after_push_compose(buf: Seq<i16>, x: Seq<i16>, y: Seq<i16>, cap: int)
    requires
        0 <= cap,
        buf.len() <= cap,
    ensures
        spec_after_push(spec_after_push(buf, x, cap), y, cap) == spec_after_push(buf, x + y, cap),
{
    let a = buf + x;
    let b = buf + (x + y);
    let s = spec_after_push(buf, x, cap);
    assert(a + y =~= b);
    if a.len() <= cap {
        assert(s + y =~= b);
    } else {
        assert(s == a.skip(a.len() - cap));
        if y.len() == 0 {
            assert(s + y =~= s);
            assert(b =~= a);
            assert(spec_after_push(buf, x + y, cap) =~= s);
        } else {
            assert((s + y).skip(y.len() as int) =~= b.skip(b.len() - cap));
        }
    }
}

/// FIFO eviction over any number of callback deliveries: starting from a
/// buffer within the cap, the ring always holds exactly the newest `cap`
/// samples of everything pushed so far, in arrival order — the oldest
/// samples are evicted first, never the newest.
pub proof fn lemma_ring_fifo_over_deliveries(init: Seq<i16>, deliveries: Seq<Seq<i16>>, cap: int)
    requires
        0 <= cap,
        init.len() <= cap,
    ensures
        spec_fold_pushes(init, deliveries, cap) == spec_after_push(
            init,
            spec_concat_deliveries(deliveries),
            cap,
        ),
    decreases deliveries.len(),
{
    if deliveries.len() == 0 {
        assert(init + spec_concat_deliveries(deliveries) =~= init);
    } else {
        let ds = deliveries.drop_last();
        let d = deliveries.last();
        lemma_ring_fifo_over_deliveries(init, ds, cap);
        lemma_after_push_compose(init, spec_concat_deliveries(ds), d, cap);
    }
}

/// The `i`-th sample pulled from a buffer, zero-padded past its end.
pub open spec fn spec_padded_sample(buf: Seq<i16>, i: int) -> i16 {
    if 0 <= i < buf.len() {
        buf[i]
    } else {
        0i16
    }
}

/// A sample scaled by a volume in thousandths, rounding half away from zero.
pub open spec fn spec_scale_sample(s: int, v: int) -> int {
    if s >= 0 {
        (s * v + 500) / 1000
    } else {
        -(((-s) * v + 500) / 1000)
    }
}

/// A volume clamped to the valid range of thousandths.
pub open spec fn spec_clamp_volume(v: int) -> int {
    if v > 1000 {
        1000
    } else {
        v
    }
}

/// Byte `j` of the little-endian serialization of the pulled, volume-scaled
/// samples: byte `2i` is the low byte of sample `i`, byte `2i + 1` its high
/// byte.
pub open spec fn spec_pcm_byte(buf: Seq<i16>, volume: int, j: int) -> u8 {
    let t = spec_scale_sample(
        spec_padded_sample(buf, j / 2) as int,
        spec_clamp_volume(volume),
    ) as i16;
    if j % 2 == 0 {
        ((t as u16) % 256) as u8
    } else {
        ((t as u16) / 256) as u8
    }
}

/// Bounded FIFO store of interleaved 16-bit PCM samples from one microphone.
pub struct MicrophoneCapture {
    sample_rate: u32,
    channels: u16,
    buffer: VecDeque<i16>,
    max_samples: usize,
}

impl MicrophoneCapture {
    /// The buffer never holds more samples than its cap, and the cap is the
    /// ten-second bound for the device's rate and channel count.
    pub closed spec fn wf(self) -> bool {
        &&& self.buffer@.len() <= self.max_samples
        &&& self.max_samples == spec_ring_capacity(
            self.sample_rate as int,
            self.channels as int,
        )
    }

    /// The samples currently buffered, oldest first.
    pub closed spec fn samples(self) -> Seq<i16> {
        self.buffer@
    }

    /// The device's native sample rate.
    pub closed spec fn spec_sample_rate(self) -> u32 {
        self.sample_rate
    }

    /// The device's native channel count.
    pub closed spec fn spec_channels(self) -> u16 {
        self.channels
    }

    /// The sample cap of this ring buffer.
    pub closed spec fn spec_capacity(self) -> int {
        self.max_samples as int
    }

    /// The cap equals the ten-second bound for the device's native format.
    pub proof fn lemma_capacity(self)
        requires
            self.wf(),
        ensures
            self.spec_capacity() == spec_ring_capacity(
                self.spec_sample_rate() as int,
                self.spec_channels() as int,
            ),
            self.samples().len() <= self.spec_capacity(),
    {
    }

    /// An empty ring buffer for a device with the given native format.
    pub fn new(sample_rate: u32, channels: u16) -> (r: Self)
        ensures
            r.wf(),
            r.samples() == Seq::<i16>::empty(),
            r.spec_sample_rate() == sample_rate,
            r.spec_channels() == channels,
            r.spec_capacity() == spec_ring_capacity(sample_rate as int, channels as int),
    {
        proof {
            crate::compositor::lemma_mul_bound(
                sample_rate as int,
                0xffff_ffff,
                channels as int,
                0xffff,
            );
        }
        let cap64: u64 = (sample_rate as u64) * (channels as u64) * RING_BUFFER_SECONDS;
        let max_samples: usize = if cap64 > usize::MAX as u64 {
            usize::MAX
        } else {
            cap64 as usize
        };
        MicrophoneCapture { sample_rate, channels, buffer: VecDeque::new(), max_samples }
    }

    /// The device's native sample rate, for encoder negotiation.
    pub fn sample_rate(&self) -> (r: u32)
        ensures
            r == self.spec_sample_rate(),
    {
        self.sample_rate
    }

    /// The device's native channel count, for encoder negotiation.
    pub fn channels(&self) -> (r: u16)
        ensures
            r == self.spec_channels(),
    {
        self.channels
    }

    /// Appends freshly captured samples, evicting the oldest ones first when
    /// the ten-second cap is exceeded — the newest samples are always kept.
    pub fn push_samples(&mut self, data: &[i16])
        requires
            old(self).wf(),
        ensures
            final(self).wf(),
            final(self).samples() == spec_after_push(
                old(self).samples(),
                data@,
                old(self).spec_capacity(),
            ),
            final(self).spec_sample_rate() == old(self).spec_sample_rate(),
            final(self).spec_channels() == old(self).spec_channels(),
            final(self).spec_capacity() == old(self).spec_capacity(),
    {
        let ghost buf0 = self.buffer@;
        let n: usize = data.len();
        let mut i: usize = 0;
        while i < n
            invariant
                0 <= i <= n,
                n == data@.len(),
                self.buffer@ == buf0 + data@.take(i as int),
                self.sample_rate == old(self).sample_rate,
                self.channels == old(self).channels,
                self.max_samples == old(self).max_samples,
            decreases n - i,
        {
            let s: i16 = data[i];
            self.buffer.push_back(s);
            proof {
                assert(self.buffer@ =~= buf0 + data@.take(i as int + 1));
            }
            i = i + 1;
        }
        proof {
            assert(data@.take(n as int) =~= data@);
        }

        let ghost all = buf0 + data@;
        while self.buffer.len() > self.max_samples
            invariant
                self.buffer@ == all.skip(all.len() - self.buffer@.len()),
                self.buffer@.len() <= all.len(),
                all.len() > self.max_samples ==> self.buffer@.len() >= self.max_samples,
                all.len() <= self.max_samples ==> self.buffer@.len() == all.len(),
                self.sample_rate == old(self).sample_rate,
                self.channels == old(self).channels,
                self.max_samples == old(self).max_samples,
            decreases self.buffer@.len(),
        {
            let ghost before = self.buffer@;
            let _popped = self.buffer.pop_front();
            proof {
                assert(before.len() > 0);
                assert(self.buffer@ =~= all.skip(all.len() - self.buffer@.len()));
            }
        }
        proof {
            if all.len() > self.max_samples {
                assert(self.buffer@.len() == self.max_samples);
            } else {
                assert(self.buffer@ =~= all);
            }
        }
    }

    /// Removes up to `sample_count` of the oldest samples, zero-padding when
    /// fewer are buffered. Pulled samples are consumed exactly once.
    pub fn take_pcm_i16(&mut self, sample_count: usize) -> (out: Vec<i16>)
        requires
            old(self).wf(),
        ensures
            final(self).wf(),
            out@.len() == sample_count,
            forall|i: int|
                0 <= i < sample_count ==> out@[i] == spec_padded_sample(old(self).samples(), i),
            final(self).samples() == old(self).samples().skip(
                if sample_count <= old(self).samples().len() {
                    sample_count as int
                } else {
                    old(self).samples().len() as int
                },
            ),
            final(self).spec_sample_rate() == old(self).spec_sample_rate(),
            final(self).spec_channels() == old(self).spec_channels(),
            final(self).spec_capacity() == old(self).spec_capacity(),
    {
        let ghost buf0 = self.buffer@;
        let mut out: Vec<i16> = Vec::new();
        let mut i: usize = 0;
        while i < sample_count
            invariant
                0 <= i <= sample_count,
                out@.len() == i,
                forall|j: int| 0 <= j < i ==> out@[j] == spec_padded_sample(buf0, j),
                self.buffer@ == buf0.skip(
                    if i <= buf0.len() {
                        i as int
                    } else {
                        buf0.len() as int
                    },
                ),
                self.buffer@.len() <= self.max_samples,
                self.sample_rate == old(self).sample_rate,
                self.channels == old(self).channels,
                self.max_samples == old(self).max_samples,
            decreases sample_count - i,
        {
            let s: i16 = match self.buffer.pop_front() {
                Some(s) => s,
                None => 0,
            };
            out.push(s);
            proof {
                if i < buf0.len() {
                    assert(self.buffer@ =~= buf0.skip(i as int + 1));
                } else {
                    assert(self.buffer@ =~= buf0.skip(buf0.len() as int));
                }
            }
            i = i + 1;
        }
        out
    }

    /// Removes up to `sample_count` samples, scales each by `volume` (in
    /// thousandths, clamped to full volume), and serializes them as
    /// little-endian 16-bit values.
    pub fn take_pcm_bytes_le(&mut self, sample_count: usize, volume: u32) -> (out: Vec<u8>)
        requires
            old(self).wf(),
            sample_count * 2 <= usize::MAX,
        ensures
            final(self).wf(),
            out@.len() == sample_count * 2,
            forall|j: int|
                0 <= j < out@.len() ==> out@[j] == spec_pcm_byte(
                    old(self).samples(),
                    volume as int,
                    j,
                ),
            final(self).samples() == old(self).samples().skip(
                if sample_count <= old(self).samples().len() {
                    sample_count as int
                } else {
                    old(self).samples().len() as int
                },
            ),
            final(self).spec_sample_rate() == old(self).spec_sample_rate(),
            final(self).spec_channels() == old(self).spec_channels(),
            final(self).spec_capacity() == old(self).spec_capacity(),
    {
        let v: u32 = if volume > 1000 {
            1000
        } else {
            volume
        };
        let ghost buf0 = self.buffer@;
        let samples: Vec<i16> = self.take_pcm_i16(sample_count);
        let mut out: Vec<u8> = Vec::new();
        let mut i: usize = 0;
        while i < sample_count
            invariant
                0 <= i <= sample_count,
                sample_count * 2 <= usize::MAX,
                samples@.len() == sample_count,
                v == spec_clamp_volume(volume as int),
                0 <= v <= 1000,
                forall|j: int| 0 <= j < sample_count ==> samples@[j] == spec_padded_sample(buf0, j),
                out@.len() == i * 2,
                forall|j: int| 0 <= j < out@.len() ==> out@[j] == spec_pcm_byte(buf0, volume as int, j),
            decreases sample_count - i,
        {
            let s: i16 = samples[i];
            proof {
                if s >= 0 {
                    assert(0 <= (s as int) * (v as int) <= 32767 * 1000) by (nonlinear_arith)
                        requires
                            0 <= s as int <= 32767,
                            0 <= v as int <= 1000,
                    ;
                } else {
                    assert(0 <= (-(s as int)) * (v as int) <= 32768 * 1000) by (nonlinear_arith)
                        requires
                            0 < -(s as int) <= 32768,
                            0 <= v as int <= 1000,
                    ;
                }
            }
            let scaled: i64 = if s >= 0 {
                ((s as i64) * (v as i64) + 500) / 1000
            } else {
                -(((-(s as i64)) * (v as i64) + 500) / 1000)
            };
            proof {
                assert(scaled as int == spec_scale_sample(s as int, v as int));
                assert(-32768 <= scaled <= 32767);
            }
            let t: i16 = scaled as i16;
            let u: u16 = #[verifier::truncate] (t as u16);
            let lo: u8 = (u % 256) as u8;
            let hi: u8 = (u / 256) as u8;
            out.push(lo);
            out.push(hi);
            proof {
                vstd::arithmetic::div_mod::lemma_fundamental_div_mod_converse(
                    i as int * 2,
                    2,
                    i as int,
                    0,
                );
                vstd::arithmetic::div_mod::lemma_fundamental_div_mod_converse(
                    i as int * 2 + 1,
                    2,
                    i as int,
                    1,
                );
            }
            i = i + 1;
        }
        out
    }
}

/// Picks the microphone to open: the position of the first device whose
/// name equals the requested one, or `None` to fall back to the platform's
/// default input device.
pub fn choose_microphone(names: &Vec<String>, requested: &String) -> (r: Option<usize>)
    ensures
        match r {
            Some(i) => i < names.len() && names@[i as int]@ == requested@ && forall|j: int|
                0 <= j < i ==> names@[j]@ != requested@,
            None => forall|j: int| 0 <= j < names@.len() ==> names@[j]@ != requested@,
        },
{
    let n: usize = names.len();
    let mut i: usize = 0;
    while i < n
        invariant
            0 <= i <= n,
            n == names.len(),
            forall|j: int| 0 <= j < i ==> names@[j]@ != requested@,
        decreases n - i,
    {
        if names[i] == *requested {
            return Some(i);
        }
        i = i + 1;
    }
    None
}

/// Converts one unsigned 16-bit sample to the signed representation used by
/// the ring buffer.
pub fn convert_u16_sample(s: u16) -> (r: i16)
    ensures
        r as int == s as int - 32768,
{
    (s as i32 - 32768) as i16
}

} // verus!
