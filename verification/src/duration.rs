//! Total-duration resolution.
//!
//! A track's duration is obtained by a three-tier strategy, first success
//! wins: the decoder's own metadata-derived duration; a container probe
//! that exposes a sample rate and a total frame count; and finally a full
//! decode that counts frames. The resolver here is the verified state
//! machine of that strategy — the caller performs the probing and decoding
//! and feeds the observations in. An unknown duration is a valid terminal
//! outcome, never an error.

use vstd::prelude::*;

verus! {

/// Exact duration in whole microseconds of `frames` frames played at
/// `sample_rate` frames per second.
pub open spec fn spec_duration_us(frames: int, sample_rate: int) -> int {
    frames * 1_000_000 / sample_rate
}

/// Computes `frames / sample_rate` as whole microseconds. Returns `None`
/// when the sample rate is zero or the result does not fit in a `u64`.
pub fn duration_us_from_frames(frames: u64, sample_rate: u32) -> (r: Option<u64>)
    ensures
        r matches Some(us) <==> sample_rate > 0
            && spec_duration_us(frames as int, sample_rate as int) <= u64::MAX,
        r matches Some(us) ==> us == spec_duration_us(frames as int, sample_rate as int),
{
    if sample_rate == 0 {
        return None;
    }
    let wide: u128 = (frames as u128) * 1_000_000u128 / (sample_rate as u128);
    proof {
        assert((frames as u128) * 1_000_000u128 == frames * 1_000_000) by (nonlinear_arith);
    }
    if wide > u64::MAX as u128 {
        None
    } else {
        Some(wide as u64)
    }
}

/// Frame count and sample rate accumulated over a full decode of one
/// track, for the last-resort duration tier.
pub struct DecodeTally {
    /// Identifier of the track whose packets are counted; packets of other
    /// tracks are ignored.
    pub track_id: u32,
    /// Total decoded frames so far. Saturates at `u64::MAX`.
    pub total_frames: u64,
    /// Sample rate, as reported by the probe or else by the first decoded
    /// packet.
    pub sample_rate: Option<u32>,
}

impl DecodeTally {
    /// Tally contents after one decoded packet is recorded.
    pub open spec fn spec_recorded(self, packet_track_id: u32, frames: int, rate: u32) -> DecodeTally {
        if packet_track_id != self.track_id {
            self
        } else {
            DecodeTally {
                total_frames: if self.total_frames + frames <= u64::MAX {
                    (self.total_frames + frames) as u64
                } else {
                    u64::MAX
                },
                sample_rate: match self.sample_rate {
                    Some(r) => Some(r),
                    None => Some(rate),
                },
                ..self
            }
        }
    }

    /// The duration this tally stands for: frames over sample rate, or
    /// unknown when no frame was decoded, no usable sample rate was ever
    /// observed, or the result does not fit.
    pub open spec fn spec_result(self) -> Option<u64> {
        match self.sample_rate {
            Some(r) => if self.total_frames > 0 && r > 0
                && spec_duration_us(self.total_frames as int, r as int) <= u64::MAX {
                Some(spec_duration_us(self.total_frames as int, r as int) as u64)
            } else {
                None
            },
            None => None,
        }
    }
}

/// Where the three-tier duration resolution stands.
pub enum ResolveStep {
    /// Tier one: ask the decoder for a metadata-derived duration.
    AwaitNative,
    /// Tier two: probe the container for the selected track's parameters.
    AwaitProbe,
    /// Tier three: decode the whole track, counting frames.
    Decoding(DecodeTally),
    /// Resolution finished; an unknown duration is a valid outcome.
    Done(Option<u64>),
}

/// The three-tier duration resolution strategy, first success wins.
///
/// The caller opens files, probes and decodes; the resolver decides which
/// tier applies, how observations combine, and what the outcome is. Every
/// path terminates in `Done`, so resolution degrades to "unknown" instead
/// of failing playback.
pub struct DurationResolver {
    /// Current step.
    pub step: ResolveStep,
}

impl DurationResolver {
    /// Starts a resolution at tier one.
    pub fn new() -> (r: DurationResolver)
        ensures
            r.step is AwaitNative,
    {
        DurationResolver { step: ResolveStep::AwaitNative }
    }

    /// Tier one: the duration the decoder derived from container metadata
    /// during construction, if any. A known value finishes the resolution;
    /// otherwise the probe tier is next.
    pub fn offer_native(&mut self, native_us: Option<u64>)
        requires
            old(self).step is AwaitNative,
        ensures
            final(self).step == (match native_us {
                Some(us) => ResolveStep::Done(Some(us)),
                None => ResolveStep::AwaitProbe,
            }),
    {
        self.step = match native_us {
            Some(us) => ResolveStep::Done(Some(us)),
            None => ResolveStep::AwaitProbe,
        };
    }

    /// Tier two failed outright: the container could not be probed or no
    /// track with a sample rate was found. The duration stays unknown.
    pub fn probe_failed(&mut self)
        requires
            old(self).step is AwaitProbe,
        ensures
            final(self).step == ResolveStep::Done(None::<u64>),
    {
        self.step = ResolveStep::Done(None);
    }

    /// Tier two: parameters of the selected track. When both a usable
    /// sample rate and a total frame count are present the duration is
    /// `n_frames / sample_rate` exactly and resolution finishes; otherwise
    /// the full decode of track `track_id` begins, seeded with whatever
    /// sample rate the probe reported.
    pub fn offer_probe(&mut self, track_id: u32, sample_rate: Option<u32>, n_frames: Option<u64>)
        requires
            old(self).step is AwaitProbe,
        ensures
            final(self).step == (if sample_rate matches Some(r) && r > 0 && n_frames is Some {
                ResolveStep::Done(spec_probe_duration(n_frames->Some_0 as int, sample_rate->Some_0 as int))
            } else {
                ResolveStep::Decoding(DecodeTally {
                    track_id,
                    total_frames: 0,
                    sample_rate,
                })
            }),
    {
        self.step = match (sample_rate, n_frames) {
            (Some(r), Some(n)) if r > 0 => ResolveStep::Done(duration_us_from_frames(n, r)),
            _ => ResolveStep::Decoding(DecodeTally {
                track_id,
                total_frames: 0,
                sample_rate,
            }),
        };
    }

    /// Tier three could not start: no decoder could be built for the
    /// track's codec. The duration stays unknown.
    pub fn decoder_unavailable(&mut self)
        requires
            old(self).step is Decoding,
        ensures
            final(self).step == ResolveStep::Done(None::<u64>),
    {
        self.step = ResolveStep::Done(None);
    }

    /// Tier three: one packet was decoded. Packets of other tracks are
    /// ignored; for the selected track the frame count accumulates and the
    /// first observed sample rate is kept.
    pub fn record_packet(&mut self, packet_track_id: u32, frames: u64, rate: u32)
        requires
            old(self).step is Decoding,
        ensures
            final(self).step == ResolveStep::Decoding(
                old(self).step->Decoding_0.spec_recorded(packet_track_id, frames as int, rate),
            ),
    {
        let tally: DecodeTally = match &self.step {
            ResolveStep::Decoding(t) => DecodeTally {
                track_id: t.track_id,
                total_frames: t.total_frames,
                sample_rate: t.sample_rate,
            },
            _ => DecodeTally { track_id: 0, total_frames: 0, sample_rate: None },
        };
        if packet_track_id != tally.track_id {
            return;
        }
        let total: u64 = if frames <= u64::MAX - tally.total_frames {
            tally.total_frames + frames
        } else {
            u64::MAX
        };
        let sr: Option<u32> = match tally.sample_rate {
            Some(r) => Some(r),
            None => Some(rate),
        };
        self.step = ResolveStep::Decoding(DecodeTally {
            track_id: tally.track_id,
            total_frames: total,
            sample_rate: sr,
        });
    }

    /// Tier three: the stream is exhausted. The tally's duration, known or
    /// not, is the final outcome.
    pub fn finish_decode(&mut self)
        requires
            old(self).step is Decoding,
        ensures
            final(self).step == ResolveStep::Done(old(self).step->Decoding_0.spec_result()),
    {
        let result: Option<u64> = match &self.step {
            ResolveStep::Decoding(t) => {
                if t.total_frames > 0 {
                    match t.sample_rate {
                        Some(r) => duration_us_from_frames(t.total_frames, r),
                        None => None,
                    }
                } else {
                    None
                }
            },
            _ => None,
        };
        self.step = ResolveStep::Done(result);
    }

    /// The resolved duration once resolution has finished.
    pub fn result(&self) -> (r: Option<u64>)
        requires
            self.step is Done,
        ensures
            r == self.step->Done_0,
    {
        match &self.step {
            ResolveStep::Done(r) => *r,
            _ => None,
        }
    }
}

/// Outcome of the probe tier when both parameters are present: exact when
/// it fits in a `u64`, unknown otherwise.
pub open spec fn spec_probe_duration(frames: int, sample_rate: int) -> Option<u64> {
    if spec_duration_us(frames, sample_rate) <= u64::MAX {
        Some(spec_duration_us(frames, sample_rate) as u64)
    } else {
        None
    }
}

} // verus!
