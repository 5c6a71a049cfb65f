//! Control state of the filtering stream adapter.
//!
//! The adapter wraps a decoded sample stream and applies the equalizer
//! per sample, per channel. The floating-point filtering itself happens
//! outside the library; what is verified here is everything the filter
//! code must be told for each sample: whether the coefficients must be
//! recomputed because the bank's counter advanced, which channel slot the
//! sample belongs to, and the fade-in ramp that masks the discontinuity
//! of a (re)start. An adapter is built fresh for every playback attempt
//! and is not restartable.

use vstd::prelude::*;

verus! {

/// Length of the fade-in ramp in samples: 5 ms at `sample_rate_hz`,
/// rounded up, and at least one sample.
pub open spec fn spec_fade_len(sample_rate_hz: int) -> int {
    let n = (sample_rate_hz * 5 + 999) / 1000;
    if n >= 1 {
        n
    } else {
        1
    }
}

/// What the filter code must do with one sample.
pub struct SampleStep {
    /// The bank's counter advanced: recompute all bands' coefficients
    /// from a fresh snapshot before filtering this sample.
    pub refresh: bool,
    /// Channel slot this sample belongs to; selects the per-channel
    /// filter state.
    pub slot: u16,
    /// `Some((n, len))`: scale the output sample by `n / len` — the
    /// fade-in ramp is still running. `None`: full amplitude.
    pub fade: Option<(u32, u32)>,
}

/// Per-stream adapter state: shape of the stream, channel-slot cursor,
/// fade-in progress, and the bank counter value last acted on.
pub struct EqAdapter {
    /// Interleaved channel count of the wrapped stream.
    pub channels: u16,
    /// Sample rate of the wrapped stream, in hertz.
    pub sample_rate_hz: u32,
    /// Channel slot of the next sample.
    pub slot: u16,
    /// Fade-in ramp length in samples.
    pub fade_len: u32,
    /// Samples of the ramp already emitted.
    pub fade_pos: u32,
    /// Bank counter value the current coefficients were derived from.
    pub last_version: u64,
}

impl EqAdapter {
    /// The slot cursor stays within the channel cycle and the ramp
    /// position never passes its length.
    pub open spec fn wf(self) -> bool {
        &&& self.channels >= 1
        &&& self.slot < self.channels
        &&& self.fade_len >= 1
        &&& self.fade_pos <= self.fade_len
    }

    /// Adapter state after one sample is processed against bank counter
    /// `bank_version`.
    pub open spec fn spec_stepped(self, bank_version: u64) -> EqAdapter {
        EqAdapter {
            slot: if self.slot + 1 == self.channels {
                0
            } else {
                (self.slot + 1) as u16
            },
            fade_pos: if self.fade_pos < self.fade_len {
                (self.fade_pos + 1) as u32
            } else {
                self.fade_pos
            },
            last_version: bank_version,
            ..self
        }
    }

    /// Builds the adapter state for a fresh stream: slot cursor at the
    /// first channel, ramp at its start, coefficients derived from bank
    /// counter `bank_version`.
    pub fn new(channels: u16, sample_rate_hz: u32, bank_version: u64) -> (a: EqAdapter)
        requires
            channels >= 1,
        ensures
            a.wf(),
            a.channels == channels,
            a.sample_rate_hz == sample_rate_hz,
            a.slot == 0,
            a.fade_pos == 0,
            a.fade_len == spec_fade_len(sample_rate_hz as int),
            a.last_version == bank_version,
    {
        let wide: u64 = ((sample_rate_hz as u64) * 5 + 999) / 1000;
        let fade_len: u32 = if wide < 1 {
            1
        } else {
            wide as u32
        };
        EqAdapter {
            channels,
            sample_rate_hz,
            slot: 0,
            fade_len,
            fade_pos: 0,
            last_version: bank_version,
        }
    }

    /// Advances the adapter by one sample and says what to do with it:
    /// recompute coefficients exactly when the bank counter differs from
    /// the one last seen, filter with the states of the current channel
    /// slot, and scale by `fade_pos / fade_len` while the ramp runs. The
    /// slot cursor moves one step around the channel cycle.
    pub fn step(&mut self, bank_version: u64) -> (s: SampleStep)
        requires
            old(self).wf(),
        ensures
            *final(self) == old(self).spec_stepped(bank_version),
            final(self).wf(),
            s.refresh == (bank_version != old(self).last_version),
            s.slot == old(self).slot,
            s.fade == (if old(self).fade_pos < old(self).fade_len {
                Some((old(self).fade_pos, old(self).fade_len))
            } else {
                None::<(u32, u32)>
            }),
    {
        let refresh: bool = bank_version != self.last_version;
        self.last_version = bank_version;
        let slot: u16 = self.slot;
        self.slot = if self.slot + 1 == self.channels {
            0
        } else {
            self.slot + 1
        };
        let fade: Option<(u32, u32)> = if self.fade_pos < self.fade_len {
            let f: Option<(u32, u32)> = Some((self.fade_pos, self.fade_len));
            self.fade_pos = self.fade_pos + 1;
            f
        } else {
            None
        };
        SampleStep { refresh, slot, fade }
    }

    /// Interleaved channel count, forwarded unchanged from the wrapped
    /// stream.
    pub fn channels(&self) -> (c: u16)
        ensures
            c == self.channels,
    {
        self.channels
    }

    /// Sample rate in hertz, forwarded unchanged from the wrapped stream.
    pub fn sample_rate_hz(&self) -> (r: u32)
        ensures
            r == self.sample_rate_hz,
    {
        self.sample_rate_hz
    }

    /// Fade-in ramp length in samples.
    pub fn fade_len(&self) -> (n: u32)
        ensures
            n == self.fade_len,
    {
        self.fade_len
    }
}

/// Adapter state after a run of samples, one per entry of
/// `bank_versions`.
pub open spec fn spec_run(a: EqAdapter, bank_versions: Seq<u64>) -> EqAdapter
    decreases bank_versions.len(),
{
    if bank_versions.len() == 0 {
        a
    } else {
        spec_run(a.spec_stepped(bank_versions[0]), bank_versions.drop_first())
    }
}

/// Law: the fade-in envelope covers exactly the first `fade_len` samples
/// of the adapter's life. After any run of samples the ramp position is
/// the smaller of samples-seen-so-far and the ramp length — so every
/// later sample passes at full amplitude — and the stream shape is
/// untouched.
pub proof fn lemma_fade_envelope(a: EqAdapter, bank_versions: Seq<u64>)
    requires
        a.wf(),
    ensures
        spec_run(a, bank_versions).wf(),
        spec_run(a, bank_versions).fade_pos == (if a.fade_pos + bank_versions.len() <= a.fade_len {
            a.fade_pos + bank_versions.len()
        } else {
            a.fade_len as int
        }),
        spec_run(a, bank_versions).fade_len == a.fade_len,
        spec_run(a, bank_versions).channels == a.channels,
        spec_run(a, bank_versions).sample_rate_hz == a.sample_rate_hz,
    decreases bank_versions.len(),
{
    if bank_versions.len() > 0 {
        lemma_fade_envelope(a.spec_stepped(bank_versions[0]), bank_versions.drop_first());
    }
}

} // verus!
