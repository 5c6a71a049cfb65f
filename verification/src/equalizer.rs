//! The equalizer bank: ten fixed-frequency bands, one live gain vector.
//!
//! Gains are held in centi-decibels (hundredths of a dB) and bounded to
//! ±12 dB. The vector is paired with a change counter that advances with
//! every update, so the render path can detect "no change since last
//! check" from the counter alone. The vector and the counter live in one
//! value and are read through one call, so a reader can never observe a
//! gain vector belonging to one counter value together with another
//! counter value; the embedding application shares the bank between its
//! control and render contexts behind a short critical section.

use vstd::prelude::*;

verus! {

/// Number of equalizer bands.
pub const BAND_COUNT: usize = 10;

/// Largest admissible gain magnitude, in centi-decibels (12 dB).
pub const GAIN_LIMIT_CDB: i32 = 1200;

/// Center frequency of band `band`, in hertz: the fixed ladder
/// 31, 62, 125, 250, 500, 1000, 2000, 4000, 8000, 16000.
pub open spec fn spec_band_frequency_hz(band: int) -> u32 {
    if band == 0 {
        31
    } else if band == 1 {
        62
    } else if band == 2 {
        125
    } else if band == 3 {
        250
    } else if band == 4 {
        500
    } else if band == 5 {
        1000
    } else if band == 6 {
        2000
    } else if band == 7 {
        4000
    } else if band == 8 {
        8000
    } else {
        16000
    }
}

/// Center frequency of band `band`, in hertz.
pub fn band_frequency_hz(band: usize) -> (hz: u32)
    requires
        band < BAND_COUNT,
    ensures
        hz == spec_band_frequency_hz(band as int),
{
    if band == 0 {
        31
    } else if band == 1 {
        62
    } else if band == 2 {
        125
    } else if band == 3 {
        250
    } else if band == 4 {
        500
    } else if band == 5 {
        1000
    } else if band == 6 {
        2000
    } else if band == 7 {
        4000
    } else if band == 8 {
        8000
    } else {
        16000
    }
}

/// `g` clamped to the admissible gain range.
pub open spec fn spec_clamp_gain(g: int) -> int {
    if g < -(GAIN_LIMIT_CDB as int) {
        -(GAIN_LIMIT_CDB as int)
    } else if g > GAIN_LIMIT_CDB as int {
        GAIN_LIMIT_CDB as int
    } else {
        g
    }
}

/// The shared gain vector and its change counter.
pub struct Equalizer {
    /// One gain per band, in centi-decibels, each within ±`GAIN_LIMIT_CDB`.
    pub gains_cdb: Vec<i32>,
    /// Advances by one with every gain update.
    pub version: u64,
}

impl Equalizer {
    /// One gain per band, each within the admissible range.
    pub open spec fn wf(self) -> bool {
        &&& self.gains_cdb@.len() == BAND_COUNT
        &&& forall|i: int|
            0 <= i < self.gains_cdb@.len()
                ==> -(GAIN_LIMIT_CDB as int) <= #[trigger] self.gains_cdb@[i] <= GAIN_LIMIT_CDB as int
    }

    /// A flat bank: every band at 0 dB, counter at zero.
    pub fn new() -> (eq: Equalizer)
        ensures
            eq.wf(),
            eq.version == 0,
            eq.gains_cdb@.len() == BAND_COUNT,
            forall|i: int| 0 <= i < BAND_COUNT ==> #[trigger] eq.gains_cdb@[i] == 0,
    {
        let mut gains: Vec<i32> = Vec::new();
        let mut i: usize = 0;
        while i < BAND_COUNT
            invariant
                i <= BAND_COUNT,
                gains@.len() == i,
                forall|j: int| 0 <= j < i ==> #[trigger] gains@[j] == 0,
            decreases BAND_COUNT - i,
        {
            gains.push(0);
            i = i + 1;
        }
        Equalizer { gains_cdb: gains, version: 0 }
    }

    /// Overwrites the gain vector, clamping each entry to the admissible
    /// range, and advances the change counter. Vector and counter change
    /// together, under the one mutable borrow.
    pub fn set_gains(&mut self, gains_cdb: &Vec<i32>)
        requires
            gains_cdb@.len() == BAND_COUNT,
            old(self).version < u64::MAX,
        ensures
            final(self).wf(),
            final(self).version == old(self).version + 1,
            final(self).gains_cdb@.len() == BAND_COUNT,
            forall|i: int|
                0 <= i < BAND_COUNT
                    ==> final(self).gains_cdb@[i] == spec_clamp_gain(#[trigger] gains_cdb@[i] as int),
    {
        let mut out: Vec<i32> = Vec::new();
        let mut i: usize = 0;
        while i < gains_cdb.len()
            invariant
                gains_cdb@.len() == BAND_COUNT,
                i <= BAND_COUNT,
                out@.len() == i,
                forall|j: int| 0 <= j < i ==> #[trigger] out@[j] == spec_clamp_gain(gains_cdb@[j] as int),
            decreases gains_cdb@.len() - i,
        {
            let g: i32 = gains_cdb[i];
            let clamped: i32 = if g < -GAIN_LIMIT_CDB {
                -GAIN_LIMIT_CDB
            } else if g > GAIN_LIMIT_CDB {
                GAIN_LIMIT_CDB
            } else {
                g
            };
            out.push(clamped);
            i = i + 1;
        }
        self.gains_cdb = out;
        self.version = self.version + 1;
    }

    /// A consistent copy of the gain vector together with the counter
    /// value it belongs to.
    pub fn snapshot_gains(&self) -> (r: (Vec<i32>, u64))
        ensures
            r.0@ == self.gains_cdb@,
            r.1 == self.version,
    {
        let mut copy: Vec<i32> = Vec::new();
        let mut i: usize = 0;
        while i < self.gains_cdb.len()
            invariant
                i <= self.gains_cdb@.len(),
                copy@ == self.gains_cdb@.subrange(0, i as int),
            decreases self.gains_cdb@.len() - i,
        {
            copy.push(self.gains_cdb[i]);
            i = i + 1;
        }
        proof {
            assert(copy@ =~= self.gains_cdb@);
        }
        (copy, self.version)
    }

    /// The change counter alone: the cheap "anything new?" check for the
    /// render path.
    pub fn version(&self) -> (v: u64)
        ensures
            v == self.version,
    {
        self.version
    }
}

} // verus!
