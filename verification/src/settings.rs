//! Persisted player settings and their defaults.
//!
//! The embedding application stores a small settings record (theme flag,
//! last-used folder, equalizer gains) and loads it at startup. How a
//! loaded — possibly missing or partial — record resolves to the
//! effective startup state is decided here: missing pieces default to the
//! light theme, no folder, and a flat equalizer.

use vstd::prelude::*;
use crate::equalizer::BAND_COUNT;

verus! {

/// A settings record as read back from storage.
pub struct Settings {
    /// Dark theme chosen.
    pub dark_mode: bool,
    /// Last folder the user picked, if any.
    pub last_folder: Option<String>,
    /// Equalizer gains in centi-decibels, if the record carried any.
    pub eq_gains_cdb: Option<Vec<i32>>,
}

/// The effective startup state: every field resolved.
pub struct ResolvedSettings {
    /// Dark theme chosen; light is the default.
    pub dark_mode: bool,
    /// Folder to rescan at startup, if one was persisted.
    pub last_folder: Option<String>,
    /// One equalizer gain per band, in centi-decibels.
    pub gains_cdb: Vec<i32>,
}

/// Every band sits at 0 dB.
pub open spec fn spec_flat_gains(g: Seq<i32>) -> bool {
    g.len() == BAND_COUNT && forall|i: int| 0 <= i < g.len() ==> #[trigger] g[i] == 0
}

/// The flat gain vector: one zero per band.
pub fn flat_gains() -> (g: Vec<i32>)
    ensures
        spec_flat_gains(g@),
{
    let mut g: Vec<i32> = Vec::new();
    let mut i: usize = 0;
    while i < BAND_COUNT
        invariant
            i <= BAND_COUNT,
            g@.len() == i,
            forall|j: int| 0 <= j < i ==> #[trigger] g@[j] == 0,
        decreases BAND_COUNT - i,
    {
        g.push(0);
        i = i + 1;
    }
    g
}

/// Resolves a loaded settings record to the effective startup state.
/// A missing record, or a missing field, falls back to its default:
/// light theme, no folder, flat equalizer. A gain vector of the wrong
/// band count is discarded as malformed.
pub fn effective_settings(loaded: Option<Settings>) -> (r: ResolvedSettings)
    ensures
        r.gains_cdb@.len() == BAND_COUNT,
        loaded is None ==> !r.dark_mode && r.last_folder is None && spec_flat_gains(r.gains_cdb@),
        loaded matches Some(s) ==> ({
            &&& r.dark_mode == s.dark_mode
            &&& r.last_folder == s.last_folder
            &&& (s.eq_gains_cdb matches Some(v) ==> (if v@.len() == BAND_COUNT {
                r.gains_cdb@ == v@
            } else {
                spec_flat_gains(r.gains_cdb@)
            }))
            &&& (s.eq_gains_cdb is None ==> spec_flat_gains(r.gains_cdb@))
        }),
{
    match loaded {
        None => ResolvedSettings {
            dark_mode: false,
            last_folder: None,
            gains_cdb: flat_gains(),
        },
        Some(s) => {
            let gains: Vec<i32> = match s.eq_gains_cdb {
                Some(v) => if v.len() == BAND_COUNT {
                    v
                } else {
                    flat_gains()
                },
                None => flat_gains(),
            };
            ResolvedSettings { dark_mode: s.dark_mode, last_folder: s.last_folder, gains_cdb: gains }
        },
    }
}

} // verus!
