//! Acceleration dispatch counters, held by the caller and updated in place.

use vstd::prelude::*;

use crate::schedule::saturate;

verus! {

/// Acceleration dispatch counters.
#[derive(Clone, Copy, Debug, PartialEq, Eq, Structural)]
pub struct DispatchStats {
    /// Number of MSMs that reached an acceleration candidate path.
    pub msm_candidates: u64,
    /// Total bases/scalars in candidate MSMs.
    pub msm_candidate_points: u64,
    /// Number of candidate MSMs served by the facade without CPU fallback.
    pub msm_successes: u64,
    /// Number of candidate MSMs that fell back to CPU.
    pub msm_fallbacks: u64,
}

impl DispatchStats {
    /// All counters zero.
    pub open spec fn spec_zero() -> DispatchStats {
        DispatchStats { msm_candidates: 0, msm_candidate_points: 0, msm_successes: 0, msm_fallbacks: 0 }
    }

    /// One more candidate MSM of `points` points, counters saturating at `u64::MAX`.
    pub open spec fn with_candidate(self, points: usize) -> DispatchStats {
        DispatchStats {
            msm_candidates: saturate(self.msm_candidates + 1),
            msm_candidate_points: saturate(self.msm_candidate_points + points),
            ..self
        }
    }

    /// One more accelerated success, saturating at `u64::MAX`.
    pub open spec fn with_success(self) -> DispatchStats {
        DispatchStats { msm_successes: saturate(self.msm_successes + 1), ..self }
    }

    /// One more CPU fallback, saturating at `u64::MAX`.
    pub open spec fn with_fallback(self) -> DispatchStats {
        DispatchStats { msm_fallbacks: saturate(self.msm_fallbacks + 1), ..self }
    }
}

impl Default for DispatchStats {
    fn default() -> (stats: Self)
        ensures
            stats == DispatchStats::spec_zero(),
    {
        DispatchStats { msm_candidates: 0, msm_candidate_points: 0, msm_successes: 0, msm_fallbacks: 0 }
    }
}

/// Records that one MSM reached an acceleration candidate path.
pub fn record_msm_candidate(stats: &mut DispatchStats, points: usize)
    ensures
        *final(stats) == old(stats).with_candidate(points),
{
    stats.msm_candidates = stats.msm_candidates.saturating_add(1);
    stats.msm_candidate_points = stats.msm_candidate_points.saturating_add(points as u64);
}

/// Records that one candidate MSM returned an accelerated facade result.
pub fn record_msm_success(stats: &mut DispatchStats)
    ensures
        *final(stats) == old(stats).with_success(),
{
    stats.msm_successes = stats.msm_successes.saturating_add(1);
}

/// Records that one candidate MSM fell back to CPU.
pub fn record_msm_fallback(stats: &mut DispatchStats)
    ensures
        *final(stats) == old(stats).with_fallback(),
{
    stats.msm_fallbacks = stats.msm_fallbacks.saturating_add(1);
}

/// Resets the dispatch stats.
pub fn reset_dispatch_stats(stats: &mut DispatchStats)
    ensures
        *final(stats) == DispatchStats::spec_zero(),
{
    *stats = DispatchStats::default();
}

/// Returns and resets the dispatch stats.
pub fn take_dispatch_stats(stats: &mut DispatchStats) -> (taken: DispatchStats)
    ensures
        taken == *old(stats),
        *final(stats) == DispatchStats::spec_zero(),
{
    let taken = *stats;
    *stats = DispatchStats::default();
    taken
}

/// Counters only grow: recording a candidate, a success or a fallback never
/// lowers any counter.
pub proof fn law_recording_never_lowers_counters(stats: DispatchStats, points: usize)
    ensures
        stats.with_candidate(points).msm_candidates >= stats.msm_candidates,
        stats.with_candidate(points).msm_candidate_points >= stats.msm_candidate_points,
        stats.with_success().msm_successes >= stats.msm_successes,
        stats.with_fallback().msm_fallbacks >= stats.msm_fallbacks,
{
}

/// Below saturation, each record call adds exactly one to its own counter
/// (and the candidate's points to the point total) and leaves the others alone.
pub proof fn law_recording_counts_exactly(stats: DispatchStats, points: usize)
    requires
        stats.msm_candidates < u64::MAX,
        stats.msm_candidate_points + points <= u64::MAX,
        stats.msm_successes < u64::MAX,
        stats.msm_fallbacks < u64::MAX,
    ensures
        stats.with_candidate(points) == (DispatchStats {
            msm_candidates: (stats.msm_candidates + 1) as u64,
            msm_candidate_points: (stats.msm_candidate_points + points) as u64,
            ..stats
        }),
        stats.with_success() == (DispatchStats {
            msm_successes: (stats.msm_successes + 1) as u64,
            ..stats
        }),
        stats.with_fallback() == (DispatchStats {
            msm_fallbacks: (stats.msm_fallbacks + 1) as u64,
            ..stats
        }),
{
}

/// Each record call adds one to its own counter (and a candidate's points to
/// the point total), stopping at `u64::MAX` instead of wrapping, and leaves
/// the other counters alone.
pub proof fn law_recording_adds_and_stops_at_the_maximum(stats: DispatchStats, points: usize)
    ensures
        stats.with_candidate(points) == (DispatchStats {
            msm_candidates: if stats.msm_candidates == u64::MAX {
                u64::MAX
            } else {
                (stats.msm_candidates + 1) as u64
            },
            msm_candidate_points: if stats.msm_candidate_points + points > u64::MAX {
                u64::MAX
            } else {
                (stats.msm_candidate_points + points) as u64
            },
            ..stats
        }),
        stats.with_success() == (DispatchStats {
            msm_successes: if stats.msm_successes == u64::MAX {
                u64::MAX
            } else {
                (stats.msm_successes + 1) as u64
            },
            ..stats
        }),
        stats.with_fallback() == (DispatchStats {
            msm_fallbacks: if stats.msm_fallbacks == u64::MAX {
                u64::MAX
            } else {
                (stats.msm_fallbacks + 1) as u64
            },
            ..stats
        }),
        DispatchStats::spec_zero() == (DispatchStats {
            msm_candidates: 0,
            msm_candidate_points: 0,
            msm_successes: 0,
            msm_fallbacks: 0,
        }),
{
}

} // verus!
