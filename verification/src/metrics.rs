//! Structural analytics over an asset-value series.
//!
//! The statistics derived from a series split into two layers. The layer
//! here is exact: which inputs are admissible at all, what the running peak
//! of the series is at every index, where drawdown episodes begin and end
//! and how long the longest one is, and whether any period-to-period step
//! is a decline. All of it is decided by comparisons between positive
//! finite values, which on IEEE-754 binary64 bit patterns coincide with
//! unsigned comparisons of the patterns (see `fp`). The remaining layer —
//! the floating-point ratios built on top of these results — is carried
//! out by the host on the values this module has validated and shaped.

use crate::fp::is_valid_value_bits;
use crate::fp::all_values_valid;
use vstd::prelude::*;

verus! {

/// Why a metrics computation was refused.
#[derive(Clone, Copy, Debug, PartialEq, Eq, Structural)]
pub enum MetricsError {
    /// A required series has fewer than 2 observations.
    InsufficientData,
    /// The asset series holds a NaN, infinite, or non-positive value.
    InvalidSeriesValue,
}

/// Decides whether the two input series admit a metrics computation.
///
/// Sufficiency of the data is judged first, on the lengths alone; only
/// series that are long enough have their asset values inspected. A
/// refusal is a value, never a partial result.
pub fn validate_inputs(market_len: usize, asset: &Vec<u64>) -> (r: Result<(), MetricsError>)
    ensures
        r is Ok <==> {
            &&& market_len >= 2
            &&& asset@.len() >= 2
            &&& forall|i: int| 0 <= i < asset@.len() ==> is_valid_value_bits(asset@[i])
        },
        r == Err::<(), MetricsError>(MetricsError::InsufficientData) <==> (market_len < 2
            || asset@.len() < 2),
        r == Err::<(), MetricsError>(MetricsError::InvalidSeriesValue) <==> {
            &&& market_len >= 2
            &&& asset@.len() >= 2
            &&& exists|i: int| 0 <= i < asset@.len() && !is_valid_value_bits(asset@[i])
        },
{
    if market_len < 2 || asset.len() < 2 {
        Err(MetricsError::InsufficientData)
    } else if !all_values_valid(asset) {
        Err(MetricsError::InvalidSeriesValue)
    } else {
        Ok(())
    }
}

/// The running peak of the series at index `i`: the largest value among
/// the observations up to and including `i`.
pub open spec fn running_peak(s: Seq<u64>, i: int) -> u64
    decreases i,
{
    if i <= 0 {
        s[0]
    } else {
        let p = running_peak(s, i - 1);
        if s[i] > p {
            s[i]
        } else {
            p
        }
    }
}

/// No observation exceeds its running peak. Each per-index drawdown is
/// the ratio of the value to its peak, minus one; with the ratio at most
/// one, every drawdown — and so the maximum drawdown — is at most zero.
pub proof fn lemma_value_at_most_peak(s: Seq<u64>, i: int)
    requires
        0 <= i < s.len(),
    ensures
        s[i] <= running_peak(s, i),
{
}

/// Computes the running peak at every index of the series.
///
/// No value ever exceeds its running peak, so each per-index drawdown
/// ratio (value over peak) is at most one, and every drawdown — the ratio
/// minus one — is at most zero.
pub fn running_peaks(values: &Vec<u64>) -> (r: Vec<u64>)
    requires
        values@.len() >= 1,
    ensures
        r@.len() == values@.len(),
        forall|i: int| 0 <= i < r@.len() ==> r@[i] == running_peak(values@, i),
        forall|i: int| 0 <= i < r@.len() ==> values@[i] <= r@[i],
        forall|i: int| 1 <= i < r@.len() ==> r@[i - 1] <= #[trigger] r@[i],
{
    let mut r: Vec<u64> = Vec::new();
    let mut peak: u64 = values[0];
    let mut k: usize = 0;
    while k < values.len()
        invariant
            values@.len() >= 1,
            k <= values@.len(),
            r@.len() == k,
            k == 0 ==> peak == values@[0],
            k > 0 ==> peak == running_peak(values@, k - 1),
            forall|i: int| 0 <= i < k ==> r@[i] == running_peak(values@, i),
            forall|i: int| 0 <= i < k ==> values@[i] <= r@[i],
            forall|i: int| 1 <= i < k ==> r@[i - 1] <= #[trigger] r@[i],
        decreases values@.len() - k,
    {
        let v = values[k];
        if v > peak {
            peak = v;
        }
        r.push(peak);
        k += 1;
    }
    r
}

/// The bookkeeping of one pass over the series: the running peak, the
/// index where the open drawdown episode began (if one is open), and the
/// longest episode length seen so far.
pub struct DrawdownScan {
    pub peak: u64,
    pub start: Option<int>,
    pub longest: int,
}

/// One step of the drawdown scan at index `i` of a series of length `n`.
///
/// An open episode closes when the value recovers to the peak or the
/// series is at its last index; its length is the index distance from the
/// episode's start. A value above the peak raises the peak; a value below
/// the peak opens an episode if none is open.
pub open spec fn drawdown_step(st: DrawdownScan, v: u64, i: int, n: int) -> DrawdownScan {
    let closed = if st.start is Some && (v >= st.peak || i == n - 1) {
        DrawdownScan {
            peak: st.peak,
            start: None,
            longest: if i - st.start->0 > st.longest {
                i - st.start->0
            } else {
                st.longest
            },
        }
    } else {
        st
    };
    if v > closed.peak {
        DrawdownScan { peak: v, start: None, longest: closed.longest }
    } else if v < closed.peak && closed.start is None {
        DrawdownScan { peak: closed.peak, start: Some(i), longest: closed.longest }
    } else {
        closed
    }
}

/// The scan state after the first `k` observations of the series.
pub open spec fn drawdown_scan(s: Seq<u64>, k: int) -> DrawdownScan
    decreases k,
{
    if k <= 0 {
        DrawdownScan { peak: s[0], start: None, longest: 0 }
    } else {
        drawdown_step(drawdown_scan(s, k - 1), s[k - 1], k - 1, s.len() as int)
    }
}

/// The length, in index units, of the longest drawdown episode.
pub open spec fn longest_drawdown_spec(s: Seq<u64>) -> int {
    drawdown_scan(s, s.len() as int).longest
}

/// Bounds on the scan after any prefix: the recorded episode length never
/// reaches the number of observations seen, and an open episode began at
/// an index already seen.
proof fn lemma_scan_bounds(s: Seq<u64>, k: int)
    requires
        0 <= k <= s.len(),
    ensures
        0 <= drawdown_scan(s, k).longest <= k,
        drawdown_scan(s, k).start is Some ==> 0 <= drawdown_scan(s, k).start->0 < k,
    decreases k,
{
    if k > 0 {
        lemma_scan_bounds(s, k - 1);
    }
}

/// An episode cannot be longer than the series it lies in: the longest
/// drawdown period is between zero and the series length.
pub proof fn lemma_longest_drawdown_bounded(s: Seq<u64>)
    ensures
        0 <= longest_drawdown_spec(s) <= s.len(),
{
    lemma_scan_bounds(s, s.len() as int);
}

/// Scans the series once and returns the longest drawdown episode length.
pub fn longest_drawdown(values: &Vec<u64>) -> (r: usize)
    requires
        values@.len() >= 1,
    ensures
        r == longest_drawdown_spec(values@),
{
    let n = values.len();
    let mut peak: u64 = values[0];
    let mut start: Option<usize> = None;
    let mut longest: usize = 0;
    let mut k: usize = 0;
    while k < n
        invariant
            n == values@.len(),
            n >= 1,
            k <= n,
            peak == drawdown_scan(values@, k as int).peak,
            longest == drawdown_scan(values@, k as int).longest,
            match start {
                Some(s) => drawdown_scan(values@, k as int).start == Some(s as int) && s < k,
                None => drawdown_scan(values@, k as int).start is None,
            },
            longest <= n,
        decreases n - k,
    {
        let v = values[k];
        if let Some(s) = start {
            if v >= peak || k == n - 1 {
                let length = k - s;
                if length > longest {
                    longest = length;
                }
                start = None;
            }
        }
        if v > peak {
            peak = v;
            start = None;
        } else if v < peak {
            if start.is_none() {
                start = Some(k);
            }
        }
        proof {
            assert(drawdown_scan(values@, k + 1 as int) == drawdown_step(
                drawdown_scan(values@, k as int),
                values@[k as int],
                k as int,
                values@.len() as int,
            ));
        }
        k += 1;
    }
    longest
}

/// True when the series declines somewhere: some observation is strictly
/// below its predecessor. For a series of positive values this is exactly
/// the presence of a negative period return, the condition under which a
/// downside deviation — and with it a finite Sortino ratio — exists.
pub open spec fn has_decline(s: Seq<u64>) -> bool {
    exists|i: int| 0 <= i < s.len() - 1 && #[trigger] s[i + 1] < s[i]
}

/// After any prefix of a never-declining series, the scan has its peak at
/// the latest observation, no open episode, and no episode on record.
proof fn lemma_no_decline_scan(s: Seq<u64>, k: int)
    requires
        !has_decline(s),
        1 <= k <= s.len(),
    ensures
        drawdown_scan(s, k) == (DrawdownScan { peak: s[k - 1], start: None, longest: 0 }),
    decreases k,
{
    if k == 1 {
        assert(drawdown_scan(s, 0) == (DrawdownScan { peak: s[0], start: None, longest: 0 }));
        assert(drawdown_scan(s, 1) == drawdown_step(drawdown_scan(s, 0), s[0], 0, s.len() as int));
    } else {
        lemma_no_decline_scan(s, k - 1);
        let i = k - 2;
        assert(!(s[i + 1] < s[i]));
        assert(!(s[k - 1] < s[k - 2]));
        assert(drawdown_scan(s, k) == drawdown_step(
            drawdown_scan(s, k - 1),
            s[k - 1],
            k - 1,
            s.len() as int,
        ));
    }
}

/// A series that never declines has no drawdown episode at all: its
/// longest drawdown period is zero.
pub proof fn lemma_no_decline_no_drawdown(s: Seq<u64>)
    requires
        !has_decline(s),
        s.len() >= 1,
    ensures
        longest_drawdown_spec(s) == 0,
{
    lemma_no_decline_scan(s, s.len() as int);
}

/// Reports whether any period-to-period step of the series is a decline.
pub fn has_downside(values: &Vec<u64>) -> (r: bool)
    ensures
        r == has_decline(values@),
{
    if values.len() < 2 {
        return false;
    }
    let mut k: usize = 0;
    while k < values.len() - 1
        invariant
            values@.len() >= 2,
            k <= values@.len() - 1,
            forall|i: int| 0 <= i < k ==> !(#[trigger] values@[i + 1] < values@[i]),
        decreases values@.len() - k,
    {
        if values[k + 1] < values[k] {
            return true;
        }
        k += 1;
    }
    false
}

} // verus!
