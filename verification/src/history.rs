//! Append-only, time-aligned observation series.
//!
//! The store keeps three series: benchmark (market) close prices, portfolio
//! asset values, and portfolio cash values. Market observations carry their
//! own timestamp label; portfolio observations do not, and are stamped with
//! the most recent market label at the moment they are recorded — if no
//! market observation has arrived yet, the portfolio observation is dropped.
//! Series are never reordered, mutated in place, or truncated: every
//! operation either appends or leaves the store unchanged, so each series'
//! length is non-decreasing over any sequence of calls.

use vstd::prelude::*;

verus! {

/// One timestamped observation; the value is an IEEE-754 binary64 pattern.
pub struct Observation {
    pub label: String,
    pub bits: u64,
}

impl Clone for Observation {
    fn clone(&self) -> (r: Self)
        ensures
            r == *self,
    {
        Observation { label: self.label.clone(), bits: self.bits }
    }
}

/// The model of a series: the sequence of (label, value-bits) pairs.
pub open spec fn series_model(s: Seq<Observation>) -> Seq<(Seq<char>, u64)> {
    s.map_values(|o: Observation| (o.label@, o.bits))
}

/// Some observation of the series carries the given timestamp label.
pub open spec fn market_has_label(m: Seq<(Seq<char>, u64)>, l: Seq<char>) -> bool {
    exists|j: int| 0 <= j < m.len() && #[trigger] m[j].0 == l
}

/// Appending observations to a series never loses a label it already has.
proof fn lemma_has_label_extend(m1: Seq<(Seq<char>, u64)>, m2: Seq<(Seq<char>, u64)>, l: Seq<char>)
    requires
        market_has_label(m1, l),
        m1.len() <= m2.len(),
        forall|j: int| 0 <= j < m1.len() ==> m2[j] == #[trigger] m1[j],
    ensures
        market_has_label(m2, l),
{
    let j = choose|j: int| 0 <= j < m1.len() && #[trigger] m1[j].0 == l;
    assert(m2[j].0 == l);
}

/// Copies a series; the copy has the same model as the source.
fn clone_series(v: &Vec<Observation>) -> (r: Vec<Observation>)
    ensures
        r@ == v@,
{
    let mut r: Vec<Observation> = Vec::new();
    let mut k: usize = 0;
    while k < v.len()
        invariant
            k <= v@.len(),
            r@ == v@.subrange(0, k as int),
        decreases v@.len() - k,
    {
        r.push(v[k].clone());
        proof {
            assert(r@ =~= v@.subrange(0, k + 1 as int));
        }
        k += 1;
    }
    proof {
        assert(r@ =~= v@);
    }
    r
}

/// The three shared series, behind one ownership boundary.
pub struct HistoryStore {
    pub market: Vec<Observation>,
    pub asset: Vec<Observation>,
    pub cash: Vec<Observation>,
}

impl HistoryStore {
    /// The benchmark close-price series.
    pub open spec fn market_model(&self) -> Seq<(Seq<char>, u64)> {
        series_model(self.market@)
    }

    /// The portfolio asset-value series.
    pub open spec fn asset_model(&self) -> Seq<(Seq<char>, u64)> {
        series_model(self.asset@)
    }

    /// The portfolio cash-value series.
    pub open spec fn cash_model(&self) -> Seq<(Seq<char>, u64)> {
        series_model(self.cash@)
    }

    /// Alignment invariant: asset and cash observations come in pairs that
    /// share one label, and every such label was borrowed from a market
    /// observation that had already arrived.
    pub closed spec fn wf(&self) -> bool {
        &&& self.asset@.len() == self.cash@.len()
        &&& forall|i: int|
            0 <= i < self.asset@.len() ==> self.cash_model()[i].0 == #[trigger] self.asset_model()[i].0
        &&& forall|i: int|
            0 <= i < self.asset@.len() ==> #[trigger] market_has_label(
                self.market_model(),
                self.asset_model()[i].0,
            )
    }

    /// An empty store.
    pub fn new() -> (r: Self)
        ensures
            r.wf(),
            r.market_model().len() == 0,
            r.asset_model().len() == 0,
            r.cash_model().len() == 0,
    {
        HistoryStore { market: Vec::new(), asset: Vec::new(), cash: Vec::new() }
    }

    /// Appends one market observation. Always succeeds; the other two
    /// series are untouched, so no series shrinks.
    pub fn record_market(&mut self, label: String, close_bits: u64)
        requires
            old(self).wf(),
        ensures
            final(self).wf(),
            final(self).market_model() == old(self).market_model().push((label@, close_bits)),
            final(self).asset_model() == old(self).asset_model(),
            final(self).cash_model() == old(self).cash_model(),
            old(self).market_model().len() < final(self).market_model().len(),
    {
        self.market.push(Observation { label, bits: close_bits });
        proof {
            assert(self.market_model() =~= old(self).market_model().push((label@, close_bits)));
            assert(self.asset_model() == old(self).asset_model());
            assert(self.cash_model() == old(self).cash_model());
            assert forall|i: int|
                0 <= i < self.asset@.len() implies self.cash_model()[i].0
                == #[trigger] self.asset_model()[i].0 by {
                assert(old(self).cash_model()[i].0 == old(self).asset_model()[i].0);
            }
            assert forall|i: int|
                0 <= i < self.asset@.len() implies #[trigger] market_has_label(
                self.market_model(),
                self.asset_model()[i].0,
            ) by {
                assert(market_has_label(old(self).market_model(), old(self).asset_model()[i].0));
                lemma_has_label_extend(
                    old(self).market_model(),
                    self.market_model(),
                    old(self).asset_model()[i].0,
                );
            }
            assert(self.wf());
        }
    }

    /// Appends one portfolio observation pair, stamped with the most recent
    /// market label. If no market observation has arrived yet the call is a
    /// no-op and nothing is appended; either way no series shrinks.
    pub fn record_portfolio(&mut self, asset_bits: u64, cash_bits: u64)
        requires
            old(self).wf(),
        ensures
            final(self).wf(),
            final(self).market_model() == old(self).market_model(),
            old(self).market@.len() == 0 ==> {
                &&& final(self).asset_model() == old(self).asset_model()
                &&& final(self).cash_model() == old(self).cash_model()
            },
            old(self).market@.len() > 0 ==> {
                &&& final(self).asset_model() == old(self).asset_model().push(
                    (old(self).market_model().last().0, asset_bits),
                )
                &&& final(self).cash_model() == old(self).cash_model().push(
                    (old(self).market_model().last().0, cash_bits),
                )
            },
            old(self).asset_model().len() <= final(self).asset_model().len(),
            old(self).cash_model().len() <= final(self).cash_model().len(),
    {
        if self.market.len() > 0 {
            let label = self.market[self.market.len() - 1].label.clone();
            let label_again = label.clone();
            self.asset.push(Observation { label, bits: asset_bits });
            self.cash.push(Observation { label: label_again, bits: cash_bits });
            proof {
                assert(self.asset_model() =~= old(self).asset_model().push(
                    (old(self).market_model().last().0, asset_bits),
                ));
                assert(self.cash_model() =~= old(self).cash_model().push(
                    (old(self).market_model().last().0, cash_bits),
                ));
                let n = self.asset@.len() - 1;
                assert(self.asset_model()[n].0 == self.market_model()[self.market@.len() - 1].0);
                assert(market_has_label(self.market_model(), self.asset_model()[n].0));
                assert forall|i: int|
                    0 <= i < self.asset@.len() implies #[trigger] market_has_label(
                    self.market_model(),
                    self.asset_model()[i].0,
                ) by {
                    if i < n {
                        assert(market_has_label(
                            old(self).market_model(),
                            old(self).asset_model()[i].0,
                        ));
                        assert(self.asset_model()[i] == old(self).asset_model()[i]);
                    }
                }
                assert(self.wf());
            }
        }
    }

    /// Independent copies of the three series, safe to read without holding
    /// the store while the analytics run.
    pub fn snapshot(&self) -> (r: (Vec<Observation>, Vec<Observation>, Vec<Observation>))
        ensures
            series_model(r.0@) == self.market_model(),
            series_model(r.1@) == self.asset_model(),
            series_model(r.2@) == self.cash_model(),
    {
        (clone_series(&self.market), clone_series(&self.asset), clone_series(&self.cash))
    }
}

} // verus!
