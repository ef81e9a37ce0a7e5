//! Render planning: when to draw, and how the series line up.
//!
//! A render pass is worth making only when new observations have arrived
//! since the last one. The planner memoizes the pair of series lengths it
//! last drew and reports "no update" when they are unchanged — drawing is
//! then skipped entirely. The position-value series drawn as an area is
//! the asset value minus the cash value that carries the same timestamp
//! label; the lookup takes the first cash observation with a matching
//! label, and a missing match contributes zero. The arithmetic of the
//! standardized series and the axis bounds is the host's; the decisions
//! and the alignment are here.

use crate::history::Observation;
use crate::history::series_model;
use vstd::prelude::*;

verus! {

/// Memoized series lengths of the last completed render pass.
pub struct RenderPlanner {
    pub last_market_len: usize,
    pub last_asset_len: usize,
}

impl RenderPlanner {
    /// Whether a pass over series of these lengths would draw anything new.
    pub open spec fn renders(self, market_len: usize, asset_len: usize) -> bool {
        !(market_len == self.last_market_len && asset_len == self.last_asset_len)
    }

    /// The planner after deciding on these lengths: the memo moves to the
    /// new lengths exactly when a render is due.
    pub open spec fn after_decision(self, market_len: usize, asset_len: usize) -> RenderPlanner {
        if self.renders(market_len, asset_len) {
            RenderPlanner { last_market_len: market_len, last_asset_len: asset_len }
        } else {
            self
        }
    }

    /// A fresh planner that has rendered nothing yet.
    pub fn new() -> (r: Self)
        ensures
            r.last_market_len == 0,
            r.last_asset_len == 0,
    {
        RenderPlanner { last_market_len: 0, last_asset_len: 0 }
    }

    /// Decides whether to render series of the given lengths, updating the
    /// memo when the answer is yes.
    pub fn should_render(&mut self, market_len: usize, asset_len: usize) -> (r: bool)
        ensures
            r == old(self).renders(market_len, asset_len),
            *final(self) == old(self).after_decision(market_len, asset_len),
    {
        if market_len == self.last_market_len && asset_len == self.last_asset_len {
            false
        } else {
            self.last_market_len = market_len;
            self.last_asset_len = asset_len;
            true
        }
    }
}

/// Once a render pass has gone through for a pair of series lengths, a
/// second pass with the same lengths is always skipped: deciding on the
/// same lengths twice in a row reports "no update" the second time.
pub proof fn lemma_repeat_render_skipped(p: RenderPlanner, market_len: usize, asset_len: usize)
    ensures
        !p.after_decision(market_len, asset_len).renders(market_len, asset_len),
{
}

/// An axis label shortened for drawing: at most its first 10 characters
/// appear under the x axis.
pub fn truncate_label(label: &str) -> (r: String)
    ensures
        label@.len() <= 10 ==> r@ == label@,
        label@.len() > 10 ==> r@ == label@.subrange(0, 10),
{
    let n = label.unicode_len();
    if n <= 10 {
        label.to_owned()
    } else {
        label.substring_char(0, 10).to_owned()
    }
}

/// The cash value carried by the first observation with this label, or
/// zero when no observation matches, searching from index `j` on.
pub open spec fn cash_from(cash: Seq<(Seq<char>, u64)>, label: Seq<char>, j: int) -> u64
    decreases cash.len() - j,
{
    if j < 0 || j >= cash.len() {
        0
    } else if cash[j].0 == label {
        cash[j].1
    } else {
        cash_from(cash, label, j + 1)
    }
}

/// The cash value aligned to this label: the first match, or zero.
pub open spec fn cash_at_label(cash: Seq<(Seq<char>, u64)>, label: Seq<char>) -> u64 {
    cash_from(cash, label, 0)
}

/// Finds the cash value aligned to one label.
fn lookup_cash(cash: &Vec<Observation>, label: &String) -> (r: u64)
    ensures
        r == cash_at_label(series_model(cash@), label@),
{
    let mut j: usize = 0;
    while j < cash.len()
        invariant
            j <= cash@.len(),
            cash_at_label(series_model(cash@), label@) == cash_from(
                series_model(cash@),
                label@,
                j as int,
            ),
        decreases cash@.len() - j,
    {
        proof {
            assert(series_model(cash@)[j as int] == (cash@[j as int].label@, cash@[j as int].bits));
        }
        if cash[j].label == *label {
            proof {
                assert(series_model(cash@)[j as int].0 == label@);
                assert(cash_from(series_model(cash@), label@, j as int) == cash@[j as int].bits);
            }
            return cash[j].bits;
        }
        proof {
            assert(series_model(cash@)[j as int].0 != label@);
            assert(cash_from(series_model(cash@), label@, j as int) == cash_from(
                series_model(cash@),
                label@,
                j + 1 as int,
            ));
        }
        j += 1;
    }
    0
}

/// The cash series aligned to the asset series' labels, entry by entry.
///
/// The host subtracts each aligned cash value from its asset value to get
/// the position-value series of the plan.
pub fn aligned_cash(asset: &Vec<Observation>, cash: &Vec<Observation>) -> (r: Vec<u64>)
    ensures
        r@.len() == asset@.len(),
        forall|i: int|
            0 <= i < asset@.len() ==> r@[i] == cash_at_label(
                series_model(cash@),
                #[trigger] asset@[i].label@,
            ),
{
    let mut r: Vec<u64> = Vec::new();
    let mut k: usize = 0;
    while k < asset.len()
        invariant
            k <= asset@.len(),
            r@.len() == k,
            forall|i: int|
                0 <= i < k ==> r@[i] == cash_at_label(
                    series_model(cash@),
                    #[trigger] asset@[i].label@,
                ),
        decreases asset@.len() - k,
    {
        let v = lookup_cash(cash, &asset[k].label);
        r.push(v);
        k += 1;
    }
    r
}

} // verus!
