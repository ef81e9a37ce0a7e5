//! The event vocabulary the analyzer consumes.
//!
//! The transport delivers an open-ended stream of event kinds; the
//! analyzer consumes exactly three of them — market data, portfolio state,
//! shutdown — and ignores the rest. Here that interface is a closed tagged
//! union carrying only the fields the analyzer reads: the market close
//! price (as a binary64 bit pattern) with its timestamp label, and the
//! portfolio's asset and cash values. The host converts the transport's
//! richer event types into this union at the boundary.

use vstd::prelude::*;

verus! {

/// The shutdown signal. Two signals are the same event exactly when they
/// carry the same identifier.
#[derive(Debug, Clone, Copy, Hash)]
pub struct ShutDownEvent {
    pub id: u64,
}

impl PartialEq for ShutDownEvent {
    fn eq(&self, other: &Self) -> (r: bool) {
        self.id == other.id
    }
}

impl vstd::std_specs::cmp::PartialEqSpecImpl for ShutDownEvent {
    open spec fn obeys_eq_spec() -> bool {
        true
    }

    open spec fn eq_spec(&self, other: &ShutDownEvent) -> bool {
        self.id == other.id
    }
}

impl Eq for ShutDownEvent {}

/// Which side of the book an order stands on.
#[derive(Debug, Clone, Copy)]
pub enum OrderDirection {
    Buy,
    Sell,
}

/// One inbound event, reduced to what the analyzer reads of it.
pub enum AnalyzerEvent {
    /// A market observation: timestamp label and close price.
    MarketData { timestamp: String, close_bits: u64 },
    /// A portfolio observation: total asset value and cash value.
    PortfolioInfo { asset_bits: u64, cash_bits: u64 },
    /// The shutdown signal.
    ShutDown(ShutDownEvent),
    /// Any event kind the analyzer does not consume.
    Other,
}

} // verus!
