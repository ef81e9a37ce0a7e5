//! The ingestion state machine.
//!
//! A single consumer drains the transport: each event either updates the
//! history store or begins the terminal sequence. The blocking receive,
//! the logging, and the drawing live in the host's loop; what is decided
//! on each event — which series grows, with which values, and when the
//! machine leaves `Running` — is the step function here. On the shutdown
//! signal the machine moves to `ShuttingDown` and directs the host to run
//! one final metrics-and-render pass over a snapshot; once that pass has
//! been attempted (successfully or not), the machine stops for good.

use crate::events::AnalyzerEvent;
use crate::history::HistoryStore;
use crate::render::RenderPlanner;
use vstd::prelude::*;

verus! {

/// Where the ingestion loop stands.
#[derive(Debug, Clone, Copy, PartialEq, Eq, Structural)]
pub enum EngineState {
    /// Consuming events.
    Running,
    /// Shutdown received; the final render pass is owed.
    ShuttingDown,
    /// The final pass was attempted; the loop is over.
    Stopped,
}

/// What one step asks of the host.
#[derive(Debug, Clone, Copy, PartialEq, Eq, Structural)]
pub enum StepAction {
    /// A market observation was appended.
    MarketRecorded,
    /// A portfolio observation pair was appended.
    PortfolioRecorded,
    /// A portfolio observation arrived before any market observation and
    /// was dropped.
    PortfolioDropped,
    /// Take a snapshot, run the metrics and the render once, then report
    /// back with `mark_stopped`.
    RenderAndStop,
    /// An unconsumed event kind; log it and carry on.
    Ignored,
}

/// The analyzer: the history store, the render memo, and the loop state.
pub struct DataAnalyzer {
    pub store: HistoryStore,
    pub planner: RenderPlanner,
    pub state: EngineState,
}

impl DataAnalyzer {
    /// The store's alignment invariant, carried through every step.
    pub open spec fn wf(&self) -> bool {
        self.store.wf()
    }

    /// A fresh analyzer: empty histories, nothing rendered, running.
    pub fn new() -> (r: Self)
        ensures
            r.wf(),
            r.state == EngineState::Running,
            r.store.market_model().len() == 0,
            r.store.asset_model().len() == 0,
            r.store.cash_model().len() == 0,
            r.planner.last_market_len == 0,
            r.planner.last_asset_len == 0,
    {
        DataAnalyzer {
            store: HistoryStore::new(),
            planner: RenderPlanner::new(),
            state: EngineState::Running,
        }
    }

    /// Consumes one event while running.
    ///
    /// Market data always appends; portfolio data appends when a market
    /// timestamp exists to borrow and is dropped otherwise; the shutdown
    /// signal moves the machine to `ShuttingDown` and asks the host for
    /// the final pass; any other kind changes nothing. The render memo is
    /// never touched here.
    pub fn step(&mut self, event: AnalyzerEvent) -> (action: StepAction)
        requires
            old(self).wf(),
            old(self).state == EngineState::Running,
        ensures
            final(self).wf(),
            final(self).planner == old(self).planner,
            match event {
                AnalyzerEvent::MarketData { timestamp, close_bits } => {
                    &&& action == StepAction::MarketRecorded
                    &&& final(self).state == EngineState::Running
                    &&& final(self).store.market_model() == old(self).store.market_model().push(
                        (timestamp@, close_bits),
                    )
                    &&& final(self).store.asset_model() == old(self).store.asset_model()
                    &&& final(self).store.cash_model() == old(self).store.cash_model()
                },
                AnalyzerEvent::PortfolioInfo { asset_bits, cash_bits } => {
                    &&& final(self).state == EngineState::Running
                    &&& final(self).store.market_model() == old(self).store.market_model()
                    &&& old(self).store.market_model().len() == 0 ==> {
                        &&& action == StepAction::PortfolioDropped
                        &&& final(self).store.asset_model() == old(self).store.asset_model()
                        &&& final(self).store.cash_model() == old(self).store.cash_model()
                    }
                    &&& old(self).store.market_model().len() > 0 ==> {
                        &&& action == StepAction::PortfolioRecorded
                        &&& final(self).store.asset_model() == old(self).store.asset_model().push(
                            (old(self).store.market_model().last().0, asset_bits),
                        )
                        &&& final(self).store.cash_model() == old(self).store.cash_model().push(
                            (old(self).store.market_model().last().0, cash_bits),
                        )
                    }
                },
                AnalyzerEvent::ShutDown(_) => {
                    &&& action == StepAction::RenderAndStop
                    &&& final(self).state == EngineState::ShuttingDown
                    &&& final(self).store == old(self).store
                },
                AnalyzerEvent::Other => {
                    &&& action == StepAction::Ignored
                    &&& final(self).state == EngineState::Running
                    &&& final(self).store == old(self).store
                },
            },
    {
        match event {
            AnalyzerEvent::MarketData { timestamp, close_bits } => {
                self.store.record_market(timestamp, close_bits);
                StepAction::MarketRecorded
            },
            AnalyzerEvent::PortfolioInfo { asset_bits, cash_bits } => {
                let dropped = self.store.market.len() == 0;
                self.store.record_portfolio(asset_bits, cash_bits);
                if dropped {
                    StepAction::PortfolioDropped
                } else {
                    StepAction::PortfolioRecorded
                }
            },
            AnalyzerEvent::ShutDown(_) => {
                self.state = EngineState::ShuttingDown;
                StepAction::RenderAndStop
            },
            AnalyzerEvent::Other => StepAction::Ignored,
        }
    }

    /// Reports that the final metrics-and-render pass was attempted; the
    /// machine stops, whatever the pass's outcome was.
    pub fn mark_stopped(&mut self)
        requires
            old(self).wf(),
            old(self).state == EngineState::ShuttingDown,
        ensures
            final(self).wf(),
            final(self).state == EngineState::Stopped,
            final(self).store == old(self).store,
            final(self).planner == old(self).planner,
    {
        self.state = EngineState::Stopped;
    }
}

} // verus!
