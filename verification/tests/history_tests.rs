use data_analyzer::engine::DataAnalyzer;
use data_analyzer::engine::EngineState;
use data_analyzer::engine::StepAction;
use data_analyzer::events::AnalyzerEvent;
use data_analyzer::events::ShutDownEvent;
use data_analyzer::history::HistoryStore;
use data_analyzer::render::aligned_cash;
use data_analyzer::render::truncate_label;
use data_analyzer::render::RenderPlanner;

#[test]
fn portfolio_before_any_market_data_is_dropped() {
    let mut store = HistoryStore::new();
    store.record_portfolio(1000.0f64.to_bits(), 400.0f64.to_bits());
    assert_eq!(store.market.len(), 0);
    assert_eq!(store.asset.len(), 0);
    assert_eq!(store.cash.len(), 0);
}

#[test]
fn portfolio_borrows_the_latest_market_label() {
    let mut store = HistoryStore::new();
    store.record_market("2024-01-02".to_string(), 470.0f64.to_bits());
    store.record_market("2024-01-03".to_string(), 472.5f64.to_bits());
    store.record_portfolio(1000.0f64.to_bits(), 400.0f64.to_bits());
    assert_eq!(store.asset.len(), 1);
    assert_eq!(store.cash.len(), 1);
    assert_eq!(store.asset[0].label, "2024-01-03");
    assert_eq!(store.cash[0].label, "2024-01-03");
    assert_eq!(store.asset[0].bits, 1000.0f64.to_bits());
    assert_eq!(store.cash[0].bits, 400.0f64.to_bits());
}

#[test]
fn series_lengths_never_decrease() {
    let mut store = HistoryStore::new();
    let mut max_market = 0;
    let mut max_asset = 0;
    let calls: [(bool, f64); 7] =
        [(false, 1.0), (true, 470.0), (false, 900.0), (true, 471.0), (false, 910.0), (false, 920.0), (true, 469.0)];
    for (step, (is_market, value)) in calls.iter().enumerate() {
        if *is_market {
            store.record_market(format!("t{}", step), value.to_bits());
        } else {
            store.record_portfolio(value.to_bits(), (value / 2.0).to_bits());
        }
        assert!(store.market.len() >= max_market);
        assert!(store.asset.len() >= max_asset);
        assert_eq!(store.asset.len(), store.cash.len());
        max_market = store.market.len();
        max_asset = store.asset.len();
    }
    assert_eq!(store.market.len(), 3);
    assert_eq!(store.asset.len(), 3);
}

#[test]
fn snapshot_copies_all_three_series() {
    let mut store = HistoryStore::new();
    store.record_market("d1".to_string(), 100.0f64.to_bits());
    store.record_market("d2".to_string(), 110.0f64.to_bits());
    store.record_portfolio(1000.0f64.to_bits(), 250.0f64.to_bits());
    let (market, asset, cash) = store.snapshot();
    assert_eq!(market.len(), 2);
    assert_eq!(market[0].label, "d1");
    assert_eq!(market[1].bits, 110.0f64.to_bits());
    assert_eq!(asset.len(), 1);
    assert_eq!(asset[0].label, "d2");
    assert_eq!(cash[0].bits, 250.0f64.to_bits());
}

#[test]
fn render_is_skipped_for_unchanged_lengths() {
    let mut planner = RenderPlanner::new();
    assert!(planner.should_render(5, 3));
    assert!(!planner.should_render(5, 3));
    assert!(planner.should_render(6, 3));
    assert!(planner.should_render(6, 4));
    assert!(!planner.should_render(6, 4));
}

#[test]
fn fresh_planner_skips_empty_series() {
    let mut planner = RenderPlanner::new();
    assert!(!planner.should_render(0, 0));
}

#[test]
fn aligned_cash_takes_the_first_match_or_zero() {
    let mut store = HistoryStore::new();
    store.record_market("d1".to_string(), 100.0f64.to_bits());
    store.record_portfolio(1000.0f64.to_bits(), 300.0f64.to_bits());
    store.record_portfolio(1100.0f64.to_bits(), 350.0f64.to_bits());
    store.record_market("d2".to_string(), 105.0f64.to_bits());
    store.record_portfolio(1200.0f64.to_bits(), 375.0f64.to_bits());
    let (_, asset, cash) = store.snapshot();
    let aligned = aligned_cash(&asset, &cash);
    // Both "d1" entries align to the first "d1" cash value.
    assert_eq!(
        aligned,
        vec![300.0f64.to_bits(), 300.0f64.to_bits(), 375.0f64.to_bits()]
    );

    let empty_cash = Vec::new();
    let aligned = aligned_cash(&asset, &empty_cash);
    assert_eq!(aligned, vec![0u64, 0u64, 0u64]);
}

#[test]
fn engine_records_and_shuts_down() {
    let mut analyzer = DataAnalyzer::new();
    assert_eq!(analyzer.state, EngineState::Running);

    let a = analyzer.step(AnalyzerEvent::PortfolioInfo {
        asset_bits: 1000.0f64.to_bits(),
        cash_bits: 500.0f64.to_bits(),
    });
    assert_eq!(a, StepAction::PortfolioDropped);
    assert_eq!(analyzer.store.asset.len(), 0);

    let a = analyzer.step(AnalyzerEvent::MarketData {
        timestamp: "2024-01-02".to_string(),
        close_bits: 470.0f64.to_bits(),
    });
    assert_eq!(a, StepAction::MarketRecorded);
    assert_eq!(analyzer.store.market.len(), 1);

    let a = analyzer.step(AnalyzerEvent::PortfolioInfo {
        asset_bits: 1000.0f64.to_bits(),
        cash_bits: 500.0f64.to_bits(),
    });
    assert_eq!(a, StepAction::PortfolioRecorded);
    assert_eq!(analyzer.store.asset.len(), 1);
    assert_eq!(analyzer.store.asset[0].label, "2024-01-02");

    let a = analyzer.step(AnalyzerEvent::Other);
    assert_eq!(a, StepAction::Ignored);
    assert_eq!(analyzer.state, EngineState::Running);

    let a = analyzer.step(AnalyzerEvent::ShutDown(ShutDownEvent { id: 1 }));
    assert_eq!(a, StepAction::RenderAndStop);
    assert_eq!(analyzer.state, EngineState::ShuttingDown);
    assert_eq!(analyzer.store.market.len(), 1);

    analyzer.mark_stopped();
    assert_eq!(analyzer.state, EngineState::Stopped);
}

#[test]
fn axis_labels_keep_at_most_ten_characters() {
    assert_eq!(truncate_label("2024-01-02"), "2024-01-02");
    assert_eq!(truncate_label("2024-01-02T09:30:00"), "2024-01-02");
    assert_eq!(truncate_label("d1"), "d1");
    assert_eq!(truncate_label(""), "");
}

#[test]
fn shutdown_events_compare_by_identifier() {
    assert_eq!(ShutDownEvent { id: 1 }, ShutDownEvent { id: 1 });
    assert_ne!(ShutDownEvent { id: 1 }, ShutDownEvent { id: 2 });
}
