use prism::batch::{Batch, BATCH_SIZE};
use prism::book::{near_ask_diffs, near_bid_diffs, OrderbookData};
use prism::data::depth::{DepthSnapshot, OrderbookUpdateStream};
use prism::data::liquidation::{LiquidationData, LiquidationSide};
use prism::data::market::MarketData;
use prism::data::markprice::MarkPriceData;
use prism::ladder::{Ladder, Level};
use prism::market_state::{Core, MarketState};
use prism::orderbook::{apply_side, apply_side_with_diff, ApplyResult, LevelDiff, Orderbook};
use prism::trade::PrismConfig;

fn update(bids: &[(u64, u64)], asks: &[(u64, u64)], time: u64) -> OrderbookUpdateStream {
    OrderbookUpdateStream {
        bids: bids.iter().map(|&(price, size)| Level { price, size }).collect(),
        asks: asks.iter().map(|&(price, size)| Level { price, size }).collect(),
        trade_time: time,
        event_time: time,
        last_update_exchange: "Upbit".to_string(),
        first_update_id: 0,
        final_update_id: 0,
        previous_final_update_id: None,
    }
}

#[test]
fn updates_report_the_change_they_made() {
    let mut side = Ladder::new();
    apply_side(&mut side, &vec![Level { price: 10, size: 4 }, Level { price: 11, size: 6 }]);
    let diffs = apply_side_with_diff(
        &mut side,
        &vec![
            Level { price: 10, size: 7 },
            Level { price: 11, size: 0 },
            Level { price: 12, size: 5 },
            Level { price: 10, size: 1 },
            Level { price: 13, size: 0 },
        ],
    );
    assert_eq!(
        diffs,
        vec![
            LevelDiff { price: 10, diff: 3 },
            LevelDiff { price: 11, diff: -6 },
            LevelDiff { price: 12, diff: 5 },
            LevelDiff { price: 10, diff: -6 },
            LevelDiff { price: 13, diff: 0 },
        ]
    );
    assert_eq!(side.get(10), Some(1));
    assert_eq!(side.get(11), None);
    assert_eq!(side.len(), 2);
    let mut book = Orderbook::new();
    let (bids, asks) = book.update(&update(&[(10, 4)], &[(12, 1), (12, 3)], 5));
    assert_eq!(bids, vec![LevelDiff { price: 10, diff: 4 }]);
    assert_eq!(asks, vec![LevelDiff { price: 12, diff: 1 }, LevelDiff { price: 12, diff: 2 }]);
    assert_eq!(book.last_source.as_deref(), Some("Upbit"));
    let (bids, asks) = book.update(&update(&[(10, 9)], &[], 0));
    assert!(bids.is_empty() && asks.is_empty());
    assert_eq!(book.bids.get(10), Some(4));
}

#[test]
fn changes_near_the_price() {
    let mut book = Orderbook::new();
    book.reset_from(&DepthSnapshot { last_update_id: 0, bids: vec![], asks: vec![] });
    let mut data = OrderbookData::from_book(&book, None, None);
    assert!(data.bids_diff.is_empty() && data.asks_diff.is_empty());
    data.bids_diff = vec![
        LevelDiff { price: 1_000, diff: -5 },
        LevelDiff { price: 999, diff: 3 },
        LevelDiff { price: 990, diff: 8 },
        LevelDiff { price: 995, diff: -1 },
    ];
    data.asks_diff = vec![
        LevelDiff { price: 1_001, diff: 2 },
        LevelDiff { price: 1_010, diff: 4 },
        LevelDiff { price: 1_000, diff: 6 },
    ];
    // within 1 % of 1000: above 990 and below 1010, the price itself left out
    let (bids, asks) = data.near_price_bid_ask_diff_activity(1_000, 1_000_000);
    assert_eq!(bids, vec![LevelDiff { price: 999, diff: 3 }, LevelDiff { price: 995, diff: -1 }]);
    assert_eq!(asks, vec![LevelDiff { price: 1_001, diff: 2 }]);
    assert_eq!(near_bid_diffs(&data.bids_diff, 1_000, 2_000_000).len(), 3);
    assert_eq!(near_ask_diffs(&data.asks_diff, 1_000, 2_000_000).len(), 2);
}

#[test]
fn market_state_takes_each_event() {
    let mut core = Core::new();
    assert_eq!(core.market_state, MarketState::new());
    assert_eq!(core.market_state.price, 0);
    assert_eq!(core.market_state.mark_price, None);
    core.handle_trade(&MarketData { price: 100, quantity: 7, buyer_market_maker: true, trade_time: 10, event_time: 11 });
    assert_eq!((core.market_state.price, core.market_state.transaction_time, core.market_state.event_time), (100, 10, 11));
    assert_eq!((core.market_state.sell_quantity, core.market_state.buy_quantity), (7, 0));
    core.handle_trade(&MarketData { price: 101, quantity: 3, buyer_market_maker: false, trade_time: 12, event_time: 13 });
    assert_eq!((core.market_state.sell_quantity, core.market_state.buy_quantity), (0, 3));
    core.handle_mark_price(&MarkPriceData { mark_price: 102, index_price: 103, funding_rate: -4, next_funding_time: 99, event_time: 20 });
    assert_eq!(core.market_state.mark_price, Some(102));
    assert_eq!(core.market_state.index_price, Some(103));
    assert_eq!(core.market_state.funding_rate, Some(-4));
    assert_eq!(core.market_state.next_funding_time, Some(99));
    assert_eq!(core.market_state.event_time, 20);
    assert_eq!(core.market_state.price, 101);
    core.handle_liquidation(&LiquidationData { side: LiquidationSide::Buy, avg_price: 50, quantity: 2, trade_time: 1, event_time: 2 });
    assert_eq!((core.market_state.liq_quantity, core.market_state.liq_price), (2, 50));
    assert_eq!(core.market_state.liq_side, Some(LiquidationSide::Buy));
    assert_eq!(core.market_state.event_time, 20);
    let mut first = update(&[(10, 4)], &[(12, 1)], 30);
    first.first_update_id = 1;
    first.final_update_id = 3;
    assert_eq!(core.handle_orderbook(&first), ApplyResult::Applied);
    assert_eq!(core.total_orderbook.best_bid(), Some((10, 4)));
    assert_eq!(core.total_orderbook.best_ask(), Some((12, 1)));
    assert_eq!(core.total_orderbook.last_update_id, 3);
    // the book is sequenced: a repeat is stale, a jump is a gap
    assert_eq!(core.handle_orderbook(&first), ApplyResult::DroppedStale);
    assert_eq!(core.total_orderbook.best_bid(), Some((10, 4)));
    let mut jump = update(&[(10, 9)], &[], 31);
    jump.first_update_id = 7;
    jump.final_update_id = 8;
    assert_eq!(core.handle_orderbook(&jump), ApplyResult::Reinitialize);
    assert_eq!(core.total_orderbook.best_bid(), None);
    core.handle_snapshot(&DepthSnapshot { last_update_id: 20, bids: vec![Level { price: 5, size: 1 }], asks: vec![] });
    assert!(core.fresh_snapshot);
    let mut bridge = update(&[(6, 2)], &[], 32);
    bridge.first_update_id = 18;
    bridge.final_update_id = 22;
    bridge.previous_final_update_id = Some(17);
    assert_eq!(core.handle_orderbook(&bridge), ApplyResult::Applied);
    assert!(!core.fresh_snapshot);
    assert_eq!(core.total_orderbook.best_bid(), Some((6, 2)));
}

#[test]
fn trading_limits_and_fees() {
    let mut config = PrismConfig::default();
    assert_eq!((config.leverage, config.max_leverage), (1, 30));
    assert_eq!(config.loss_cut, Some(5_000_000));
    assert_eq!(config.take_profit, Some(10_000_000));
    assert_eq!(config.trade_fees, 40_000);
    assert!(!config.data_dump);
    config.enable_data_dump();
    assert!(config.data_dump);
}

#[test]
fn records_leave_a_full_batch_at_a_time() {
    assert_eq!(BATCH_SIZE, 100);
    let mut batch: Batch<u32> = Batch::new();
    for i in 0..99 {
        assert_eq!(batch.push(i), None);
    }
    assert_eq!(batch.buffer.len(), 99);
    let full = batch.push(99).expect("the hundredth record fills the batch");
    assert_eq!(full, (0..100).collect::<Vec<u32>>());
    assert!(batch.buffer.is_empty());
    assert_eq!(batch.push(100), None);
    assert_eq!(batch.buffer, vec![100]);
}
