use prism::bar::Bar;
use prism::bar_manager::{record_bar, BarManager};
use prism::config::{
    capacity_from, capacity_from_number, dump_from, setting_or, symbol_enabled, PrismEnvConfig, RawEnvConfig,
    DEFAULT_CHANNEL_CAPACITY,
};
use prism::data::depth::{DepthSnapshot, OrderbookUpdateStream};
use prism::data::liquidation::{
    generate_liquidation_update, parse_side, BinanceWebsocketFutureLiquidation,
    FutureLiquidationEvent, FutureLiquidationOrder, LiquidationData, LiquidationSide,
};
use prism::data::market::{
    generate_future_aggtrade_update, generate_spot_aggtrade_update, parse_trade,
    BinanceWebsocketFutureAggTrade, FutureAggTradeEvent, MarketData, SpotAggTradeEvent,
};
use prism::data::markprice::{
    generate_markprice_update, BinanceWebsocketFutureMarkPrice, FutureMarkPriceEvent,
    MarkPriceData,
};
use prism::ladder::Level;
use prism::orderbook::ApplyResult;
use prism::source::{AssetSource, EventType, PrismaSource};
use prism::stream::{FeatureInProgress, FeatureProcessed, StreamBase};
use prism::trade::{
    survey, IntraParams, LongShort, MarketFigures, SnipeLargeOrderStrategy, TradeComputer,
    TradeConfig,
};
use std::collections::VecDeque;

const ONE: u64 = 100_000_000;
const ONE_I: i128 = 100_000_000;

fn trade(price: u64, quantity: u64, maker: bool, time: u64) -> MarketData {
    MarketData { price, quantity, buyer_market_maker: maker, trade_time: time, event_time: time + 2 }
}

fn depth(first: u64, last: u64, bids: &[(u64, u64)], asks: &[(u64, u64)]) -> OrderbookUpdateStream {
    OrderbookUpdateStream {
        bids: bids.iter().map(|&(price, size)| Level { price, size }).collect(),
        asks: asks.iter().map(|&(price, size)| Level { price, size }).collect(),
        trade_time: 1_000 + last,
        event_time: 1_001 + last,
        last_update_exchange: "Binance".to_string(),
        first_update_id: first,
        final_update_id: last,
        previous_final_update_id: None,
    }
}

#[test]
fn source_tags() {
    assert_eq!(PrismaSource::Future.as_str(), "f");
    assert_eq!(PrismaSource::Spot.as_str(), "s");
    assert_eq!(AssetSource::Future.as_str(), "f");
    assert_eq!(AssetSource::Spot.as_str(), "s");
    assert_eq!(EventType::Trade.as_str(), "AggTrade");
    assert_eq!(EventType::Depth.as_str(), "Orderbook");
    assert_eq!(EventType::MarkPrice.as_str(), "Mark Price");
    assert_eq!(EventType::Liquidation.as_str(), "Liquidation");
}

#[test]
fn a_new_merger_is_blank() {
    let merger = StreamBase::new(AssetSource::Spot);
    let r = merger.processed;
    assert_eq!(r.source, Some(AssetSource::Spot));
    assert_eq!(r.event_type, None);
    assert_eq!((r.trade_time, r.event_time, r.processed_time, r.price), (0, 0, 0, 0));
    assert_eq!((r.obi, r.obi_range, r.ob_spread, r.ofi), (0, (0, 0), 0, 0));
    assert!(!r.tick_imbalance_bar_init && !r.volume_imbalance_bar_init && !r.dollar_imbalance_bar_init);
    assert_eq!(merger.orderbook.bids.len(), 0);
    let blank = FeatureProcessed::new();
    assert_eq!(blank.source, None);
    assert_eq!(Bar { id: 0, ..blank.tick_imbalance_bar }, Bar::with_id(0));
    let bars = FeatureInProgress::new();
    assert!(!bars.tick_imbalance_bar_init);
    assert_eq!(bars.tick_imbalance_bar.historical_threshold.len(), 0);
    assert_eq!((bars.trade_time, bars.event_time, bars.processing_time), (0, 0, 0));
}

#[test]
fn a_trade_is_published_and_its_sizes_start_again() {
    let mut merger = StreamBase::new(AssetSource::Future);
    let first = trade(100 * ONE, 3 * ONE, true, 1_000);
    let r = merger.handle_trade(&first, 1_010);
    assert_eq!(r.event_type, Some(EventType::Trade));
    assert_eq!(r.price, 100 * ONE);
    assert_eq!((r.trade_time, r.event_time, r.processed_time), (1_000, 1_002, 1_010));
    assert!(r.trade_time <= r.event_time && r.event_time <= r.processed_time);
    assert_eq!((r.maker_quantity, r.taker_quantity), (3 * ONE as u128, 0));
    assert_eq!((merger.processed.maker_quantity, merger.processed.taker_quantity), (0, 0));
    assert_eq!(r.tick_imbalance, 0);
    assert_eq!(r.tick_imbalance_vwap, 100 * ONE as u128);
    let second = trade(101 * ONE, 2 * ONE, false, 1_005);
    let r2 = merger.handle_trade(&second, 1_011);
    assert_eq!((r2.maker_quantity, r2.taker_quantity), (0, 2 * ONE as u128));
    assert_eq!(r2.tick_imbalance, ONE_I);
    assert_eq!(r2.volume_imbalance, 2 * ONE_I);
    assert_eq!(r2.volume_imbalance_cvd, 2 * ONE_I);
    assert_eq!(r2.dollar_imbalance, 202 * ONE_I);
    assert_eq!(r2.dollar_imbalance_cvd, 202 * ONE_I);
    assert_eq!(r2.volume_imbalance_vwap, (100 * 3 + 101 * 2) as u128 * ONE as u128 / 5);
    assert!(r.processed_time <= r2.processed_time);
    let late = merger.handle_trade(&trade(1, 1, true, 999), 1_012);
    assert_eq!(late.trade_time, 999);
    assert_eq!(merger.in_progress.tick_imbalance_bar.bar.candle.te, Some(1_005));
}

#[test]
fn closed_bars_reach_the_record() {
    let mut merger = StreamBase::new(AssetSource::Future);
    merger.in_progress.tick_imbalance_bar.bar.genesis_collect_period = 10;
    let live_id = merger.in_progress.tick_imbalance_bar.bar.id;
    let shown_id = merger.processed.tick_imbalance_bar.id;
    merger.handle_trade(&trade(100, 1, false, 0), 1);
    let r = merger.handle_trade(&trade(101, 1, false, 5), 6);
    assert!(!r.tick_imbalance_bar_init);
    assert_eq!(r.tick_imbalance_bar.id, shown_id);
    let r = merger.handle_trade(&trade(102, 1, false, 10), 11);
    assert!(r.tick_imbalance_bar_init);
    assert!(merger.in_progress.tick_imbalance_bar_init);
    assert!(!r.volume_imbalance_bar_init);
    assert_eq!(r.tick_imbalance_bar.id, live_id);
    assert_eq!(r.tick_imbalance_bar.imb, 2 * ONE_I);
    assert_eq!(r.tick_imbalance_bar.candle.tick_count, 3);
    assert_eq!((r.tick_imbalance_bar.candle.ts, r.tick_imbalance_bar.candle.te), (Some(0), Some(10)));
    // the live bar was cleared under a new identity and keeps the threshold
    assert_ne!(merger.in_progress.tick_imbalance_bar.bar.id, live_id);
    assert_eq!(r.tick_imbalance, 0);
    assert_eq!(r.tick_imbalance_thres, merger.in_progress.tick_imbalance_bar.bar.imb_thres);
    assert!(r.tick_imbalance_thres > 0);
    assert_eq!(merger.in_progress.tick_imbalance_bar.bar.candle.pc, Some(102));
}

#[test]
fn depth_waits_for_a_trade() {
    let mut merger = StreamBase::new(AssetSource::Spot);
    merger.orderbook.reset_from(&DepthSnapshot {
        last_update_id: 10,
        bids: vec![Level { price: 100 * ONE - 5_000_000, size: 6 }],
        asks: vec![Level { price: 100 * ONE + 5_000_000, size: 2 }],
    });
    let out = merger.handle_orderbook(&depth(11, 12, &[], &[]), 5_000);
    assert_eq!(out.result, ApplyResult::Applied);
    assert!(out.published.is_none());
    assert!(out.near_price_bids.is_empty() && out.near_price_asks.is_empty());
    assert_eq!(merger.orderbook.last_update_id, 12);
    assert_eq!(merger.processed.event_type, None);
    merger.handle_trade(&trade(100 * ONE, ONE, true, 900), 901);
    let out = merger.handle_orderbook(
        &depth(13, 14, &[(100 * ONE - 5_000_000, 3), (99 * ONE, 1)], &[(100 * ONE + 10_000_000, 9)]),
        5_001,
    );
    assert_eq!(out.result, ApplyResult::Applied);
    let r = out.published.expect("a record is due");
    assert_eq!(r.event_type, Some(EventType::Depth));
    assert_eq!((r.trade_time, r.event_time, r.processed_time), (1_014, 1_015, 5_001));
    assert!(r.trade_time <= r.event_time && r.event_time <= r.processed_time);
    assert_eq!(r.best_bid, Some(Level { price: 100 * ONE - 5_000_000, size: 3 }));
    assert_eq!(r.best_ask, Some(Level { price: 100 * ONE + 5_000_000, size: 2 }));
    assert_eq!(r.ob_spread, 10_000_000);
    assert_eq!(r.obi, 20_000_000);
    // nothing was cached before: both best levels count as new
    assert_eq!(r.ofi, 3);
    // levels within 0.5 %: bid 3, ask 2 and 9; within 1 %: bid 3 and 1, ask 2 and 9
    assert_eq!(r.obi_range, ((3 - 11) * ONE as i64 / 14, (4 - 11) * ONE as i64 / 15));
    assert_eq!(out.near_price_bids, vec![Level { price: 100 * ONE - 5_000_000, size: 3 }]);
    assert_eq!(out.near_price_asks, vec![
        Level { price: 100 * ONE + 5_000_000, size: 2 },
        Level { price: 100 * ONE + 10_000_000, size: 9 },
    ]);
    assert_eq!(merger.processed.best_bid, r.best_bid);
    // the same best prices with more size on the bid
    let out = merger.handle_orderbook(&depth(15, 15, &[(100 * ONE - 5_000_000, 8)], &[]), 5_002);
    assert_eq!(out.published.unwrap().ofi, 5);
    // a stale update publishes nothing
    let out = merger.handle_orderbook(&depth(15, 15, &[(1, 1)], &[]), 5_003);
    assert_eq!(out.result, ApplyResult::DroppedStale);
    assert!(out.published.is_none());
    assert_eq!(merger.processed.processed_time, 5_002);
    // a gap publishes nothing and asks for a snapshot
    let out = merger.handle_orderbook(&depth(30, 31, &[(1, 1)], &[]), 5_004);
    assert_eq!(out.result, ApplyResult::Reinitialize);
    assert!(out.published.is_none());
    assert_eq!(merger.orderbook.bids.len(), 0);
}

#[test]
fn the_derivatives_market_looks_closer_to_the_price() {
    let mut merger = StreamBase::new(AssetSource::Future);
    merger.handle_trade(&trade(100 * ONE, ONE, true, 900), 901);
    let out = merger.handle_orderbook(
        &depth(0, 1, &[(100 * ONE - 5_000_000, 3), (100 * ONE - 15_000_000, 1)], &[]),
        902,
    );
    assert_eq!(out.near_price_bids, vec![Level { price: 100 * ONE - 5_000_000, size: 3 }]);
    let mut spot = StreamBase::new(AssetSource::Spot);
    spot.handle_trade(&trade(100 * ONE, ONE, true, 900), 901);
    let out = spot.handle_orderbook(
        &depth(0, 1, &[(100 * ONE - 5_000_000, 3), (100 * ONE - 15_000_000, 1)], &[]),
        902,
    );
    assert_eq!(out.near_price_bids.len(), 2);
}

#[test]
fn mark_price_is_published_and_cleared() {
    let mut merger = StreamBase::new(AssetSource::Future);
    merger.handle_trade(&trade(100 * ONE, ONE, true, 900), 901);
    let mark = MarkPriceData {
        mark_price: 101 * ONE,
        index_price: 100 * ONE,
        funding_rate: -10_000,
        next_funding_time: 9_999,
        event_time: 950,
    };
    let r = merger.handle_mark_price(&mark, 960);
    assert_eq!(r.event_type, Some(EventType::MarkPrice));
    assert_eq!((r.mark_price, r.funding_rate, r.next_funding_time), (101 * ONE, -10_000, 9_999));
    // a mark price has no trade time of its own: its event time stands for it
    assert_eq!((r.trade_time, r.event_time, r.processed_time), (950, 950, 960));
    assert!(r.trade_time <= r.event_time && r.event_time <= r.processed_time);
    assert_eq!(r.price, 100 * ONE);
    assert_eq!((merger.processed.mark_price, merger.processed.funding_rate), (0, 0));
    assert_eq!(merger.processed.next_funding_time, 9_999);
}

#[test]
fn liquidation_is_published_and_cleared() {
    let mut merger = StreamBase::new(AssetSource::Future);
    merger.handle_trade(&trade(100 * ONE, ONE, true, 1_000), 1_001);
    let liq = LiquidationData {
        side: LiquidationSide::Sell,
        avg_price: 100 * ONE + 50_000_000,
        quantity: 2 * ONE,
        trade_time: 940,
        event_time: 950,
    };
    let r = merger.handle_liquidation(&liq, 960);
    assert_eq!(r.event_type, Some(EventType::Liquidation));
    assert_eq!(r.liquidation_side, Some(LiquidationSide::Sell));
    assert_eq!(r.liquidation_dvolume, 201 * ONE as u128);
    // the record carries the liquidation's own times, not the trade's before it
    assert_eq!((r.trade_time, r.event_time, r.processed_time), (940, 950, 960));
    assert!(r.trade_time <= r.event_time && r.event_time <= r.processed_time);
    assert_eq!(merger.processed.liquidation_side, None);
    assert_eq!(merger.processed.liquidation_dvolume, 0);
}

#[test]
fn wire_trades_are_parsed() {
    let wire = BinanceWebsocketFutureAggTrade {
        stream: "btcusdt@aggTrade".to_string(),
        data: FutureAggTradeEvent {
            e: "aggTrade".to_string(),
            E: 20,
            s: "BTCUSDT".to_string(),
            a: 1,
            p: "64000.10".to_string(),
            q: "0.005".to_string(),
            f: 1,
            l: 2,
            T: 10,
            m: true,
        },
    };
    assert_eq!(
        generate_future_aggtrade_update(&wire),
        Some(MarketData { price: 6_400_010_000_000, quantity: 500_000, buyer_market_maker: true, trade_time: 10, event_time: 20 })
    );
    let spot = SpotAggTradeEvent {
        e: "aggTrade".to_string(),
        E: 21,
        s: "BTCUSDT".to_string(),
        a: 1,
        p: "1".to_string(),
        q: "nope".to_string(),
        f: 1,
        l: 2,
        T: 11,
        m: false,
    };
    assert_eq!(generate_spot_aggtrade_update(&spot), None);
    assert_eq!(parse_trade("2", "3", false, 1, 2), Some(MarketData { price: 2 * ONE, quantity: 3 * ONE, buyer_market_maker: false, trade_time: 1, event_time: 2 }));
    assert_eq!(parse_trade("-2", "3", false, 1, 2), None);
}

#[test]
fn wire_mark_prices_are_parsed() {
    let mut wire = BinanceWebsocketFutureMarkPrice {
        stream: "btcusdt@markPrice".to_string(),
        data: FutureMarkPriceEvent {
            e: "markPriceUpdate".to_string(),
            E: 30,
            s: "BTCUSDT".to_string(),
            p: "64000.5".to_string(),
            i: "64001".to_string(),
            P: "0".to_string(),
            r: "-0.00010000".to_string(),
            T: 99,
        },
    };
    assert_eq!(
        generate_markprice_update(&wire),
        Some(MarkPriceData { mark_price: 6_400_050_000_000, index_price: 6_400_100_000_000, funding_rate: -10_000, next_funding_time: 99, event_time: 30 })
    );
    wire.data.p = "-1".to_string();
    assert_eq!(generate_markprice_update(&wire), None);
}

#[test]
fn wire_liquidations_are_parsed() {
    let mut wire = BinanceWebsocketFutureLiquidation {
        streams: "btcusdt@forceOrder".to_string(),
        data: FutureLiquidationEvent {
            e: "forceOrder".to_string(),
            E: 40,
            o: FutureLiquidationOrder {
                s: "BTCUSDT".to_string(),
                S: "SELL".to_string(),
                o: "LIMIT".to_string(),
                f: "IOC".to_string(),
                q: "0.014".to_string(),
                p: "9910".to_string(),
                ap: "9910.5".to_string(),
                X: "FILLED".to_string(),
                l: "0.014".to_string(),
                z: "0.014".to_string(),
                T: 39,
            },
        },
    };
    assert_eq!(
        generate_liquidation_update(&wire),
        Some(LiquidationData { side: LiquidationSide::Sell, avg_price: 991_050_000_000, quantity: 1_400_000, trade_time: 39, event_time: 40 })
    );
    wire.data.o.S = "HOLD".to_string();
    assert_eq!(generate_liquidation_update(&wire), None);
    assert_eq!(parse_side(&"BUY".to_string()), Some(LiquidationSide::Buy));
    assert_eq!(parse_side(&"buy".to_string()), None);
}

#[test]
fn a_bar_is_recorded_once() {
    let mut queue: VecDeque<Bar> = VecDeque::new();
    for id in [1u128, 1, 2, 2, 2, 3, 4, 4] {
        record_bar(&mut queue, 3, &Bar::with_id(id));
    }
    assert_eq!(queue.iter().map(|b| b.id).collect::<Vec<_>>(), vec![2, 3, 4]);
    record_bar(&mut queue, 3, &Bar::with_id(4));
    assert_eq!(queue.len(), 3);
    record_bar(&mut queue, 3, &Bar::with_id(2));
    assert_eq!(queue.iter().map(|b| b.id).collect::<Vec<_>>(), vec![3, 4, 2]);
    let mut none: VecDeque<Bar> = VecDeque::new();
    record_bar(&mut none, 0, &Bar::with_id(1));
    record_bar(&mut none, 0, &Bar::with_id(2));
    assert_eq!(none.iter().map(|b| b.id).collect::<Vec<_>>(), vec![2]);
    let mut manager = BarManager::new(2);
    manager.update_tick_imbalance_bar(&Bar::with_id(1));
    manager.update_volume_imbalance_bar(&Bar::with_id(2));
    manager.update_dollar_imbalance_bar(&Bar::with_id(3));
    manager.update_dollar_imbalance_bar(&Bar::with_id(3));
    manager.update_dollar_imbalance_bar(&Bar::with_id(4));
    manager.update_dollar_imbalance_bar(&Bar::with_id(5));
    assert_eq!(manager.tick_imbalance_bar_queue.len(), 1);
    assert_eq!(manager.volume_imbalance_bar_queue.len(), 1);
    assert_eq!(manager.dollar_imbalance_bar_queue.iter().map(|b| b.id).collect::<Vec<_>>(), vec![4, 5]);
    assert_eq!(manager.tick_imbalance_bar_max_capa, 2);
}

#[test]
fn settings_fall_back_to_their_defaults() {
    let config = PrismEnvConfig::from_raw(RawEnvConfig {
        symbols_binance_fut: Some("btcusdt".to_string()),
        symbols_binance_spt: None,
        symbols_upbit_krw: None,
        symbols_upbit_btc: None,
        symbols_upbit_usdt: None,
        table_fut: None,
        table_spt: Some("spot".to_string()),
        strategy1_table: None,
        data_dump: Some("true".to_string()),
        channel_capacity: Some("64".to_string()),
    });
    assert_eq!(config.symbol_binance_fut, "btcusdt");
    assert_eq!(config.symbol_binance_spt, "NO_SYMBOL");
    assert_eq!(config.symbol_upbit_krw, "NO_SYMBOL");
    assert_eq!(config.symbol_upbit_btc, "NO_SYMBOL");
    assert_eq!(config.symbol_upbit_usdt, "NO_SYMBOL");
    assert_eq!(config.table_fut, "unspecified");
    assert_eq!(config.table_spt, "spot");
    assert_eq!(config.table_strat1, "unspecified");
    assert!(config.data_dump);
    assert_eq!(config.channel_capacity, 64);
    assert!(config.binance_enabled());
    assert!(symbol_enabled(&config.symbol_binance_fut));
    assert!(!symbol_enabled(&config.symbol_upbit_krw));
    assert_eq!(capacity_from(&None), 999);
    assert_eq!(capacity_from(&Some("many".to_string())), DEFAULT_CHANNEL_CAPACITY);
    assert_eq!(capacity_from(&Some("-3".to_string())), 999);
    assert_eq!(capacity_from(&Some("0".to_string())), 0);
    assert_eq!(capacity_from_number(Some(12)), 12);
    assert_eq!(capacity_from_number(None), 999);
    assert!(!dump_from(&Some("TRUE".to_string())));
    assert!(!dump_from(&None));
    assert_eq!(setting_or(None, "x"), "x");
}

#[test]
fn trade_limits() {
    let mut config = TradeConfig::default();
    assert_eq!((config.leverage, config.max_leverage), (1, 30));
    assert_eq!(config.loss_cut, Some(5_000_000));
    assert_eq!(config.take_profit, Some(10_000_000));
    assert!(!config.data_dump);
    config.enable_data_dump(true);
    assert!(config.data_dump);
    assert_ne!(LongShort::Long, LongShort::Short);
}

#[test]
fn strategy_reads_the_levels_near_the_price() {
    let mut merger = StreamBase::new(AssetSource::Spot);
    merger.handle_trade(&trade(100 * ONE, ONE, true, 900), 901);
    let out = merger.handle_orderbook(
        &depth(0, 1, &[(100 * ONE - 5_000_000, 3), (100 * ONE - 15_000_000, 1)], &[(100 * ONE + 1, 4), (100 * ONE + 2, 6)]),
        902,
    );
    let record = out.published.unwrap();
    let mut params = IntraParams::new(100);
    assert_eq!(params.price, None);
    params.update_params(&record);
    params.update_bars(&record);
    params.update_bars(&record);
    assert_eq!(params.bars.tick_imbalance_bar_queue.len(), 1);
    assert_eq!(params.price, Some(100 * ONE));
    assert_eq!(params.data_time, Some(record.trade_time));
    assert_eq!(params.vwap, None);
    assert_eq!(params.tick_vwap, Some(100 * ONE as u128));
    assert_eq!(params.dollar_cvd, Some(0));
    let mut elsewhere = SnipeLargeOrderStrategy::new("Binance Spot".to_string());
    let mut here = SnipeLargeOrderStrategy::new("Upbit Spot".to_string());
    assert_eq!(here.source, "Upbit Spot");
    assert_eq!(here.evaluate(&params), None);
    params.update_near_levels(out.near_price_bids, out.near_price_asks);
    assert_eq!(elsewhere.evaluate(&params), None);
    let seen = here.evaluate(&params).expect("levels are near on both sides");
    assert_eq!(seen.time, record.trade_time);
    assert_eq!(seen.price, 100 * ONE);
    assert_eq!((seen.best_bid_price, seen.best_bid_volume), (100 * ONE - 5_000_000, 3));
    assert_eq!((seen.best_ask_price, seen.best_ask_volume), (100 * ONE + 1, 4));
    assert_eq!(seen.best_bid_ask_spread, -5_000_001);
    assert_eq!((seen.total_bid_volume, seen.total_ask_volume), (4, 10));
    assert_eq!((seen.market_buy_size, seen.market_sell_size), (None, None));
    params.update_near_levels(vec![], vec![Level { price: 1, size: 1 }]);
    assert_eq!(here.evaluate(&params), None);
    let (hi, lo, total) = survey(&vec![
        Level { price: 5, size: 1 },
        Level { price: 9, size: 2 },
        Level { price: 9, size: 3 },
        Level { price: 2, size: u64::MAX },
    ]);
    assert_eq!((hi, lo, total), (Level { price: 9, size: 2 }, Level { price: 2, size: u64::MAX }, u64::MAX as u128 + 6));
}

#[test]
fn the_two_markets_side_by_side() {
    let mut futures = StreamBase::new(AssetSource::Future);
    let mut spot = StreamBase::new(AssetSource::Spot);
    let f1 = futures.handle_trade(&trade(101 * ONE, ONE, true, 900), 901);
    let s1 = spot.handle_trade(&trade(100 * ONE, 2 * ONE, false, 900), 902);
    let mut computer = TradeComputer::new();
    assert_eq!(computer.future_spot_divergence, None);
    computer.update_trade_params(&f1, AssetSource::Future);
    assert_eq!(computer.future.price, Some(101 * ONE));
    assert_eq!(computer.spot.price, None);
    assert_eq!(computer.future_spot_divergence, None);
    computer.update_trade_params(&s1, AssetSource::Spot);
    assert_eq!(computer.future_spot_divergence, Some(ONE_I));
    assert_eq!(computer.spot.tick_vwap, Some(100 * ONE as u128));
    assert_eq!(computer.spot.volume_imbalance, Some(0));
    let f2 = futures.handle_trade(&trade(99 * ONE, ONE, true, 905), 906);
    computer.update_trade_params(&f2, AssetSource::Future);
    assert_eq!(computer.future_spot_divergence, Some(-ONE_I));
    assert_eq!(computer.future.tick_imbalance, Some(-ONE_I));
    assert_eq!(computer.future.historical_tick_vwap, VecDeque::from(vec![101 * ONE as u128, 100 * ONE as u128]));
    assert_eq!(computer.spot.historical_tick_vwap.len(), 1);
    computer.update_future_bars(&f2);
    computer.update_future_bars(&f2);
    computer.update_spot_bars(&s1);
    assert_eq!(computer.future.bars.tick_imbalance_bar_queue.len(), 1);
    assert_eq!(computer.future.bars.dollar_imbalance_bar_queue.len(), 1);
    assert_eq!(computer.spot.bars.volume_imbalance_bar_queue.len(), 1);
    assert_eq!(computer.future.bars.tick_imbalance_bar_max_capa, 100);
    let mut figures = MarketFigures::new(3);
    figures.take(&f1);
    figures.take_bars(&f1);
    assert_eq!(figures.price, Some(101 * ONE));
    assert_eq!(figures.bars.tick_imbalance_bar_max_capa, 3);
}

#[test]
fn the_first_update_after_a_snapshot_is_placed_by_its_ids() {
    let mut merger = StreamBase::new(AssetSource::Future);
    merger.handle_trade(&trade(100 * ONE, ONE, true, 900), 901);
    assert!(!merger.fresh_snapshot);
    merger.handle_snapshot(&DepthSnapshot {
        last_update_id: 50,
        bids: vec![Level { price: 99 * ONE, size: 1 }],
        asks: vec![Level { price: 101 * ONE, size: 1 }],
    });
    assert!(merger.fresh_snapshot);
    assert_eq!(merger.orderbook.last_update_id, 50);
    // an update from before the snapshot is stale and leaves the book waiting
    let mut old = depth(40, 50, &[(98 * ONE, 1)], &[]);
    old.previous_final_update_id = Some(39);
    assert_eq!(merger.handle_orderbook(&old, 902).result, ApplyResult::DroppedStale);
    assert!(merger.fresh_snapshot);
    // the update that straddles the snapshot is applied, whatever came before it
    let mut first = depth(45, 55, &[(98 * ONE, 2)], &[]);
    first.previous_final_update_id = Some(44);
    let out = merger.handle_orderbook(&first, 903);
    assert_eq!(out.result, ApplyResult::Applied);
    assert!(!merger.fresh_snapshot);
    assert_eq!(merger.orderbook.last_update_id, 55);
    assert_eq!(merger.orderbook.bids.get(98 * ONE), Some(2));
    // from then on an update must name its predecessor
    let mut next = depth(56, 60, &[(98 * ONE, 3)], &[]);
    next.previous_final_update_id = Some(55);
    assert_eq!(merger.handle_orderbook(&next, 904).result, ApplyResult::Applied);
    let mut lost = depth(62, 70, &[(98 * ONE, 4)], &[]);
    lost.previous_final_update_id = Some(61);
    assert_eq!(merger.handle_orderbook(&lost, 905).result, ApplyResult::Reinitialize);
    assert!(!merger.fresh_snapshot);
    // after a snapshot an update that starts beyond it is still a gap
    merger.handle_snapshot(&DepthSnapshot { last_update_id: 80, bids: vec![], asks: vec![] });
    let mut far = depth(90, 95, &[(98 * ONE, 4)], &[]);
    far.previous_final_update_id = Some(80);
    assert_eq!(merger.handle_orderbook(&far, 906).result, ApplyResult::Reinitialize);
    assert!(merger.fresh_snapshot);
}
