use prism::book::{
    band_volume, best_level_imbalance, flow_imbalance, imbalance_ratio_of, in_band_of,
    near_above_of, near_asks, near_below_of, near_bids, OrderbookData, VOLUME_CAP,
};
use prism::data::depth::{
    generate_future_orderbook_update, generate_spot_orderbook_update, parse_levels,
    BinanceWebsocketFutureDiffBook, BitgetAction, BitgetDepthMessage, BitgetStreamArg, DepthData,
    DepthSnapshot, FutureDepthEvent, FutureDepthSnapShot, OrderbookUpdateStream, SpotDepthEvent,
    SpotDepthSnapShot,
};
use prism::fixed::{
    amount_from_decimal, parse_amount, parse_signed_amount, parse_whole, to_units, SCALE,
};
use prism::ladder::{Ladder, Level};
use prism::orderbook::{ApplyResult, Orderbook};

const ONE: u64 = 100_000_000;

fn pairs(raw: &[(&str, &str)]) -> Vec<(String, String)> {
    raw.iter().map(|(p, s)| (p.to_string(), s.to_string())).collect()
}

fn spot_diff(first: u64, last: u64, bids: &[(&str, &str)], asks: &[(&str, &str)]) -> OrderbookUpdateStream {
    let event = SpotDepthEvent {
        e: "depthUpdate".to_string(),
        E: 1_700_000_000_100,
        s: "BTCUSDT".to_string(),
        U: first,
        u: last,
        b: pairs(bids),
        a: pairs(asks),
    };
    generate_spot_orderbook_update(&event).unwrap()
}

fn future_diff(first: u64, last: u64, prev: u64, bids: &[(&str, &str)], asks: &[(&str, &str)]) -> OrderbookUpdateStream {
    let event = BinanceWebsocketFutureDiffBook {
        stream: "btcusdt@depth".to_string(),
        data: FutureDepthEvent {
            e: "depthUpdate".to_string(),
            E: 1_700_000_000_100,
            T: 1_700_000_000_090,
            s: "BTCUSDT".to_string(),
            U: first,
            u: last,
            pu: prev,
            b: pairs(bids),
            a: pairs(asks),
        },
    };
    generate_future_orderbook_update(&event).unwrap()
}

fn book_after_snapshot() -> Orderbook {
    let snapshot = SpotDepthSnapShot {
        lastUpdateId: 10,
        bids: pairs(&[("100", "2"), ("99", "1")]),
        asks: pairs(&[("101", "3")]),
    };
    let mut book = Orderbook::new();
    book.reset_from(&snapshot.to_snapshot().unwrap());
    book
}

fn levels(side: &Ladder) -> Vec<(u64, u64)> {
    (0..side.len()).map(|i| (side.level(i).price, side.level(i).size)).collect()
}

#[test]
fn ladder_orders_levels_by_price() {
    let mut side = Ladder::new();
    side.set(100, 2);
    side.set(99, 1);
    side.set(101, 7);
    assert_eq!(side.len(), 3);
    assert_eq!(side.first(), Some(Level { price: 99, size: 1 }));
    assert_eq!(side.last(), Some(Level { price: 101, size: 7 }));
    side.set(101, 0);
    assert_eq!(side.last(), Some(Level { price: 100, size: 2 }));
    assert_eq!(side.get(101), None);
    assert_eq!(side.get(100), Some(2));
    side.set(100, 9);
    assert_eq!(levels(&side), vec![(99, 1), (100, 9)]);
    side.set(555, 0);
    assert_eq!(levels(&side), vec![(99, 1), (100, 9)]);
    let twin = side.copy();
    assert_eq!(levels(&twin), levels(&side));
    assert_eq!(side.to_vec(), vec![Level { price: 99, size: 1 }, Level { price: 100, size: 9 }]);
}

#[test]
fn snapshot_then_benign_diff() {
    let mut book = book_after_snapshot();
    assert_eq!(book.last_update_id, 10);
    let diff = spot_diff(11, 12, &[("100", "0"), ("98", "5")], &[]);
    assert_eq!(book.apply(&diff), ApplyResult::Applied);
    assert_eq!(levels(&book.bids), vec![(98 * ONE, 5 * ONE), (99 * ONE, ONE)]);
    assert_eq!(levels(&book.asks), vec![(101 * ONE, 3 * ONE)]);
    assert_eq!(book.best_bid(), Some((99 * ONE, ONE)));
    assert_eq!(book.best_ask(), Some((101 * ONE, 3 * ONE)));
    assert_eq!(book.last_update_id, 12);
    assert_eq!(book.event_time, 1_700_000_000_100);
    assert_eq!(book.trade_time, 1_700_000_000_100);
    assert_eq!(book.last_source.as_deref(), Some("Binance"));
}

#[test]
fn stale_diff_is_dropped() {
    let mut book = book_after_snapshot();
    let diff = spot_diff(11, 12, &[("100", "0"), ("98", "5")], &[]);
    assert_eq!(book.apply(&diff), ApplyResult::Applied);
    let before = (levels(&book.bids), levels(&book.asks), book.last_update_id, book.event_time);
    let stale = spot_diff(9, 10, &[("97", "4")], &[("102", "1")]);
    assert_eq!(book.apply(&stale), ApplyResult::DroppedStale);
    assert_eq!((levels(&book.bids), levels(&book.asks), book.last_update_id, book.event_time), before);
}

#[test]
fn gap_asks_for_a_new_snapshot() {
    let mut book = book_after_snapshot();
    let diff = spot_diff(11, 12, &[("100", "0"), ("98", "5")], &[]);
    assert_eq!(book.apply(&diff), ApplyResult::Applied);
    let gap = spot_diff(20, 25, &[("97", "4")], &[]);
    assert_eq!(book.apply(&gap), ApplyResult::Reinitialize);
    assert_eq!(book.bids.len(), 0);
    assert_eq!(book.asks.len(), 0);
    assert_eq!(book.best_bid(), None);
    assert_eq!(book.best_ask(), None);
    assert_eq!(book.last_update_id, 12);
    let snapshot = DepthSnapshot {
        last_update_id: 30,
        bids: vec![Level { price: 5, size: 1 }],
        asks: vec![Level { price: 6, size: 1 }],
    };
    book.reset_from(&snapshot);
    assert_eq!(book.last_update_id, 30);
    assert_eq!(book.best_bid(), Some((5, 1)));
}

#[test]
fn spot_diff_may_overlap_the_book() {
    let mut book = book_after_snapshot();
    let overlap = spot_diff(8, 11, &[("99", "7")], &[]);
    assert_eq!(book.apply(&overlap), ApplyResult::Applied);
    assert_eq!(book.last_update_id, 11);
    assert_eq!(book.bids.get(99 * ONE), Some(7 * ONE));
}

#[test]
fn derivatives_diff_must_name_its_predecessor() {
    let mut book = book_after_snapshot();
    let good = future_diff(11, 15, 10, &[("100", "4")], &[("101", "0"), ("102", "1")]);
    assert_eq!(good.previous_final_update_id, Some(10));
    assert_eq!(book.apply(&good), ApplyResult::Applied);
    assert_eq!(book.trade_time, 1_700_000_000_090);
    assert_eq!(book.event_time, 1_700_000_000_100);
    assert_eq!(book.best_ask(), Some((102 * ONE, ONE)));
    assert_eq!(book.last_update_id, 15);
    let skipped = future_diff(17, 18, 16, &[("100", "4")], &[]);
    assert_eq!(book.apply(&skipped), ApplyResult::Reinitialize);
    assert_eq!(book.bids.len(), 0);
}

#[test]
fn the_update_after_a_snapshot_needs_no_predecessor() {
    let mut book = book_after_snapshot();
    // ids 8..=11 straddle the snapshot's id 10; the predecessor 7 came before it
    let bridge = future_diff(8, 11, 7, &[("99", "7")], &[]);
    let mut strict = book_after_snapshot();
    assert_eq!(strict.apply(&bridge), ApplyResult::Reinitialize);
    assert_eq!(book.apply_after_snapshot(&bridge), ApplyResult::Applied);
    assert_eq!(book.last_update_id, 11);
    assert_eq!(book.bids.get(99 * ONE), Some(7 * ONE));
    let stale = future_diff(5, 11, 4, &[("99", "1")], &[]);
    assert_eq!(book.apply_after_snapshot(&stale), ApplyResult::DroppedStale);
    let gap = future_diff(13, 14, 11, &[("99", "1")], &[]);
    assert_eq!(book.apply_after_snapshot(&gap), ApplyResult::Reinitialize);
    assert_eq!(book.bids.len(), 0);
}

#[test]
fn applying_twice_drops_the_second() {
    let mut book = book_after_snapshot();
    let diff = spot_diff(11, 12, &[("100", "0"), ("98", "5")], &[("103", "2")]);
    assert_eq!(book.apply(&diff), ApplyResult::Applied);
    let before = (levels(&book.bids), levels(&book.asks), book.last_update_id);
    assert_eq!(book.apply(&diff), ApplyResult::DroppedStale);
    assert_eq!((levels(&book.bids), levels(&book.asks), book.last_update_id), before);
}

#[test]
fn applied_book_holds_no_empty_level_and_is_not_crossed() {
    let mut book = book_after_snapshot();
    let diff = spot_diff(11, 12, &[("99", "0"), ("100.5", "1")], &[("101", "0"), ("100.75", "2")]);
    assert_eq!(book.apply(&diff), ApplyResult::Applied);
    for side in [&book.bids, &book.asks] {
        for (_, size) in levels(side) {
            assert!(size > 0);
        }
    }
    let (bid, _) = book.best_bid().unwrap();
    let (ask, _) = book.best_ask().unwrap();
    assert!(bid <= ask);
    assert_eq!(bid, 100 * ONE + ONE / 2);
    assert_eq!(ask, 100 * ONE + 3 * ONE / 4);
}

#[test]
fn an_update_can_cross_the_book() {
    let mut book = book_after_snapshot();
    let diff = spot_diff(11, 12, &[("102", "1")], &[]);
    assert_eq!(book.apply(&diff), ApplyResult::Applied);
    assert!(book.best_bid().unwrap().0 > book.best_ask().unwrap().0);
}

#[test]
fn update_ignores_sequence_and_skips_events_without_times() {
    let mut book = book_after_snapshot();
    let mut ev = spot_diff(50, 60, &[("98", "5")], &[]);
    book.update(&ev);
    assert_eq!(book.bids.get(98 * ONE), Some(5 * ONE));
    assert_eq!(book.last_update_id, 10);
    ev.trade_time = 0;
    ev.bids = vec![Level { price: 1, size: 1 }];
    book.update(&ev);
    assert_eq!(book.bids.get(1), None);
}

#[test]
fn imbalance_at_the_best_levels() {
    let mut book = Orderbook::new();
    book.reset_from(&DepthSnapshot {
        last_update_id: 1,
        bids: parse_levels(&pairs(&[("100", "6")])).unwrap(),
        asks: parse_levels(&pairs(&[("101", "2")])).unwrap(),
    });
    assert_eq!(book.imbalance(), 50_000_000);
    assert_eq!(book.imbalance_ranged(100 * ONE, 2_000_000), 50_000_000);
    assert_eq!(book.near_price_levels(100 * ONE, 2_000_000), (vec![], vec![Level { price: 101 * ONE, size: 2 * ONE }]));
    assert_eq!(Orderbook::new().imbalance(), 0);
    let data = OrderbookData::from_book(&book, None, None);
    let obi = data.orderbook_imbalance();
    assert_eq!(obi, 50_000_000);
    assert_eq!(obi as f64 / SCALE as f64, 0.5);
    assert_eq!(best_level_imbalance(None, None), 0);
    assert_eq!(best_level_imbalance(Some(Level { price: 1, size: 2 }), Some(Level { price: 2, size: 6 })), -50_000_000);
    assert_eq!(best_level_imbalance(Some(Level { price: 1, size: 1 }), Some(Level { price: 2, size: 2 })), -33_333_333);
    assert_eq!(imbalance_ratio_of(VOLUME_CAP, 0), 100_000_000);
    assert_eq!(imbalance_ratio_of(0, VOLUME_CAP), -100_000_000);
    assert_eq!(imbalance_ratio_of(u128::MAX, VOLUME_CAP), 0);
    assert_eq!(imbalance_ratio_of(u128::MAX, VOLUME_CAP / 3), 50_000_000);
}

#[test]
fn imbalance_within_a_band() {
    let mut book = Orderbook::new();
    book.reset_from(&DepthSnapshot {
        last_update_id: 1,
        bids: parse_levels(&pairs(&[("99.5", "3"), ("99", "4"), ("90", "100")])).unwrap(),
        asks: parse_levels(&pairs(&[("100.5", "1"), ("101", "2"), ("120", "50")])).unwrap(),
    });
    let data = OrderbookData::from_book(&book, None, None);
    // band of 1 % around 100: 99 ..= 101
    assert_eq!(band_volume(&data.bids, 100 * ONE, 1_000_000), 7 * ONE as u128);
    assert_eq!(band_volume(&data.asks, 100 * ONE, 1_000_000), 3 * ONE as u128);
    assert_eq!(data.orderbook_imbalance_slack(100 * ONE, 1_000_000), 40_000_000);
    // band of 0.5 %: 99.5 ..= 100.5
    assert_eq!(data.orderbook_imbalance_slack(100 * ONE, 500_000), 50_000_000);
    // nothing in the band
    assert_eq!(data.orderbook_imbalance_slack(50 * ONE, 500_000), 0);
    assert!(in_band_of(99 * ONE, 100 * ONE, 1_000_000));
    assert!(!in_band_of(99 * ONE - 1, 100 * ONE, 1_000_000));
    assert!(in_band_of(101 * ONE, 100 * ONE, 1_000_000));
    assert!(!in_band_of(101 * ONE + 1, 100 * ONE, 1_000_000));
    assert!(in_band_of(0, 100 * ONE, 2 * ONE));
    assert!(in_band_of(u64::MAX, u64::MAX, u64::MAX));
}

#[test]
fn flow_imbalance_follows_the_best_levels() {
    let l = |price: u64, size: u64| Some(Level { price, size });
    // bid rose, ask unchanged
    assert_eq!(flow_imbalance(l(100, 5), l(101, 7), l(102, 3), l(102, 3)), 7);
    // bid unchanged with more size, ask fell
    assert_eq!(flow_imbalance(l(100, 5), l(100, 8), l(102, 3), l(101, 4)), 3 - 4);
    // bid fell, ask rose
    assert_eq!(flow_imbalance(l(100, 5), l(99, 8), l(102, 3), l(103, 9)), -5 + 3);
    // nothing cached yet
    assert_eq!(flow_imbalance(None, l(100, 5), None, l(101, 2)), 5);
    let mut book = Orderbook::new();
    book.reset_from(&DepthSnapshot {
        last_update_id: 1,
        bids: vec![Level { price: 100, size: 6 }],
        asks: vec![Level { price: 101, size: 2 }],
    });
    let mut data = OrderbookData::from_book(&book, l(100, 4), l(101, 5));
    assert_eq!(data.orderflow_imbalance(), (6 - 4) - (2 - 5));
    assert_eq!(data.spread(), 1);
    data.update_best_bid_ask();
    assert_eq!(data.best_bid, l(100, 6));
    assert_eq!(data.best_ask, l(101, 2));
    assert_eq!(data.orderflow_imbalance(), 0);
}

#[test]
fn update_best_bid_ask_on_an_empty_book() {
    let book = Orderbook::new();
    let mut data = OrderbookData::from_book(&book, Some(Level { price: 1, size: 1 }), None);
    data.update_best_bid_ask();
    assert_eq!(data.best_bid, None);
    assert_eq!(data.best_ask, None);
    assert_eq!(data.spread(), 0);
    assert_eq!(data.orderbook_imbalance(), 0);
}

#[test]
fn levels_near_the_price() {
    let mut book = Orderbook::new();
    book.reset_from(&DepthSnapshot {
        last_update_id: 1,
        bids: parse_levels(&pairs(&[("100", "9"), ("99.95", "3"), ("99.9", "4"), ("99", "1")])).unwrap(),
        asks: parse_levels(&pairs(&[("100", "8"), ("100.05", "1"), ("100.1", "2"), ("101", "5")])).unwrap(),
    });
    let data = OrderbookData::from_book(&book, None, None);
    let (bids, asks) = data.near_price_bid_ask_activity(100 * ONE, 100_000);
    // strictly below the price and strictly above 99.9
    assert_eq!(bids, vec![Level { price: 9_995_000_000, size: 3 * ONE }]);
    // strictly above the price and strictly below 100.1
    assert_eq!(asks, vec![Level { price: 10_005_000_000, size: ONE }]);
    assert_eq!(near_bids(&data.bids, 100 * ONE, 200_000).len(), 2);
    assert_eq!(near_asks(&data.asks, 100 * ONE, 200_000).len(), 2);
    assert_eq!(near_bids(&data.bids, 100 * ONE, 0).len(), 0);
    assert_eq!(near_bids(&data.bids, 100 * ONE, 3 * ONE).len(), 3);
    // a band that reaches down to zero leaves zero itself out
    assert!(!near_below_of(0, 5, SCALE));
    assert!(near_below_of(1, 5, SCALE));
    assert!(near_below_of(0, 5, SCALE + 1));
    assert!(!near_below_of(5, 5, SCALE));
    assert!(near_above_of(6, 5, 20_000_001));
    assert!(!near_above_of(6, 5, 20_000_000));
    assert!(near_above_of(u64::MAX, u64::MAX - 1, u64::MAX));
}

#[test]
fn decimal_texts_become_units() {
    assert_eq!(parse_amount("100"), Some(100 * ONE));
    assert_eq!(parse_amount("0.00000001"), Some(1));
    assert_eq!(parse_amount("1.000000000"), Some(ONE));
    assert_eq!(parse_amount("12345.67890123"), Some(1_234_567_890_123));
    assert_eq!(parse_amount("0.000000001"), None);
    assert_eq!(parse_amount("-1"), None);
    assert_eq!(parse_amount("abc"), None);
    assert_eq!(parse_amount(""), None);
    assert_eq!(parse_amount("0"), Some(0));
    assert_eq!(parse_amount("184467440737.09551615"), Some(u64::MAX));
    assert_eq!(parse_amount("184467440737.09551616"), None);
    assert_eq!(parse_signed_amount("-0.00010000"), Some(-10_000));
    assert_eq!(parse_signed_amount("0.0001"), Some(10_000));
    assert_eq!(parse_signed_amount("92233720368.54775807"), Some(i64::MAX));
    assert_eq!(parse_signed_amount("-92233720368.54775808"), Some(i64::MIN));
    assert_eq!(parse_signed_amount("92233720368.54775808"), None);
    assert_eq!(parse_signed_amount("x"), None);
}

#[test]
fn mantissa_and_scale_become_units() {
    assert_eq!(to_units(5, 0), Some(500_000_000));
    assert_eq!(to_units(5, 8), Some(5));
    assert_eq!(to_units(50, 9), Some(5));
    assert_eq!(to_units(5, 9), None);
    assert_eq!(to_units(-1234, 2), Some(-1_234_000_000));
    assert_eq!(to_units(0, 30), Some(0));
    assert_eq!(to_units(-70, 9), Some(-7));
    assert_eq!(to_units(i128::MAX, 0), None);
    assert_eq!(to_units(i128::MAX, 8), Some(i128::MAX));
    assert_eq!(to_units(i128::MIN, 8), Some(i128::MIN));
    assert_eq!(amount_from_decimal(Some((15, 1))), Some(150_000_000));
    assert_eq!(amount_from_decimal(Some((-15, 1))), None);
    assert_eq!(amount_from_decimal(None), None);
}

#[test]
fn a_malformed_level_rejects_the_whole_message() {
    assert_eq!(parse_levels(&pairs(&[("1", "2"), ("x", "2")])), None);
    assert_eq!(parse_levels(&pairs(&[("1", "2"), ("3", "-2")])), None);
    assert_eq!(parse_levels(&pairs(&[])), Some(vec![]));
    let snapshot = FutureDepthSnapShot {
        lastUpdateId: 7,
        E: 1,
        T: 1,
        bids: pairs(&[("1", "oops")]),
        asks: pairs(&[]),
    };
    assert!(snapshot.to_snapshot().is_none());
    let good = FutureDepthSnapShot {
        lastUpdateId: 7,
        E: 1,
        T: 1,
        bids: pairs(&[("1", "2")]),
        asks: pairs(&[("3", "4")]),
    };
    let parsed = good.to_snapshot().unwrap();
    assert_eq!(parsed.last_update_id, 7);
    assert_eq!(parsed.bids, vec![Level { price: ONE, size: 2 * ONE }]);
    assert_eq!(parsed.asks, vec![Level { price: 3 * ONE, size: 4 * ONE }]);
}

fn bitget(action: &str, ts: &str, bids: &[(&str, &str)], asks: &[(&str, &str)]) -> BitgetDepthMessage {
    BitgetDepthMessage {
        action: action.to_string(),
        arg: BitgetStreamArg {
            instType: "USDT-FUTURES".to_string(),
            channel: "books".to_string(),
            instId: "BTCUSDT".to_string(),
        },
        data: vec![DepthData { asks: pairs(asks), bids: pairs(bids), checksum: 0, ts: ts.to_string() }],
    }
}

#[test]
fn timed_books_are_sequenced_by_their_time() {
    let first = bitget("snapshot", "1000", &[("10", "1")], &[("11", "1")]);
    assert_eq!(first.kind(), Some(BitgetAction::Snapshot));
    let mut book = Orderbook::new();
    book.reset_from(&first.to_snapshot().unwrap());
    assert_eq!(book.last_update_id, 1000);
    let next = bitget("update", "1005", &[("10", "0"), ("9", "2")], &[]);
    assert_eq!(next.kind(), Some(BitgetAction::Update));
    let ev = next.to_update().unwrap();
    assert_eq!(ev.trade_time, 1005);
    assert_eq!(ev.event_time, 1005);
    assert_eq!(ev.last_update_exchange, "bitget");
    assert_eq!(book.apply(&ev), ApplyResult::Applied);
    assert_eq!(book.best_bid(), Some((9 * ONE, 2 * ONE)));
    let late = bitget("update", "1005", &[("8", "2")], &[]);
    assert_eq!(book.apply(&late.to_update().unwrap()), ApplyResult::DroppedStale);
    assert_eq!(bitget("other", "1", &[], &[]).kind(), None);
    assert!(bitget("update", "soon", &[], &[]).to_update().is_none());
    assert!(bitget("snapshot", "-4", &[], &[]).to_snapshot().is_none());
    let mut empty = bitget("update", "1", &[], &[]);
    empty.data.clear();
    assert!(empty.to_update().is_none());
    assert!(empty.to_snapshot().is_none());
}

#[test]
fn whole_numbers_are_read_as_the_standard_library_reads_them() {
    let texts = [
        "", "+", "-", "0", "007", "+5", "+05", "-0", "-5", "++1", "+-1", "1+", "12a", "a12",
        " 1", "1 ", "1_0", "1e3", "1.0", "18446744073709551615", "18446744073709551616",
        "+18446744073709551615", "000000000000000000000018446744073709551615",
        "99999999999999999999999", "184467440737095516150", "\u{ff11}\u{ff12}", "1\u{0661}",
        "4294967296", "1730000000000",
    ];
    for text in texts {
        assert_eq!(parse_whole(text), text.parse::<u64>().ok(), "reading {:?}", text);
    }
    assert_eq!(parse_whole("1730000000000"), Some(1_730_000_000_000));
    assert_eq!(parse_whole("+5"), Some(5));
    assert_eq!(parse_whole("-5"), None);
    assert_eq!(parse_whole(""), None);
}
