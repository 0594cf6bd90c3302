//! Order-book depth: snapshots, incremental updates and their wire records.

use vstd::prelude::*;
use crate::fixed::{amount_of, decimal_from_str, parse_amount, parse_whole, whole_of};
use crate::ladder::Level;

verus! {

/// One incremental depth update, parsed: the levels to set on each side in
/// the order the venue listed them, with the update-id range it covers.
/// `previous_final_update_id` is present on derivatives streams only.
pub struct OrderbookUpdateStream {
    pub bids: Vec<Level>,
    pub asks: Vec<Level>,
    pub trade_time: u64,
    pub event_time: u64,
    pub last_update_exchange: String,
    pub first_update_id: u64,
    pub final_update_id: u64,
    pub previous_final_update_id: Option<u64>,
}

/// A full book as a venue's snapshot endpoint returns it, parsed.
pub struct DepthSnapshot {
    pub last_update_id: u64,
    pub bids: Vec<Level>,
    pub asks: Vec<Level>,
}

/// The level that a pair of decimal texts stands for, where both parse.
pub open spec fn level_of(price: Seq<char>, size: Seq<char>) -> Option<Level> {
    match (amount_of(decimal_from_str(price)), amount_of(decimal_from_str(size))) {
        (Some(p), Some(s)) => Some(Level { price: p, size: s }),
        _ => None,
    }
}

/// The levels that a list of text pairs stands for: `None` as soon as one
/// text does not parse.
pub open spec fn levels_of(raw: Seq<(String, String)>) -> Option<Seq<Level>>
    decreases raw.len(),
{
    if raw.len() == 0 {
        Some(Seq::empty())
    } else {
        match (levels_of(raw.drop_last()), level_of(raw.last().0@, raw.last().1@)) {
            (Some(front), Some(l)) => Some(front.push(l)),
            _ => None,
        }
    }
}

/// Parses the price and size texts of one side of a depth message.
pub fn parse_levels(raw: &Vec<(String, String)>) -> (r: Option<Vec<Level>>)
    ensures
        match levels_of(raw@) {
            Some(ls) => r matches Some(v) && v@ == ls,
            None => r is None,
        },
{
    let mut out: Vec<Level> = Vec::new();
    let n = raw.len();
    let mut i: usize = 0;
    assert(raw@.take(0) =~= Seq::empty());
    while i < n
        invariant
            i <= n,
            n == raw@.len(),
            levels_of(raw@.take(i as int)) == Some(out@),
        decreases n - i,
    {
        let price = parse_amount(raw[i].0.as_str());
        let size = parse_amount(raw[i].1.as_str());
        proof {
            assert(raw@.take(i + 1).drop_last() =~= raw@.take(i as int));
            assert(raw@.take(i + 1).last() == raw@[i as int]);
        }
        match (price, size) {
            (Some(p), Some(s)) => {
                out.push(Level { price: p, size: s });
            },
            _ => {
                proof {
                    lemma_levels_of_prefix_fails(raw@, i + 1);
                }
                return None;
            },
        }
        i = i + 1;
    }
    assert(raw@.take(n as int) =~= raw@);
    Some(out)
}

/// Once a prefix fails to parse, the whole list does.
proof fn lemma_levels_of_prefix_fails(raw: Seq<(String, String)>, k: int)
    requires
        0 <= k <= raw.len(),
        levels_of(raw.take(k)) is None,
    ensures
        levels_of(raw) is None,
    decreases raw.len() - k,
{
    if k < raw.len() {
        assert(raw.take(k + 1).drop_last() =~= raw.take(k));
        lemma_levels_of_prefix_fails(raw, k + 1);
    } else {
        assert(raw.take(k) =~= raw);
    }
}

/// A snapshot of the derivatives book, as the venue's endpoint returns it.
#[allow(non_snake_case)]
pub struct FutureDepthSnapShot {
    pub lastUpdateId: u64,
    pub E: u64,
    pub T: u64,
    pub bids: Vec<(String, String)>,
    pub asks: Vec<(String, String)>,
}

/// A depth update of the derivatives venue, as it is sent.
#[allow(non_snake_case)]
pub struct FutureDepthEvent {
    pub e: String,
    pub E: u64,
    pub T: u64,
    pub s: String,
    pub U: u64,
    pub u: u64,
    pub pu: u64,
    pub b: Vec<(String, String)>,
    pub a: Vec<(String, String)>,
}

/// A derivatives depth update inside its stream envelope.
pub struct BinanceWebsocketFutureDiffBook {
    pub stream: String,
    pub data: FutureDepthEvent,
}

/// A snapshot of the spot book, as the venue's endpoint returns it.
#[allow(non_snake_case)]
pub struct SpotDepthSnapShot {
    pub lastUpdateId: u64,
    pub bids: Vec<(String, String)>,
    pub asks: Vec<(String, String)>,
}

/// A depth update of the spot venue, as it is sent.
#[allow(non_snake_case)]
pub struct SpotDepthEvent {
    pub e: String,
    pub E: u64,
    pub s: String,
    pub U: u64,
    pub u: u64,
    pub b: Vec<(String, String)>,
    pub a: Vec<(String, String)>,
}

/// What a parsed depth message must say, field by field.
pub open spec fn update_holds(
    r: OrderbookUpdateStream,
    bids: Seq<Level>,
    asks: Seq<Level>,
    trade_time: u64,
    event_time: u64,
    exchange: Seq<char>,
    first_update_id: u64,
    final_update_id: u64,
    previous_final_update_id: Option<u64>,
) -> bool {
    &&& r.bids@ == bids
    &&& r.asks@ == asks
    &&& r.trade_time == trade_time
    &&& r.event_time == event_time
    &&& r.last_update_exchange@ == exchange
    &&& r.first_update_id == first_update_id
    &&& r.final_update_id == final_update_id
    &&& r.previous_final_update_id == previous_final_update_id
}

/// Parses a derivatives depth update. It carries the final id of the update
/// before it, its own id range, and both of the venue's times. `None` where
/// a price or a size does not parse.
pub fn generate_future_orderbook_update(update: &BinanceWebsocketFutureDiffBook) -> (r: Option<
    OrderbookUpdateStream,
>)
    ensures
        match (levels_of(update.data.b@), levels_of(update.data.a@)) {
            (Some(bids), Some(asks)) => r matches Some(ev) && update_holds(
                ev,
                bids,
                asks,
                update.data.T,
                update.data.E,
                "Binance"@,
                update.data.U,
                update.data.u,
                Some(update.data.pu),
            ),
            _ => r is None,
        },
{
    match (parse_levels(&update.data.b), parse_levels(&update.data.a)) {
        (Some(bids), Some(asks)) => Some(
            OrderbookUpdateStream {
                bids,
                asks,
                trade_time: update.data.T,
                event_time: update.data.E,
                last_update_exchange: "Binance".to_owned(),
                first_update_id: update.data.U,
                final_update_id: update.data.u,
                previous_final_update_id: Some(update.data.pu),
            },
        ),
        _ => None,
    }
}

/// Parses a spot depth update. The spot stream sends one time only, which
/// stands for both the trade time and the event time.
pub fn generate_spot_orderbook_update(update: &SpotDepthEvent) -> (r: Option<
    OrderbookUpdateStream,
>)
    ensures
        match (levels_of(update.b@), levels_of(update.a@)) {
            (Some(bids), Some(asks)) => r matches Some(ev) && update_holds(
                ev,
                bids,
                asks,
                update.E,
                update.E,
                "Binance"@,
                update.U,
                update.u,
                None,
            ),
            _ => r is None,
        },
{
    match (parse_levels(&update.b), parse_levels(&update.a)) {
        (Some(bids), Some(asks)) => Some(
            OrderbookUpdateStream {
                bids,
                asks,
                trade_time: update.E,
                event_time: update.E,
                last_update_exchange: "Binance".to_owned(),
                first_update_id: update.U,
                final_update_id: update.u,
                previous_final_update_id: None,
            },
        ),
        _ => None,
    }
}

/// What a parsed snapshot must say.
pub open spec fn snapshot_holds(
    r: Option<DepthSnapshot>,
    last_update_id: u64,
    bids: Seq<(String, String)>,
    asks: Seq<(String, String)>,
) -> bool {
    match (levels_of(bids), levels_of(asks)) {
        (Some(b), Some(a)) => r matches Some(snap) && snap.last_update_id == last_update_id
            && snap.bids@ == b && snap.asks@ == a,
        _ => r is None,
    }
}

/// Parses the two sides of a snapshot.
pub fn parse_snapshot(
    last_update_id: u64,
    bids: &Vec<(String, String)>,
    asks: &Vec<(String, String)>,
) -> (r: Option<DepthSnapshot>)
    ensures
        snapshot_holds(r, last_update_id, bids@, asks@),
{
    match (parse_levels(bids), parse_levels(asks)) {
        (Some(bids), Some(asks)) => Some(DepthSnapshot { last_update_id, bids, asks }),
        _ => None,
    }
}

impl FutureDepthSnapShot {
    /// The snapshot, parsed: `None` where a price or a size does not parse.
    pub fn to_snapshot(&self) -> (r: Option<DepthSnapshot>)
        ensures
            snapshot_holds(r, self.lastUpdateId, self.bids@, self.asks@),
    {
        parse_snapshot(self.lastUpdateId, &self.bids, &self.asks)
    }
}

impl SpotDepthSnapShot {
    /// The snapshot, parsed: `None` where a price or a size does not parse.
    pub fn to_snapshot(&self) -> (r: Option<DepthSnapshot>)
        ensures
            snapshot_holds(r, self.lastUpdateId, self.bids@, self.asks@),
    {
        parse_snapshot(self.lastUpdateId, &self.bids, &self.asks)
    }
}

/// The subscription that a Bitget message answers or belongs to.
#[allow(non_snake_case)]
pub struct BitgetStreamArg {
    pub instType: String,
    pub channel: String,
    pub instId: String,
}

/// Bitget's answer to a subscription.
pub struct BitgetStreamConfirm {
    pub event: String,
    pub arg: BitgetStreamArg,
}

/// One book of a Bitget depth message, as it is sent. Its time is sent as
/// text.
pub struct DepthData {
    pub asks: Vec<(String, String)>,
    pub bids: Vec<(String, String)>,
    pub checksum: i64,
    pub ts: String,
}

/// A Bitget depth message, as it is sent: a full book where `action` is
/// "snapshot", changes to it where `action` is "update".
pub struct BitgetDepthMessage {
    pub action: String,
    pub arg: BitgetStreamArg,
    pub data: Vec<DepthData>,
}

/// What a Bitget depth message carries.
#[derive(Clone, Copy, Debug, PartialEq, Eq, Structural)]
pub enum BitgetAction {
    Snapshot,
    Update,
}

/// What the action text of a depth message names.
pub open spec fn bitget_action_of(action: Seq<char>) -> Option<BitgetAction> {
    if action == "snapshot"@ {
        Some(BitgetAction::Snapshot)
    } else if action == "update"@ {
        Some(BitgetAction::Update)
    } else {
        None
    }
}

impl BitgetDepthMessage {
    /// What the message carries; `None` for an action that is neither
    /// "snapshot" nor "update".
    pub fn kind(&self) -> (r: Option<BitgetAction>)
        ensures
            r == bitget_action_of(self.action@),
    {
        let snapshot = "snapshot".to_owned();
        let update = "update".to_owned();
        if self.action == snapshot {
            Some(BitgetAction::Snapshot)
        } else if self.action == update {
            Some(BitgetAction::Update)
        } else {
            None
        }
    }

    /// The first book of the message as a snapshot whose id is the book's
    /// time. `None` where the message holds no book, or the time, a price
    /// or a size does not parse.
    pub fn to_snapshot(&self) -> (r: Option<DepthSnapshot>)
        ensures
            self.data@.len() == 0 ==> r is None,
            self.data@.len() > 0 ==> match whole_of(self.data@[0].ts@) {
                Some(ts) => snapshot_holds(r, ts, self.data@[0].bids@, self.data@[0].asks@),
                None => r is None,
            },
    {
        if self.data.len() == 0 {
            return None;
        }
        match parse_whole(self.data[0].ts.as_str()) {
            Some(ts) => parse_snapshot(ts, &self.data[0].bids, &self.data[0].asks),
            None => None,
        }
    }

    /// The first book of the message as an update. The venue numbers no
    /// updates, so the book's time stands for the update's final id and
    /// the update claims to start at id zero: it is stale where its time is
    /// not newer than the book, and in sequence otherwise. `None` where the
    /// message holds no book, or the time, a price or a size does not
    /// parse.
    pub fn to_update(&self) -> (r: Option<OrderbookUpdateStream>)
        ensures
            self.data@.len() == 0 ==> r is None,
            self.data@.len() > 0 ==> match (
                whole_of(self.data@[0].ts@),
                levels_of(self.data@[0].bids@),
                levels_of(self.data@[0].asks@),
            ) {
                (Some(ts), Some(bids), Some(asks)) => r matches Some(ev) && update_holds(
                    ev,
                    bids,
                    asks,
                    ts,
                    ts,
                    "bitget"@,
                    0,
                    ts,
                    None,
                ),
                _ => r is None,
            },
    {
        if self.data.len() == 0 {
            return None;
        }
        let ts = parse_whole(self.data[0].ts.as_str());
        let bids = parse_levels(&self.data[0].bids);
        let asks = parse_levels(&self.data[0].asks);
        match (ts, bids, asks) {
            (Some(ts), Some(bids), Some(asks)) => Some(
                OrderbookUpdateStream {
                    bids,
                    asks,
                    trade_time: ts,
                    event_time: ts,
                    last_update_exchange: "bitget".to_owned(),
                    first_update_id: 0,
                    final_update_id: ts,
                    previous_final_update_id: None,
                },
            ),
            _ => None,
        }
    }
}

} // verus!
