//! Huobi: the market-trade endpoint for `btcusdt`, which serves both the
//! last price and the recent trades.
use vstd::prelude::*;
use crate::clock::{naive_text, observed_text, utc_text_or_epoch, utc_text_or_epoch_of, Timestamp};
pub use crate::model::BtcPrice;
use crate::model::{first_n, side_from_word, side_of_word, FetchError, Side};

verus! {

pub const TRADE_URL: &'static str = "https://api.huobi.pro/market/trade?symbol=btcusdt";

/// One entry of the trade list, its price as decimal text.
#[derive(Debug, Clone)]
pub struct TradeData {
    pub price: String,
}

/// The list of most recent trades, newest first.
#[derive(Debug, Clone)]
pub struct TickData {
    pub data: Vec<TradeData>,
}

/// The answer read for a price.
#[derive(Debug, Clone)]
pub struct TradeResponse {
    pub tick: TickData,
}

/// One trade in full: `ts` in milliseconds, quantities as decimal text and
/// the direction word as Huobi sent it.
#[derive(Debug, Clone)]
pub struct RawTrade {
    pub ts: u64,
    pub price: String,
    pub amount: String,
    pub direction: String,
}

/// The trade list read for recent trades.
#[derive(Debug, Clone)]
pub struct Tick {
    pub data: Vec<RawTrade>,
}

/// The answer read for recent trades.
#[derive(Debug, Clone)]
pub struct Trades {
    pub tick: Tick,
}

/// A trade in the form served to callers.
#[derive(Debug, Clone)]
pub struct BtcTrade {
    pub timestamp: String,
    pub price: String,
    pub amount: String,
    pub direction: Side,
}

/// `t` is the served form of the raw trade `raw`.
pub open spec fn trade_of_raw(t: BtcTrade, raw: RawTrade) -> bool {
    &&& t.timestamp@ == utc_text_or_epoch(raw.ts as int / 1000)
    &&& t.price@ == raw.price@
    &&& t.amount@ == raw.amount@
    &&& t.direction == side_of_word(raw.direction@)
}

/// The quote for a trade-list answer received at `observed_at`: the price of
/// the first listed trade, or `EmptyResult` when the list is empty.
pub fn huobi_btc_price(response: TradeResponse, observed_at: &Timestamp) -> (r: Result<BtcPrice, FetchError>)
    ensures
        response.tick.data.len() == 0 ==> r == Err::<BtcPrice, _>(FetchError::EmptyResult),
        response.tick.data.len() > 0 ==> match naive_text(observed_at.secs as int, observed_at.nanos as int) {
            Some(t) => r is Ok && r->Ok_0.price@ == response.tick.data@[0].price@ && r->Ok_0.time@ == t,
            None => r == Err::<BtcPrice, _>(FetchError::TimestampParseFailed),
        },
{
    if response.tick.data.len() == 0 {
        return Err(FetchError::EmptyResult);
    }
    let time = observed_text(observed_at)?;
    let price = response.tick.data[0].price.clone();
    Ok(BtcPrice { price, time })
}

/// At most `limit` of the listed trades, the first ones in Huobi's order,
/// each with its time as UTC text and its direction read as a side.
pub fn huobi_btc_trades(response: &Trades, limit: usize) -> (r: Vec<BtcTrade>)
    ensures
        r@.len() <= limit,
        r@.len() == first_n(response.tick.data@, limit as int).len(),
        forall|i: int| 0 <= i < r@.len() ==> trade_of_raw(#[trigger] r@[i], response.tick.data@[i]),
{
    let data = &response.tick.data;
    let n: usize = if data.len() < limit { data.len() } else { limit };
    let mut trades: Vec<BtcTrade> = Vec::new();
    let mut i: usize = 0;
    while i < n
        invariant
            n == first_n(data@, limit as int).len(),
            n <= data.len(),
            i <= n,
            trades.len() == i,
            forall|j: int| 0 <= j < i ==> trade_of_raw(#[trigger] trades@[j], data@[j]),
        decreases n - i,
    {
        let raw = &data[i];
        let secs = (raw.ts / 1000) as i64;
        trades.push(BtcTrade {
            timestamp: utc_text_or_epoch_of(secs),
            price: raw.price.clone(),
            amount: raw.amount.clone(),
            direction: side_from_word(&raw.direction),
        });
        i = i + 1;
    }
    trades
}

} // verus!
