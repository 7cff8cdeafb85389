//! Kraken: the ticker and trade endpoints for `XXBTZUSD`.
use vstd::prelude::*;
use vstd::string::*;
use crate::clock::{naive_text, observed_text, utc_text_or_epoch, utc_text_or_epoch_of, Timestamp};
pub use crate::model::BtcPrice;
use crate::model::{first_n, side_from_code, side_of_code, FetchError, Side};

verus! {

pub const TICKER_URL: &'static str = "https://api.kraken.com/0/public/Ticker?pair=XXBTZUSD";

pub const TRADES_URL: &'static str = "https://api.kraken.com/0/public/Trades?pair=XBTUSD";

/// The key under which Kraken files the pair's ticker and trades.
pub const PAIR_KEY: &'static str = "XXBTZUSD";

/// One ticker entry; `c` is the last trade closed, price first.
#[derive(Debug, Clone)]
pub struct KrakenTicker {
    pub c: Vec<String>,
}

/// The ticker answer: Kraken's own error list, and the tickers keyed by
/// pair.
#[derive(Debug, Clone)]
pub struct KrakenResponse {
    pub error: Vec<String>,
    pub result: Vec<(String, KrakenTicker)>,
}

/// One trade row as far as it could be read: price, volume, whole seconds
/// and the one-letter direction code, each absent where the row lacked it.
#[derive(Debug, Clone)]
pub struct RawTrade {
    pub price: Option<String>,
    pub volume: Option<String>,
    pub time: Option<i64>,
    pub side: Option<String>,
}

/// A trade in the form served to callers.
#[derive(Debug, Clone)]
pub struct Trade {
    pub price: String,
    pub volume: String,
    pub datetime: String,
    pub action: Side,
}

/// An absent text reads as empty.
pub open spec fn text_or_empty(t: Option<String>) -> Seq<char> {
    match t {
        Some(s) => s@,
        None => Seq::empty(),
    }
}

/// `t` is the served form of the raw row `raw`.
pub open spec fn trade_of_raw(t: Trade, raw: RawTrade) -> bool {
    &&& t.price@ == text_or_empty(raw.price)
    &&& t.volume@ == text_or_empty(raw.volume)
    &&& t.datetime@ == utc_text_or_epoch(
        match raw.time {
            Some(s) => s as int,
            None => 0,
        },
    )
    &&& t.action == match raw.side {
        Some(s) => side_of_code(s@),
        None => Side::Unknown,
    }
}

/// `i` is the first entry of `entries` filed under `key`.
pub open spec fn first_with_key(entries: Seq<(String, KrakenTicker)>, key: Seq<char>, i: int) -> bool {
    &&& 0 <= i < entries.len()
    &&& entries[i].0@ == key
    &&& forall|j: int| 0 <= j < i ==> (#[trigger] entries[j]).0@ != key
}

/// No entry of `entries` is filed under `key`.
pub open spec fn lacks_key(entries: Seq<(String, KrakenTicker)>, key: Seq<char>) -> bool {
    forall|j: int| 0 <= j < entries.len() ==> (#[trigger] entries[j]).0@ != key
}

/// The position of the first entry filed under `key`.
pub fn find_ticker(entries: &Vec<(String, KrakenTicker)>, key: &String) -> (r: Option<usize>)
    ensures
        match r {
            Some(i) => first_with_key(entries@, key@, i as int),
            None => lacks_key(entries@, key@),
        },
{
    let mut i: usize = 0;
    while i < entries.len()
        invariant
            i <= entries.len(),
            forall|j: int| 0 <= j < i ==> (#[trigger] entries@[j]).0@ != key@,
        decreases entries.len() - i,
    {
        if entries[i].0 == *key {
            return Some(i);
        }
        i = i + 1;
    }
    None
}

/// The quote for a ticker answer received at `observed_at`: the first text of
/// the pair's last-trade field. A non-empty error list or a missing pair is
/// `SchemaMismatch`, an empty last-trade field `EmptyResult`.
pub fn kraken_btc_price(response: &KrakenResponse, observed_at: &Timestamp) -> (r: Result<BtcPrice, FetchError>)
    ensures
        response.error.len() > 0 ==> r == Err::<BtcPrice, _>(FetchError::SchemaMismatch),
        response.error.len() == 0 && lacks_key(response.result@, PAIR_KEY@)
            ==> r == Err::<BtcPrice, _>(FetchError::SchemaMismatch),
        forall|i: int| response.error.len() == 0 && #[trigger] first_with_key(response.result@, PAIR_KEY@, i)
            ==> {
                let last = response.result@[i].1.c@;
                if last.len() == 0 {
                    r == Err::<BtcPrice, _>(FetchError::EmptyResult)
                } else {
                    match naive_text(observed_at.secs as int, observed_at.nanos as int) {
                        Some(t) => r is Ok && r->Ok_0.price@ == last[0]@ && r->Ok_0.time@ == t,
                        None => r == Err::<BtcPrice, _>(FetchError::TimestampParseFailed),
                    }
                }
            },
{
    if response.error.len() > 0 {
        return Err(FetchError::SchemaMismatch);
    }
    let key = String::from_str(PAIR_KEY);
    let found = find_ticker(&response.result, &key);
    let i = match found {
        Some(i) => i,
        None => return Err(FetchError::SchemaMismatch),
    };
    let last = &response.result[i].1.c;
    if last.len() == 0 {
        return Err(FetchError::EmptyResult);
    }
    let time = observed_text(observed_at)?;
    Ok(BtcPrice { price: last[0].clone(), time })
}

/// The served form of one raw row: absent texts empty, an absent time the
/// epoch, an absent or unrecognised code `Unknown`.
pub fn trade_from_raw(raw: &RawTrade) -> (t: Trade)
    ensures
        trade_of_raw(t, *raw),
{
    let price = match &raw.price {
        Some(p) => p.clone(),
        None => String::new(),
    };
    let volume = match &raw.volume {
        Some(v) => v.clone(),
        None => String::new(),
    };
    let secs: i64 = match raw.time {
        Some(s) => s,
        None => 0,
    };
    let action = match &raw.side {
        Some(code) => side_from_code(code),
        None => Side::Unknown,
    };
    Trade { price, volume, datetime: utc_text_or_epoch_of(secs), action }
}

/// At most `limit` of the listed rows, the first ones in Kraken's order,
/// each in served form; `SchemaMismatch` when the answer held no trade list
/// for the pair.
pub fn kraken_btc_trades(rows: &Option<Vec<RawTrade>>, limit: usize) -> (r: Result<Vec<Trade>, FetchError>)
    ensures
        rows is None ==> r == Err::<Vec<Trade>, _>(FetchError::SchemaMismatch),
        rows is Some ==> {
            let listed = rows->Some_0@;
            &&& r is Ok
            &&& r->Ok_0@.len() <= limit
            &&& r->Ok_0@.len() == first_n(listed, limit as int).len()
            &&& forall|i: int| 0 <= i < r->Ok_0@.len() ==> trade_of_raw(#[trigger] r->Ok_0@[i], listed[i])
        },
{
    let rows = match rows {
        Some(rows) => rows,
        None => return Err(FetchError::SchemaMismatch),
    };
    let n: usize = if rows.len() < limit { rows.len() } else { limit };
    let mut trades: Vec<Trade> = Vec::new();
    let mut i: usize = 0;
    while i < n
        invariant
            n == first_n(rows@, limit as int).len(),
            n <= rows.len(),
            i <= n,
            trades.len() == i,
            forall|j: int| 0 <= j < i ==> trade_of_raw(#[trigger] trades@[j], rows@[j]),
        decreases n - i,
    {
        trades.push(trade_from_raw(&rows[i]));
        i = i + 1;
    }
    Ok(trades)
}

} // verus!
