//! Binance: the ticker, recent-trade and depth endpoints for `BTCUSDT`.
use vstd::prelude::*;
use crate::clock::{naive_text, observed_text, Timestamp};
pub use crate::model::BtcPrice;
use crate::model::{first_n, FetchError, OrderBookLevel};

verus! {

pub const TICKER_URL: &'static str = "https://api.binance.com/api/v3/ticker/price?symbol=BTCUSDT";

pub const TRADES_URL: &'static str = "https://api.binance.com/api/v3/trades?symbol=BTCUSDT&limit=20";

pub const DEPTH_URL: &'static str = "https://api.binance.com/api/v3/depth?symbol=BTCUSDT&limit=10";

/// The ticker answer: the pair and its last traded price.
#[derive(Debug, Clone)]
pub struct TickerPrice {
    pub symbol: String,
    pub price: String,
}

/// One trade as Binance lists it; `time` is in milliseconds.
#[derive(Debug, Clone)]
pub struct RecentTrade {
    pub id: i64,
    pub price: String,
    pub qty: String,
    pub time: i64,
}

/// The recent trades, as Binance ordered them, and when they were received.
#[derive(Debug, Clone)]
pub struct BtcTrades {
    pub trades: Vec<RecentTrade>,
    pub time: String,
}

/// The buy side of the book, best price first.
#[derive(Debug, Clone)]
pub struct Bids {
    pub bids: Vec<OrderBookLevel>,
}

/// The sell side of the book, best price first.
#[derive(Debug, Clone)]
pub struct Asks {
    pub asks: Vec<OrderBookLevel>,
}

/// The depth answer: each level a row of `[price, quantity]` text.
#[derive(Debug, Clone)]
pub struct OrderBook {
    pub last_update_id: i64,
    pub bids: Vec<Vec<String>>,
    pub asks: Vec<Vec<String>>,
}

/// A depth row carries at least a price and a quantity.
pub open spec fn row_well_formed(row: Seq<String>) -> bool {
    row.len() >= 2
}

/// `l` is the level that the depth row `row` describes.
pub open spec fn level_of_row(l: OrderBookLevel, row: Seq<String>) -> bool {
    l.price@ == row[0]@ && l.quantity@ == row[1]@
}

/// Every one of the first `n` rows is well formed.
pub open spec fn rows_well_formed(rows: Seq<Vec<String>>, n: int) -> bool {
    forall|i: int| 0 <= i < n ==> row_well_formed(#[trigger] rows[i]@)
}

/// `levels` are the first `depth` rows of `rows`, in their order.
pub open spec fn levels_of_rows(levels: Seq<OrderBookLevel>, rows: Seq<Vec<String>>, depth: int) -> bool {
    &&& levels.len() == first_n(rows, depth).len()
    &&& forall|i: int| 0 <= i < levels.len() ==> level_of_row(#[trigger] levels[i], rows[i]@)
}

/// The first `depth` rows of one side of the book as levels, order kept;
/// `SchemaMismatch` when one of them lacks a price or a quantity.
pub fn levels_from_rows(rows: &Vec<Vec<String>>, depth: usize) -> (r: Result<Vec<OrderBookLevel>, FetchError>)
    ensures
        r is Ok <==> rows_well_formed(rows@, first_n(rows@, depth as int).len() as int),
        r is Err ==> r == Err::<Vec<OrderBookLevel>, _>(FetchError::SchemaMismatch),
        r is Ok ==> levels_of_rows(r->Ok_0@, rows@, depth as int),
{
    let n: usize = if rows.len() < depth { rows.len() } else { depth };
    let mut levels: Vec<OrderBookLevel> = Vec::new();
    let mut i: usize = 0;
    while i < n
        invariant
            n == first_n(rows@, depth as int).len(),
            n <= rows.len(),
            i <= n,
            levels.len() == i,
            rows_well_formed(rows@, i as int),
            forall|j: int| 0 <= j < i ==> level_of_row(#[trigger] levels@[j], rows@[j]@),
        decreases n - i,
    {
        let row = &rows[i];
        if row.len() < 2 {
            return Err(FetchError::SchemaMismatch);
        }
        levels.push(OrderBookLevel { price: row[0].clone(), quantity: row[1].clone() });
        i = i + 1;
    }
    Ok(levels)
}

/// The quote for a ticker answer received at `observed_at`: the price text
/// exactly as Binance sent it.
pub fn binance_btc_price(ticker: TickerPrice, observed_at: &Timestamp) -> (r: Result<BtcPrice, FetchError>)
    ensures
        match naive_text(observed_at.secs as int, observed_at.nanos as int) {
            Some(t) => r is Ok && r->Ok_0.price@ == ticker.price@ && r->Ok_0.time@ == t,
            None => r == Err::<BtcPrice, _>(FetchError::TimestampParseFailed),
        },
{
    let time = observed_text(observed_at)?;
    Ok(BtcPrice { price: ticker.price, time })
}

/// At most `limit` of the listed trades, the first ones in Binance's order,
/// stamped with the time they were received.
pub fn binance_btc_trades(trades: Vec<RecentTrade>, limit: usize, observed_at: &Timestamp) -> (r: Result<BtcTrades, FetchError>)
    ensures
        match naive_text(observed_at.secs as int, observed_at.nanos as int) {
            Some(t) => r is Ok && r->Ok_0.trades@ == first_n(trades@, limit as int)
                && r->Ok_0.trades@.len() <= limit && r->Ok_0.time@ == t,
            None => r == Err::<BtcTrades, _>(FetchError::TimestampParseFailed),
        },
{
    let time = observed_text(observed_at)?;
    let mut kept = trades;
    kept.truncate(limit);
    Ok(BtcTrades { trades: kept, time })
}

/// The top `depth` levels of each side of the book, in Binance's order;
/// `SchemaMismatch` when one of those rows lacks a price or a quantity.
pub fn binance_order_book_data(book: &OrderBook, depth: usize) -> (r: Result<(Bids, Asks), FetchError>)
    ensures
        r is Ok <==> rows_well_formed(book.bids@, first_n(book.bids@, depth as int).len() as int)
            && rows_well_formed(book.asks@, first_n(book.asks@, depth as int).len() as int),
        r is Err ==> r == Err::<(Bids, Asks), _>(FetchError::SchemaMismatch),
        r is Ok ==> levels_of_rows(r->Ok_0.0.bids@, book.bids@, depth as int)
            && levels_of_rows(r->Ok_0.1.asks@, book.asks@, depth as int),
{
    let bids = levels_from_rows(&book.bids, depth)?;
    let asks = levels_from_rows(&book.asks, depth)?;
    Ok((Bids { bids }, Asks { asks }))
}

} // verus!
