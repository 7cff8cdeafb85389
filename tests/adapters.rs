use btc_feeds::binance::{binance_btc_price, binance_btc_trades, binance_order_book_data, OrderBook, RecentTrade, TickerPrice};
use btc_feeds::huobi::{huobi_btc_price, huobi_btc_trades, RawTrade as HuobiRawTrade, Tick, TickData, TradeData, TradeResponse, Trades};
use btc_feeds::kraken::{kraken_btc_price, kraken_btc_trades, KrakenResponse, KrakenTicker, RawTrade as KrakenRawTrade};
use btc_feeds::model::{side_from_code, side_from_word, FetchError, Side};
use btc_feeds::Timestamp;

fn stamp() -> Timestamp {
    Timestamp { secs: 1431648000, nanos: 0 }
}

#[test]
fn binance_price_is_upstream_text() {
    let ticker = TickerPrice { symbol: "BTCUSDT".to_string(), price: "67000.50".to_string() };
    let q = binance_btc_price(ticker, &stamp()).unwrap();
    assert_eq!(q.price, "67000.50");
    assert_eq!(q.time, "2015-05-15 00:00:00");
}

#[test]
fn binance_price_time_keeps_fraction() {
    let ticker = TickerPrice { symbol: "BTCUSDT".to_string(), price: "1.0".to_string() };
    let t = Timestamp { secs: 1431648000, nanos: 123456789 };
    let q = binance_btc_price(ticker, &t).unwrap();
    assert_eq!(q.time, "2015-05-15 00:00:00.123456789");
}

#[test]
fn binance_price_unrepresentable_time() {
    let ticker = TickerPrice { symbol: "BTCUSDT".to_string(), price: "1.0".to_string() };
    let t = Timestamp { secs: i64::MAX, nanos: 0 };
    assert_eq!(binance_btc_price(ticker, &t).unwrap_err(), FetchError::TimestampParseFailed);
}

fn binance_trade(id: i64) -> RecentTrade {
    RecentTrade { id, price: format!("{}.0", id), qty: "0.1".to_string(), time: 1000 * id }
}

#[test]
fn binance_trades_capped_at_limit() {
    let upstream: Vec<RecentTrade> = (0..50).map(binance_trade).collect();
    let r = binance_btc_trades(upstream, 20, &stamp()).unwrap();
    assert_eq!(r.trades.len(), 20);
    assert_eq!(r.trades[0].id, 0);
    assert_eq!(r.trades[19].id, 19);
    assert_eq!(r.time, "2015-05-15 00:00:00");
}

#[test]
fn binance_trades_fewer_than_limit() {
    let upstream: Vec<RecentTrade> = (0..3).map(binance_trade).collect();
    let r = binance_btc_trades(upstream, 20, &stamp()).unwrap();
    assert_eq!(r.trades.len(), 3);
    assert_eq!(r.trades[2].price, "2.0");
}

fn row(p: &str, q: &str) -> Vec<String> {
    vec![p.to_string(), q.to_string()]
}

#[test]
fn binance_order_book_keeps_order() {
    let book = OrderBook {
        last_update_id: 7,
        bids: vec![row("100", "1"), row("99", "2"), row("98", "3")],
        asks: vec![row("101", "4"), row("102", "5")],
    };
    let (bids, asks) = binance_order_book_data(&book, 2).unwrap();
    assert_eq!(bids.bids.len(), 2);
    assert_eq!(bids.bids[0].price, "100");
    assert_eq!(bids.bids[1].quantity, "2");
    assert_eq!(asks.asks.len(), 2);
    assert_eq!(asks.asks[1].price, "102");
}

#[test]
fn binance_order_book_short_row() {
    let book = OrderBook { last_update_id: 7, bids: vec![row("100", "1")], asks: vec![vec!["101".to_string()]] };
    assert_eq!(binance_order_book_data(&book, 10).unwrap_err(), FetchError::SchemaMismatch);
}

#[test]
fn huobi_price_first_trade() {
    let resp = TradeResponse {
        tick: TickData { data: vec![TradeData { price: "67001.2".to_string() }, TradeData { price: "5".to_string() }] },
    };
    let q = huobi_btc_price(resp, &stamp()).unwrap();
    assert_eq!(q.price, "67001.2");
    assert_eq!(q.time, "2015-05-15 00:00:00");
}

#[test]
fn huobi_price_empty_list() {
    let resp = TradeResponse { tick: TickData { data: vec![] } };
    assert_eq!(huobi_btc_price(resp, &stamp()).unwrap_err(), FetchError::EmptyResult);
}

fn huobi_raw(ts: u64, direction: &str) -> HuobiRawTrade {
    HuobiRawTrade { ts, price: "67000".to_string(), amount: "0.5".to_string(), direction: direction.to_string() }
}

#[test]
fn huobi_trades_normalised() {
    let resp = Trades { tick: Tick { data: vec![huobi_raw(1431648000123, "buy"), huobi_raw(0, "sell"), huobi_raw(5, "x")] } };
    let r = huobi_btc_trades(&resp, 20);
    assert_eq!(r.len(), 3);
    assert_eq!(r[0].timestamp, "2015-05-15 00:00:00 UTC");
    assert_eq!(r[0].direction, Side::Buy);
    assert_eq!(r[1].timestamp, "1970-01-01 00:00:00 UTC");
    assert_eq!(r[1].direction, Side::Sell);
    assert_eq!(r[2].direction, Side::Unknown);
    assert_eq!(r[0].amount, "0.5");
}

#[test]
fn huobi_trades_capped_and_empty() {
    let many = Trades { tick: Tick { data: (0..50).map(|i| huobi_raw(i, "buy")).collect() } };
    assert_eq!(huobi_btc_trades(&many, 20).len(), 20);
    let none = Trades { tick: Tick { data: vec![] } };
    assert!(huobi_btc_trades(&none, 20).is_empty());
}

fn kraken_response(error: Vec<String>, key: &str, c: Vec<String>) -> KrakenResponse {
    KrakenResponse { error, result: vec![(key.to_string(), KrakenTicker { c })] }
}

#[test]
fn kraken_price_last_close() {
    let resp = kraken_response(vec![], "XXBTZUSD", vec!["66999.9".to_string(), "0.01".to_string()]);
    let q = kraken_btc_price(&resp, &stamp()).unwrap();
    assert_eq!(q.price, "66999.9");
    assert_eq!(q.time, "2015-05-15 00:00:00");
}

#[test]
fn kraken_price_errors() {
    let upstream = kraken_response(vec!["EGeneral:Busy".to_string()], "XXBTZUSD", vec!["1".to_string()]);
    assert_eq!(kraken_btc_price(&upstream, &stamp()).unwrap_err(), FetchError::SchemaMismatch);
    let missing = kraken_response(vec![], "XETHZUSD", vec!["1".to_string()]);
    assert_eq!(kraken_btc_price(&missing, &stamp()).unwrap_err(), FetchError::SchemaMismatch);
    let empty = kraken_response(vec![], "XXBTZUSD", vec![]);
    assert_eq!(kraken_btc_price(&empty, &stamp()).unwrap_err(), FetchError::EmptyResult);
}

fn kraken_raw(time: Option<i64>, side: Option<&str>) -> KrakenRawTrade {
    KrakenRawTrade {
        price: Some("67000.1".to_string()),
        volume: Some("0.2".to_string()),
        time,
        side: side.map(|s| s.to_string()),
    }
}

#[test]
fn kraken_trades_normalised() {
    let rows = vec![
        kraken_raw(Some(1431648000), Some("b")),
        kraken_raw(Some(0), Some("s")),
        kraken_raw(None, Some("x")),
        KrakenRawTrade { price: None, volume: None, time: None, side: None },
    ];
    let r = kraken_btc_trades(&Some(rows), 20).unwrap();
    assert_eq!(r.len(), 4);
    assert_eq!(r[0].datetime, "2015-05-15 00:00:00 UTC");
    assert_eq!(r[0].action, Side::Buy);
    assert_eq!(r[1].action, Side::Sell);
    assert_eq!(r[2].action, Side::Unknown);
    assert_eq!(r[2].datetime, "1970-01-01 00:00:00 UTC");
    assert_eq!(r[3].price, "");
    assert_eq!(r[3].volume, "");
    assert_eq!(r[3].action, Side::Unknown);
}

#[test]
fn kraken_trades_capped_at_twenty() {
    let rows: Vec<KrakenRawTrade> = (0..100).map(|i| kraken_raw(Some(i), Some("b"))).collect();
    assert_eq!(kraken_btc_trades(&Some(rows), 20).unwrap().len(), 20);
}

#[test]
fn kraken_trades_missing_list() {
    assert_eq!(kraken_btc_trades(&None, 20).unwrap_err(), FetchError::SchemaMismatch);
    assert!(kraken_btc_trades(&Some(vec![]), 20).unwrap().is_empty());
}

#[test]
fn prices_stamped_now_succeed() {
    let now = btc_feeds::clock::now();
    let ticker = TickerPrice { symbol: "BTCUSDT".to_string(), price: "67000.50".to_string() };
    assert_eq!(binance_btc_price(ticker, &now).unwrap().price, "67000.50");
    let resp = TradeResponse { tick: TickData { data: vec![TradeData { price: "67000.50".to_string() }] } };
    assert_eq!(huobi_btc_price(resp, &now).unwrap().price, "67000.50");
    let resp = kraken_response(vec![], "XXBTZUSD", vec!["67000.50".to_string()]);
    assert_eq!(kraken_btc_price(&resp, &now).unwrap().price, "67000.50");
}

#[test]
fn side_codes() {
    assert_eq!(side_from_code(&"b".to_string()), Side::Buy);
    assert_eq!(side_from_code(&"s".to_string()), Side::Sell);
    assert_eq!(side_from_code(&"x".to_string()), Side::Unknown);
    assert_eq!(side_from_code(&"".to_string()), Side::Unknown);
    assert_eq!(side_from_code(&"buy".to_string()), Side::Unknown);
    assert_eq!(side_from_word(&"buy".to_string()), Side::Buy);
    assert_eq!(side_from_word(&"sell".to_string()), Side::Sell);
    assert_eq!(side_from_word(&"b".to_string()), Side::Unknown);
    assert_eq!(Side::Unknown.as_word(), "unknown");
}

#[test]
fn side_word_reads_back() {
    for side in [Side::Buy, Side::Sell, Side::Unknown] {
        assert_eq!(side_from_word(&side.as_word().to_string()), side);
    }
}
