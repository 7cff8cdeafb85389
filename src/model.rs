//! The canonical records that every exchange adapter produces.
use vstd::prelude::*;
use vstd::string::*;

verus! {

/// The one error taxonomy shared by every adapter, the poller and the store.
#[derive(Debug, Clone, Copy, PartialEq, Eq, Structural)]
pub enum FetchError {
    /// The exchange could not be reached.
    UpstreamUnavailable,
    /// The exchange answered with a shape the adapter does not understand, or
    /// with an error of its own in place of the data.
    SchemaMismatch,
    /// The answer was well formed but held no most-recent trade.
    EmptyResult,
    /// The store answered with a non-success status or could not be reached.
    StorageWriteFailed,
    /// A locally produced timestamp could not be formatted or read back.
    TimestampParseFailed,
}

/// The exchanges this library knows how to talk to.
#[derive(Debug, Clone, Copy, PartialEq, Eq, Structural)]
pub enum Exchange {
    Binance,
    Huobi,
    Kraken,
}

/// Direction of a trade. `Unknown` is kept apart from both real directions.
#[derive(Debug, Clone, Copy, PartialEq, Eq, Structural)]
pub enum Side {
    Buy,
    Sell,
    Unknown,
}

impl Side {
    /// The lower-case word under which the side is published.
    pub fn as_word(&self) -> (r: &'static str)
        ensures
            r@ == side_word(*self),
    {
        match self {
            Side::Buy => "buy",
            Side::Sell => "sell",
            Side::Unknown => "unknown",
        }
    }
}

pub open spec fn side_word(s: Side) -> Seq<char> {
    match s {
        Side::Buy => "buy"@,
        Side::Sell => "sell"@,
        Side::Unknown => "unknown"@,
    }
}

/// The side named by a one-letter direction code: `b` buys, `s` sells.
pub open spec fn side_of_code(code: Seq<char>) -> Side {
    if code == "b"@ {
        Side::Buy
    } else if code == "s"@ {
        Side::Sell
    } else {
        Side::Unknown
    }
}

/// The side named by a direction word: `buy` or `sell`.
pub open spec fn side_of_word(word: Seq<char>) -> Side {
    if word == "buy"@ {
        Side::Buy
    } else if word == "sell"@ {
        Side::Sell
    } else {
        Side::Unknown
    }
}

/// A direction code other than `b` and `s` is never read as a buy or a sell.
pub proof fn unrecognised_code_is_unknown(code: Seq<char>)
    requires
        code != "b"@,
        code != "s"@,
    ensures
        side_of_code(code) == Side::Unknown,
        side_of_code(code) != Side::Buy,
        side_of_code(code) != Side::Sell,
{
}

/// A side written out as its word and read back as a direction word is the
/// same side, `Unknown` included.
pub proof fn side_word_round_trip(s: Side)
    ensures
        side_of_word(side_word(s)) == s,
{
    reveal_strlit("buy");
    reveal_strlit("sell");
    reveal_strlit("unknown");
    assert("unknown"@.len() != "buy"@.len());
    assert("unknown"@.len() != "sell"@.len());
    assert("sell"@.len() != "buy"@.len());
}

/// Reads a one-letter direction code; anything but `b` or `s` is `Unknown`.
pub fn side_from_code(code: &String) -> (r: Side)
    ensures
        r == side_of_code(code@),
{
    let buy = String::from_str("b");
    let sell = String::from_str("s");
    if *code == buy {
        Side::Buy
    } else if *code == sell {
        Side::Sell
    } else {
        Side::Unknown
    }
}

/// Reads a direction word; anything but `buy` or `sell` is `Unknown`.
pub fn side_from_word(word: &String) -> (r: Side)
    ensures
        r == side_of_word(word@),
{
    let buy = String::from_str("buy");
    let sell = String::from_str("sell");
    if *word == buy {
        Side::Buy
    } else if *word == sell {
        Side::Sell
    } else {
        Side::Unknown
    }
}

/// A last-traded price, carried as the exchange's own decimal text, and the
/// local time at which it was received.
#[derive(Debug, Clone)]
pub struct BtcPrice {
    pub price: String,
    pub time: String,
}

/// One level of an order book: a price and the quantity offered at it.
#[derive(Debug, Clone)]
pub struct OrderBookLevel {
    pub price: String,
    pub quantity: String,
}

/// The first `n` elements of `s`, or all of it when it is shorter.
pub open spec fn first_n<T>(s: Seq<T>, n: int) -> Seq<T> {
    if s.len() <= n {
        s
    } else {
        s.take(n)
    }
}

} // verus!
