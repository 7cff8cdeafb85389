//! The read path: an adapter's result becomes either the canonical value or
//! one generic "unavailable" outcome, with no detail of the failure.
use vstd::prelude::*;
use crate::clock::{parse_naive_datetime, parsed_naive, Timestamp};
use crate::model::{BtcPrice, FetchError};

verus! {

/// What a read request answers.
#[derive(Debug, Clone)]
pub enum Reply<T> {
    Served(T),
    Unavailable,
}

/// A write that a read asks for on the side.
#[derive(Debug, Clone)]
pub struct StoreWrite {
    pub at: Timestamp,
    pub price: String,
}

/// The answer to a price request, and the write that goes with it, if any.
#[derive(Debug, Clone)]
pub struct PriceReply {
    pub reply: Reply<BtcPrice>,
    pub write: Option<StoreWrite>,
}

/// The value on success; any failure is the one generic outcome.
pub fn serve<T>(fetched: Result<T, FetchError>) -> (r: Reply<T>)
    ensures
        match fetched {
            Ok(v) => r == Reply::Served(v),
            Err(_) => r is Unavailable,
        },
{
    match fetched {
        Ok(v) => Reply::Served(v),
        Err(_) => Reply::Unavailable,
    }
}

/// A price request. A failed fetch is unavailable and writes nothing. A
/// quote is served as it came; it is also recorded when `also_persist` asks
/// for it and its time reads back, and the write never changes the answer.
pub fn answer_price(fetched: Result<BtcPrice, FetchError>, also_persist: bool) -> (r: PriceReply)
    ensures
        fetched is Err ==> r.reply is Unavailable && r.write is None,
        fetched is Ok ==> {
            &&& r.reply is Served
            &&& r.reply->Served_0.price@ == fetched->Ok_0.price@
            &&& r.reply->Served_0.time@ == fetched->Ok_0.time@
            &&& match parsed_naive(fetched->Ok_0.time@) {
                Some(at) => if also_persist {
                    r.write is Some && r.write->Some_0.at == at
                        && r.write->Some_0.price@ == fetched->Ok_0.price@
                } else {
                    r.write is None
                },
                None => r.write is None,
            }
        },
{
    match fetched {
        Err(_) => PriceReply { reply: Reply::Unavailable, write: None },
        Ok(q) => {
            let write = if also_persist {
                match parse_naive_datetime(q.time.as_str()) {
                    Some(at) => Some(StoreWrite { at, price: q.price.clone() }),
                    None => None,
                }
            } else {
                None
            };
            PriceReply { reply: Reply::Served(q), write }
        },
    }
}

} // verus!
