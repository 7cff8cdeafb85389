//! The write path to the time-series store: the single-row insert statement
//! and how the store's answer is read.
use vstd::prelude::*;
use vstd::string::*;
use crate::clock::{sql_datetime_text, sql_text, Timestamp};
use crate::model::FetchError;

verus! {

/// Where the store listens unless told otherwise.
pub const DEFAULT_ENDPOINT: &'static str = "http://localhost:8123/";

/// The store's address, fixed when the persister is made.
pub struct Persister {
    pub endpoint: String,
}

impl Persister {
    pub fn new(endpoint: String) -> (p: Persister)
        ensures
            p.endpoint@ == endpoint@,
    {
        Persister { endpoint }
    }
}

impl Default for Persister {
    fn default() -> (p: Persister)
        ensures
            p.endpoint@ == DEFAULT_ENDPOINT@,
    {
        Persister { endpoint: String::from_str(DEFAULT_ENDPOINT) }
    }
}

/// The statement that records `price` at the instant whose text is `at`.
pub open spec fn insert_text(at: Seq<char>, price: Seq<char>) -> Seq<char> {
    "INSERT INTO btc_price (timestamp, price) VALUES ('"@ + at + "', '"@ + price + "')"@
}

/// The single-row insert of `price` at `at`, the instant written to the
/// second; `TimestampParseFailed` where the instant has no such text.
pub fn insert_statement(at: &Timestamp, price: &str) -> (r: Result<String, FetchError>)
    ensures
        match sql_text(at.secs as int, at.nanos as int) {
            Some(t) => r is Ok && r->Ok_0@ == insert_text(t, price@),
            None => r == Err::<String, _>(FetchError::TimestampParseFailed),
        },
{
    let when = match sql_datetime_text(at) {
        Some(t) => t,
        None => return Err(FetchError::TimestampParseFailed),
    };
    let mut q = String::from_str("INSERT INTO btc_price (timestamp, price) VALUES ('");
    q.append(when.as_str());
    q.append("', '");
    q.append(price);
    q.append("')");
    Ok(q)
}

/// A write succeeded exactly when the store answered with a 2xx status;
/// `None` stands for a transport failure.
pub fn write_outcome(status: Option<u16>) -> (r: Result<(), FetchError>)
    ensures
        r is Ok <==> (status is Some && 200 <= status->Some_0 <= 299),
        r is Err ==> r == Err::<(), _>(FetchError::StorageWriteFailed),
{
    match status {
        Some(code) => {
            if 200 <= code && code <= 299 {
                Ok(())
            } else {
                Err(FetchError::StorageWriteFailed)
            }
        },
        None => Err(FetchError::StorageWriteFailed),
    }
}

} // verus!
