//! Spot-price and trade ingestion for the BTC/USD pair across several
//! exchanges: per-exchange normalisation into canonical records, the polling
//! state machine that feeds a time-series store, the store's insert protocol,
//! and the read path that turns adapter results into responses.
pub mod clock;
pub mod model;
pub mod binance;
pub mod huobi;
pub mod kraken;
pub mod persister;
pub mod poller;
pub mod facade;

pub use clock::Timestamp;
