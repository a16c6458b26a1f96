//! Streaming market data from several crypto venues: request shaping, inbound
//! frame classification and the connection's decision rules, with contracts.

pub mod binance;
pub mod builders;
pub mod bybit;
pub mod coinbase;
pub mod common;
pub mod engine;
pub mod error;
pub mod inbound;
pub mod json;
pub mod kraken;
pub mod laws;
pub mod subscription;
pub mod text;

pub use binance::{BinanceAck, BinanceMessage, BinanceRequest, BinanceTrade};
pub use builders::{
    BinanceBuilder, BybitBuilder, CoinbaseBuilder, Handshake, KrakenBuilder, StreamBuilder,
};
pub use bybit::{BybitMessage, BybitRequest};
pub use coinbase::{CoinbaseChannel, CoinbaseMessage, CoinbaseRequest};
pub use common::RequestKind;
pub use engine::{Frame, Lifecycle, Outbound, ReaderEvent, ReaderStep, WriterEvent, WriterStep};
pub use error::ExStreamError;
pub use kraken::{KrakenChannel, KrakenMessage, KrakenRequest};
