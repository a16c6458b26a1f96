//! Fluent builders that collect one venue's channels and check them before a
//! connection is opened. A builder does no I/O: `handshake` validates and
//! yields the endpoint and the first frame to send.

use vstd::prelude::*;
use crate::binance::{binance_request_text, binance_topic, binance_topics, BinanceRequest};
use crate::bybit::{
    bybit_orderbook_topic, bybit_orderbook_topics, bybit_request_text, bybit_trade_topic,
    bybit_trade_topics, BybitRequest,
};
use crate::coinbase::{coinbase_request_text, coinbase_ticker, coinbase_tickers, CoinbaseRequest};
use crate::common::RequestKind;
use crate::error::ExStreamError;
use crate::kraken::{fresh_params, kraken_request_text, uppers, KrakenChannel, KrakenRequest};
use crate::text::{str_views, upper_of};

verus! {

/// The Bybit order book depth when none was chosen.
pub const DEFAULT_ORDERBOOK_DEPTH: u64 = 50;

/// What a validated builder hands to the connection: where to connect and the
/// subscription frame to send before anything else.
#[derive(Debug, Clone)]
pub struct Handshake {
    pub endpoint: &'static str,
    pub message: String,
}

/// Entry point of the fluent builders, one per venue.
pub struct StreamBuilder;

impl StreamBuilder {
    /// Start building a Binance stream.
    pub fn binance() -> (r: BinanceBuilder)
        ensures
            r.request().kind == RequestKind::Subscribe,
            r.request().topics().len() == 0,
            r.request().id is None,
    {
        BinanceBuilder::new()
    }

    /// Start building a Bybit stream.
    pub fn bybit() -> (r: BybitBuilder)
        ensures
            r.request().kind == RequestKind::Subscribe,
            r.request().topics().len() == 0,
            r.request().id is None,
            r.depth() is None,
    {
        BybitBuilder::default()
    }

    /// Start building a Coinbase stream.
    pub fn coinbase() -> (r: CoinbaseBuilder)
        ensures
            r.request().kind == RequestKind::Subscribe,
            r.request().channels().len() == 0,
            r.request().product_ids@.len() == 0,
    {
        CoinbaseBuilder::default()
    }

    /// Start building a Kraken stream on one channel.
    pub fn kraken(channel: KrakenChannel) -> (r: KrakenBuilder)
        ensures
            r.request().kind == RequestKind::Subscribe,
            fresh_params(channel, r.request().params),
            r.request().id is None,
    {
        KrakenBuilder::new(channel)
    }
}

/// Builder of a Binance stream.
#[derive(Debug, Clone)]
pub struct BinanceBuilder {
    request: BinanceRequest,
}

impl BinanceBuilder {
    pub const ENDPOINT: &'static str = "wss://stream.binance.com:9443/ws";

    /// The subscription collected so far.
    pub closed spec fn request(&self) -> BinanceRequest {
        self.request
    }

    pub fn new() -> (r: Self)
        ensures
            r.request().kind == RequestKind::Subscribe,
            r.request().topics().len() == 0,
            r.request().id is None,
    {
        BinanceBuilder { request: BinanceRequest::new_subscribe() }
    }

    pub fn with_id(self, id: u64) -> (r: Self)
        ensures
            r.request().id == Some(id),
            r.request().kind == self.request().kind,
            r.request().params@ == self.request().params@,
    {
        BinanceBuilder { request: self.request.with_id(id) }
    }

    pub fn with_trade(self, symbol: &str) -> (r: Self)
        ensures
            r.request().topics() == self.request().topics().push(binance_topic(symbol@)),
            r.request().kind == self.request().kind,
            r.request().id == self.request().id,
    {
        BinanceBuilder { request: self.request.with_trade(symbol) }
    }

    /// Same as `with_trade`.
    pub fn trade(self, symbol: &str) -> (r: Self)
        ensures
            r.request().topics() == self.request().topics().push(binance_topic(symbol@)),
            r.request().kind == self.request().kind,
            r.request().id == self.request().id,
    {
        self.with_trade(symbol)
    }

    pub fn with_trades(self, symbols: Vec<String>) -> (r: Self)
        ensures
            r.request().topics() == self.request().topics() + binance_topics(str_views(symbols@)),
            r.request().kind == self.request().kind,
            r.request().id == self.request().id,
    {
        BinanceBuilder { request: self.request.with_trades(symbols) }
    }

    /// Validates the subscription: it fails exactly when no channel was added.
    pub fn handshake(self) -> (r: Result<Handshake, ExStreamError>)
        ensures
            self.request().topics().len() == 0 <==> r is Err,
            r is Err ==> r->Err_0 is EmptySubscriptionList,
            r matches Ok(h) ==> h.endpoint@ == Self::ENDPOINT@ && h.message@ == binance_request_text(
                self.request().kind,
                self.request().topics(),
                self.request().id,
            ),
    {
        if self.request.is_empty() {
            return Err(ExStreamError::EmptySubscriptionList);
        }
        Ok(Handshake { endpoint: Self::ENDPOINT, message: self.request.to_json() })
    }
}

impl Default for BinanceBuilder {
    fn default() -> (r: Self)
        ensures
            r.request().kind == RequestKind::Subscribe,
            r.request().topics().len() == 0,
            r.request().id is None,
    {
        Self::new()
    }
}

/// Builder of a Bybit stream.
#[derive(Debug, Clone)]
pub struct BybitBuilder {
    request: BybitRequest,
    depth: Option<u64>,
}

impl BybitBuilder {
    pub const ENDPOINT: &'static str = "wss://stream.bybit.com/v5/public/spot";

    /// The subscription collected so far.
    pub closed spec fn request(&self) -> BybitRequest {
        self.request
    }

    /// The depth that `orderbook` uses, when one was chosen.
    pub closed spec fn depth(&self) -> Option<u64> {
        self.depth
    }

    pub fn with_id(self, id_str: String) -> (r: Self)
        ensures
            r.request().id_view() == Some(id_str@),
            r.request().kind == self.request().kind,
            r.request().params@ == self.request().params@,
            r.depth() == self.depth(),
    {
        BybitBuilder { request: self.request.with_id(id_str), depth: self.depth }
    }

    /// Chooses the depth of the order books that `orderbook` adds later.
    pub fn with_depth(self, depth: u64) -> (r: Self)
        ensures
            r.request() == self.request(),
            r.depth() == Some(depth),
    {
        BybitBuilder { request: self.request, depth: Some(depth) }
    }

    pub fn with_trade(self, symbol: &str) -> (r: Self)
        ensures
            r.request().topics() == self.request().topics().push(bybit_trade_topic(symbol@)),
            r.request().kind == self.request().kind,
            r.request().id == self.request().id,
            r.depth() == self.depth(),
    {
        BybitBuilder { request: self.request.with_trade(symbol), depth: self.depth }
    }

    /// Same as `with_trade`.
    pub fn trade(self, symbol: &str) -> (r: Self)
        ensures
            r.request().topics() == self.request().topics().push(bybit_trade_topic(symbol@)),
            r.request().kind == self.request().kind,
            r.request().id == self.request().id,
            r.depth() == self.depth(),
    {
        self.with_trade(symbol)
    }

    pub fn with_trades(self, symbols: Vec<String>) -> (r: Self)
        ensures
            r.request().topics() == self.request().topics() + bybit_trade_topics(str_views(symbols@)),
            r.request().kind == self.request().kind,
            r.request().id == self.request().id,
            r.depth() == self.depth(),
    {
        BybitBuilder { request: self.request.with_trades(symbols), depth: self.depth }
    }

    pub fn with_orderbook(self, symbol: &str, depth: u64) -> (r: Self)
        ensures
            r.request().topics() == self.request().topics().push(bybit_orderbook_topic(symbol@, depth)),
            r.request().kind == self.request().kind,
            r.request().id == self.request().id,
            r.depth() == self.depth(),
    {
        BybitBuilder { request: self.request.with_orderbook(symbol, depth), depth: self.depth }
    }

    /// Adds an order book at the chosen depth, or at the default depth.
    pub fn orderbook(self, symbol: &str) -> (r: Self)
        ensures
            r.request().topics() == self.request().topics().push(bybit_orderbook_topic(
                symbol@,
                match self.depth() {
                    Some(d) => d,
                    None => DEFAULT_ORDERBOOK_DEPTH,
                },
            )),
            r.request().kind == self.request().kind,
            r.request().id == self.request().id,
            r.depth() == self.depth(),
    {
        let depth = match self.depth {
            Some(d) => d,
            None => DEFAULT_ORDERBOOK_DEPTH,
        };
        self.with_orderbook(symbol, depth)
    }

    pub fn with_orderbooks(self, symbols: Vec<String>, depth: u64) -> (r: Self)
        ensures
            r.request().topics() == self.request().topics() + bybit_orderbook_topics(str_views(symbols@), depth),
            r.request().kind == self.request().kind,
            r.request().id == self.request().id,
            r.depth() == self.depth(),
    {
        BybitBuilder { request: self.request.with_orderbooks(symbols, depth), depth: self.depth }
    }

    /// Validates the subscription: it fails exactly when no channel was added.
    pub fn handshake(self) -> (r: Result<Handshake, ExStreamError>)
        ensures
            self.request().topics().len() == 0 <==> r is Err,
            r is Err ==> r->Err_0 is EmptySubscriptionList,
            r matches Ok(h) ==> h.endpoint@ == Self::ENDPOINT@ && h.message@ == bybit_request_text(
                self.request().kind,
                self.request().topics(),
                self.request().id_view(),
            ),
    {
        if self.request.is_empty() {
            return Err(ExStreamError::EmptySubscriptionList);
        }
        Ok(Handshake { endpoint: Self::ENDPOINT, message: self.request.to_json() })
    }
}

impl Default for BybitBuilder {
    fn default() -> (r: Self)
        ensures
            r.request().kind == RequestKind::Subscribe,
            r.request().topics().len() == 0,
            r.request().id is None,
            r.depth() is None,
    {
        BybitBuilder { request: BybitRequest::new_subscribe(), depth: None }
    }
}

/// Builder of a Coinbase stream.
#[derive(Debug, Clone)]
pub struct CoinbaseBuilder {
    request: CoinbaseRequest,
}

impl CoinbaseBuilder {
    pub const ENDPOINT: &'static str = "wss://ws-feed.exchange.coinbase.com";

    /// The subscription collected so far.
    pub closed spec fn request(&self) -> CoinbaseRequest {
        self.request
    }

    pub fn with_trade(self, symbol: &str) -> (r: Self)
        ensures
            r.request().channels() == self.request().channels().push(coinbase_ticker(symbol@)),
            r.request().kind == self.request().kind,
            r.request().product_ids == self.request().product_ids,
    {
        CoinbaseBuilder { request: self.request.with_trade(symbol) }
    }

    pub fn with_trades(self, symbols: Vec<String>) -> (r: Self)
        ensures
            r.request().channels() == self.request().channels() + coinbase_tickers(str_views(symbols@)),
            r.request().kind == self.request().kind,
            r.request().product_ids == self.request().product_ids,
    {
        CoinbaseBuilder { request: self.request.with_trades(symbols) }
    }

    /// Validates the subscription: it fails exactly when no channel was added.
    pub fn handshake(self) -> (r: Result<Handshake, ExStreamError>)
        ensures
            self.request().channels().len() == 0 <==> r is Err,
            r is Err ==> r->Err_0 is EmptySubscriptionList,
            r matches Ok(h) ==> h.endpoint@ == Self::ENDPOINT@ && h.message@ == coinbase_request_text(
                self.request().kind,
                self.request().channels(),
                str_views(self.request().product_ids@),
            ),
    {
        if self.request.is_empty() {
            return Err(ExStreamError::EmptySubscriptionList);
        }
        Ok(Handshake { endpoint: Self::ENDPOINT, message: self.request.to_json() })
    }
}

impl Default for CoinbaseBuilder {
    fn default() -> (r: Self)
        ensures
            r.request().kind == RequestKind::Subscribe,
            r.request().channels().len() == 0,
            r.request().product_ids@.len() == 0,
    {
        CoinbaseBuilder { request: CoinbaseRequest::new_subscribe() }
    }
}

/// Builder of a Kraken stream on one channel.
#[derive(Debug, Clone)]
pub struct KrakenBuilder {
    request: KrakenRequest,
}

impl KrakenBuilder {
    pub const ENDPOINT: &'static str = "wss://ws.kraken.com/v2";
    pub const ENDPOINT_AUTH: &'static str = "wss://ws-auth.kraken.com/v2";

    /// The subscription collected so far.
    pub closed spec fn request(&self) -> KrakenRequest {
        self.request
    }

    pub fn new(channel: KrakenChannel) -> (r: Self)
        ensures
            r.request().kind == RequestKind::Subscribe,
            fresh_params(channel, r.request().params),
            r.request().id is None,
    {
        KrakenBuilder { request: KrakenRequest::new_subscribe(channel) }
    }

    /// Sets the session token; only level-3 channels carry one.
    pub fn with_token(self, token: String) -> (r: Self)
        ensures
            r.request().kind == self.request().kind,
            r.request().id == self.request().id,
            r.request().params is L3 == self.request().params is L3,
            r.request().params.channel_of() == self.request().params.channel_of(),
            r.request().symbols() == self.request().symbols(),
            r.request().params.snapshot() == self.request().params.snapshot(),
            r.request().params.depth() == self.request().params.depth(),
            r.request().params.token() == if self.request().params is L3 { Some(token@) } else { None },
    {
        let mut request = self.request;
        request.set_token(token);
        KrakenBuilder { request }
    }

    /// Sets the depth of a level-3 channel: 10, 100 or 1000.
    pub fn with_depth(self, depth: u64) -> (r: Self)
        ensures
            r.request().kind == self.request().kind,
            r.request().id == self.request().id,
            r.request().params is L3 == self.request().params is L3,
            r.request().params.channel_of() == self.request().params.channel_of(),
            r.request().symbols() == self.request().symbols(),
            r.request().params.snapshot() == self.request().params.snapshot(),
            r.request().params.token() == self.request().params.token(),
            r.request().params.depth() == if self.request().params is L3 { Some(depth) } else { None },
    {
        let mut request = self.request;
        request.set_depth(depth);
        KrakenBuilder { request }
    }

    pub fn with_id(self, id: u64) -> (r: Self)
        ensures
            r.request().id == Some(id),
            r.request().kind == self.request().kind,
            r.request().params == self.request().params,
    {
        let mut request = self.request;
        request.set_id(id);
        KrakenBuilder { request }
    }

    pub fn with_symbol(self, symbol: &str) -> (r: Self)
        ensures
            r.request().kind == self.request().kind,
            r.request().id == self.request().id,
            r.request().params is L3 == self.request().params is L3,
            r.request().params.channel_of() == self.request().params.channel_of(),
            r.request().symbols() == self.request().symbols().push(upper_of(symbol@)),
            r.request().params.snapshot() == self.request().params.snapshot(),
            r.request().params.token() == self.request().params.token(),
            r.request().params.depth() == self.request().params.depth(),
    {
        let mut request = self.request;
        request.add_symbol(symbol);
        KrakenBuilder { request }
    }

    pub fn with_symbols(self, symbols: Vec<String>) -> (r: Self)
        ensures
            r.request().kind == self.request().kind,
            r.request().id == self.request().id,
            r.request().params is L3 == self.request().params is L3,
            r.request().params.channel_of() == self.request().params.channel_of(),
            r.request().symbols() == self.request().symbols() + uppers(str_views(symbols@)),
            r.request().params.snapshot() == self.request().params.snapshot(),
            r.request().params.token() == self.request().params.token(),
            r.request().params.depth() == self.request().params.depth(),
    {
        let mut request = self.request;
        request.add_symbols(symbols);
        KrakenBuilder { request }
    }

    /// Validates the subscription: no symbol is the empty-subscription error;
    /// a level-3 channel without a token is the missing-auth error; otherwise
    /// the authenticated endpoint serves level-3 channels and the public one
    /// the rest.
    pub fn handshake(self) -> (r: Result<Handshake, ExStreamError>)
        ensures
            self.request().symbols().len() == 0 ==> r matches Err(ExStreamError::EmptySubscriptionList),
            self.request().symbols().len() > 0 && self.request().params is L3
                && self.request().params.token() == Some(Seq::<char>::empty())
                ==> r matches Err(ExStreamError::MissingAuth),
            r is Ok <==> self.request().symbols().len() > 0 && self.request().params.token()
                != Some(Seq::<char>::empty()),
            r matches Ok(h) ==> h.message@ == kraken_request_text(
                self.request().kind,
                self.request().params.text(),
                self.request().id,
            ) && h.endpoint@ == if self.request().params is L3 {
                Self::ENDPOINT_AUTH@
            } else {
                Self::ENDPOINT@
            },
    {
        if self.request.is_empty() {
            return Err(ExStreamError::EmptySubscriptionList);
        }
        if self.request.is_missing_auth() {
            return Err(ExStreamError::MissingAuth);
        }
        let endpoint = if self.request.is_auth_required() {
            Self::ENDPOINT_AUTH
        } else {
            Self::ENDPOINT
        };
        Ok(Handshake { endpoint, message: self.request.to_json() })
    }
}

} // verus!
