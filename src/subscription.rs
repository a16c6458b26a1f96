//! A single channel of Binance or Bybit described on its own, and the one-topic
//! requests built from it. Their keys come in alphabetical order.

use vstd::prelude::*;
use crate::binance::binance_topic;
use crate::builders::DEFAULT_ORDERBOOK_DEPTH;
use crate::bybit::{bybit_orderbook_topic, bybit_trade_topic};
use crate::common::RequestKind;
use crate::text::{decimal, json_array, json_quote, json_quoted, push_decimal, to_lower, to_upper};

verus! {

/// The venue a subscription is meant for.
#[derive(Debug, Clone, Copy, PartialEq, Eq, Structural)]
pub enum SubscriptionSource {
    Binance,
    Bybit,
}

/// The feed a subscription asks for.
#[derive(Debug, Clone, Copy, PartialEq, Eq, Structural)]
pub enum SubscriptionKind {
    Trade,
    OrderBook,
}

pub const BINANCE_ENDPOINT: &'static str = "wss://stream.binance.com:9443/ws";
pub const BYBIT_ENDPOINT: &'static str = "wss://stream.bybit.com/v5/public/spot";

impl SubscriptionSource {
    pub open spec fn endpoint_spec(self) -> Seq<char> {
        match self {
            SubscriptionSource::Binance => BINANCE_ENDPOINT@,
            SubscriptionSource::Bybit => BYBIT_ENDPOINT@,
        }
    }

    pub fn endpoint(&self) -> (r: &'static str)
        ensures
            r@ == self.endpoint_spec(),
    {
        match self {
            SubscriptionSource::Binance => BINANCE_ENDPOINT,
            SubscriptionSource::Bybit => BYBIT_ENDPOINT,
        }
    }
}

/// One channel of one symbol.
#[derive(Debug, Clone)]
pub struct Subscription {
    pub kind: SubscriptionKind,
    pub symbol: String,
    pub id: Option<u64>,
    pub depth: Option<u64>,
}

/// The one-topic request text: Binance always carries its id, `null` when
/// absent; Bybit carries its id as a string, or leaves it out.
pub open spec fn single_topic_text(source: SubscriptionSource, kind: RequestKind, topic: Seq<char>, id: Option<u64>) -> Seq<char> {
    match source {
        SubscriptionSource::Binance => "{\"id\":"@ + match id {
            Some(n) => decimal(n as nat),
            None => "null"@,
        } + ",\"method\":\""@ + kind.upper_spec() + "\",\"params\":"@ + json_array(seq![json_quoted(topic)]) + "}"@,
        SubscriptionSource::Bybit => "{\"args\":"@ + json_array(seq![json_quoted(topic)]) + ",\"op\":\""@ + kind.lower_spec() + "\""@
            + match id {
            Some(n) => ",\"req_id\":\""@ + decimal(n as nat) + "\""@,
            None => Seq::empty(),
        } + "}"@,
    }
}

impl Subscription {
    /// Binance has no order book topic.
    pub open spec fn has_topic(&self, source: SubscriptionSource) -> bool {
        !(source == SubscriptionSource::Binance && self.kind == SubscriptionKind::OrderBook)
    }

    pub open spec fn topic_spec(&self, source: SubscriptionSource) -> Seq<char> {
        match source {
            SubscriptionSource::Binance => binance_topic(self.symbol@),
            SubscriptionSource::Bybit => match self.kind {
                SubscriptionKind::Trade => bybit_trade_topic(self.symbol@),
                SubscriptionKind::OrderBook => bybit_orderbook_topic(
                    self.symbol@,
                    match self.depth {
                        Some(d) => d,
                        None => DEFAULT_ORDERBOOK_DEPTH,
                    },
                ),
            },
        }
    }

    pub fn new(kind: SubscriptionKind, symbol: &str, id: Option<u64>, depth: Option<u64>) -> (r: Self)
        ensures
            r.kind == kind,
            r.symbol@ == symbol@,
            r.id == id,
            r.depth == depth,
    {
        Subscription { kind, symbol: String::from_str(symbol), id, depth }
    }

    pub fn to_subscription_msg(&self, source: &SubscriptionSource) -> (r: String)
        requires
            self.has_topic(*source),
        ensures
            r@ == single_topic_text(*source, RequestKind::Subscribe, self.topic_spec(*source), self.id),
    {
        self.message(source, RequestKind::Subscribe)
    }

    pub fn to_unsubscription_msg(&self, source: &SubscriptionSource) -> (r: String)
        requires
            self.has_topic(*source),
        ensures
            r@ == single_topic_text(*source, RequestKind::Unsubscribe, self.topic_spec(*source), self.id),
    {
        self.message(source, RequestKind::Unsubscribe)
    }

    fn message(&self, source: &SubscriptionSource, kind: RequestKind) -> (r: String)
        requires
            self.has_topic(*source),
        ensures
            r@ == single_topic_text(*source, kind, self.topic_spec(*source), self.id),
    {
        let topic = self.to_topic(source);
        let q = json_quote(topic.as_str());
        let mut out = String::new();
        match source {
            SubscriptionSource::Binance => {
                out.append("{\"id\":");
                match self.id {
                    Some(n) => push_decimal(&mut out, n),
                    None => out.append("null"),
                }
                out.append(",\"method\":\"");
                out.append(kind.upper_name());
                out.append("\",\"params\":");
                out.append("[");
                out.append(q.as_str());
                out.append("]");
                out.append("}");
            },
            SubscriptionSource::Bybit => {
                out.append("{\"args\":");
                out.append("[");
                out.append(q.as_str());
                out.append("]");
                out.append(",\"op\":\"");
                out.append(kind.lower_name());
                out.append("\"");
                match self.id {
                    Some(n) => {
                        out.append(",\"req_id\":\"");
                        push_decimal(&mut out, n);
                        out.append("\"");
                    },
                    None => {},
                }
                out.append("}");
            },
        }
        proof {
            let one = seq![json_quoted(self.topic_spec(*source))];
            assert(one.drop_last().len() == 0);
            assert(crate::text::joined(one) == json_quoted(self.topic_spec(*source)));
            assert(out@ =~= single_topic_text(*source, kind, self.topic_spec(*source), self.id));
        }
        out
    }

    pub fn to_topic(&self, source: &SubscriptionSource) -> (r: String)
        requires
            self.has_topic(*source),
        ensures
            r@ == self.topic_spec(*source),
    {
        match source {
            SubscriptionSource::Binance => self.binance_topic(),
            SubscriptionSource::Bybit => self.bybit_topic(),
        }
    }

    fn binance_topic(&self) -> (r: String)
        requires
            self.kind == SubscriptionKind::Trade,
        ensures
            r@ == binance_topic(self.symbol@),
    {
        let mut t = to_lower(self.symbol.as_str());
        t.append("@trade");
        t
    }

    fn bybit_topic(&self) -> (r: String)
        ensures
            r@ == self.topic_spec(SubscriptionSource::Bybit),
    {
        let up = to_upper(self.symbol.as_str());
        let mut t = String::new();
        match self.kind {
            SubscriptionKind::Trade => {
                t.append("publicTrade.");
                t.append(up.as_str());
            },
            SubscriptionKind::OrderBook => {
                let depth = match self.depth {
                    Some(d) => d,
                    None => DEFAULT_ORDERBOOK_DEPTH,
                };
                t.append("orderbook.");
                push_decimal(&mut t, depth);
                t.append(".");
                t.append(up.as_str());
            },
        }
        proof {
            assert(t@ =~= self.topic_spec(SubscriptionSource::Bybit));
        }
        t
    }
}

/// The symbol a single-symbol trade stream of Binance follows.
#[derive(Debug, Clone)]
pub struct BinanceConfig {
    pub symbol: String,
}

/// A single-symbol trade stream of Binance with a fixed correlation id.
#[derive(Debug, Clone)]
pub struct BinanceSubscription {
    id: u64,
    config: BinanceConfig,
}

impl BinanceSubscription {
    pub closed spec fn id_spec(&self) -> u64 {
        self.id
    }

    pub closed spec fn symbol_spec(&self) -> Seq<char> {
        self.config.symbol@
    }

    pub fn new(config: BinanceConfig, id: u64) -> (r: Self)
        ensures
            r.id_spec() == id,
            r.symbol_spec() == config.symbol@,
    {
        BinanceSubscription { id, config }
    }

    pub fn name(&self) -> (r: &'static str)
        ensures
            r@ == "binance"@,
    {
        "binance"
    }

    pub fn endpoint(&self) -> (r: &'static str)
        ensures
            r@ == BINANCE_ENDPOINT@,
    {
        BINANCE_ENDPOINT
    }

    fn subscription(&self) -> (r: Subscription)
        ensures
            r.kind == SubscriptionKind::Trade,
            r.symbol@ == self.symbol_spec(),
            r.id == Some(self.id_spec()),
    {
        Subscription::new(SubscriptionKind::Trade, self.config.symbol.as_str(), Some(self.id), None)
    }

    pub fn sub_msg(&self) -> (r: String)
        ensures
            r@ == single_topic_text(
                SubscriptionSource::Binance,
                RequestKind::Subscribe,
                binance_topic(self.symbol_spec()),
                Some(self.id_spec()),
            ),
    {
        self.subscription().to_subscription_msg(&SubscriptionSource::Binance)
    }

    pub fn unsub_msg(&mut self) -> (r: String)
        ensures
            *final(self) == *old(self),
            r@ == single_topic_text(
                SubscriptionSource::Binance,
                RequestKind::Unsubscribe,
                binance_topic(old(self).symbol_spec()),
                Some(old(self).id_spec()),
            ),
    {
        self.subscription().to_unsubscription_msg(&SubscriptionSource::Binance)
    }
}

} // verus!
