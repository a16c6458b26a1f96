//! Binance: flat topics `"{symbol}@trade"` in lower case, requests
//! `{"method", "params", "id"}` and trade events.

use vstd::prelude::*;
use crate::common::RequestKind;
use crate::inbound::VenueMessage;
use crate::json::{
    as_bool, as_opt_bool, as_opt_u64, as_str, as_u64, field, get_bool, get_opt_bool, get_opt_u64, get_str,
    get_u64, JsonValue,
};
use crate::text::{decimal, json_array, push_decimal, push_string_array, quoted_all, str_views, to_lower, lower_of};

verus! {

/// The trade topic of a symbol.
pub open spec fn binance_topic(symbol: Seq<char>) -> Seq<char> {
    lower_of(symbol) + "@trade"@
}

/// The topics of several symbols, in order.
pub open spec fn binance_topics(symbols: Seq<Seq<char>>) -> Seq<Seq<char>> {
    symbols.map_values(|s: Seq<char>| binance_topic(s))
}

/// The JSON text of a request: the fields in declaration order, a missing id as `null`.
pub open spec fn binance_request_text(kind: RequestKind, params: Seq<Seq<char>>, id: Option<u64>) -> Seq<char> {
    "{\"method\":\""@ + kind.upper_spec() + "\",\"params\":"@ + json_array(quoted_all(params))
        + ",\"id\":"@ + match id {
        Some(n) => decimal(n as nat),
        None => "null"@,
    } + "}"@
}

/// A Binance subscribe or unsubscribe request.
#[derive(Debug, Clone)]
pub struct BinanceRequest {
    pub kind: RequestKind,
    pub params: Vec<String>,
    pub id: Option<u64>,
}

impl BinanceRequest {
    /// The topics of the request, as texts.
    pub open spec fn topics(&self) -> Seq<Seq<char>> {
        str_views(self.params@)
    }

    pub fn new(kind: RequestKind, params: Vec<String>) -> (r: Self)
        ensures
            r.kind == kind,
            r.params@ == params@,
            r.id is None,
    {
        BinanceRequest { kind, params, id: None }
    }

    pub fn new_subscribe() -> (r: Self)
        ensures
            r.kind == RequestKind::Subscribe,
            r.params@.len() == 0,
            r.id is None,
    {
        BinanceRequest { kind: RequestKind::Subscribe, params: Vec::new(), id: None }
    }

    pub fn new_unsubscribe() -> (r: Self)
        ensures
            r.kind == RequestKind::Unsubscribe,
            r.params@.len() == 0,
            r.id is None,
    {
        BinanceRequest { kind: RequestKind::Unsubscribe, params: Vec::new(), id: None }
    }

    pub fn is_empty(&self) -> (r: bool)
        ensures
            r == (self.params@.len() == 0),
    {
        self.params.len() == 0
    }

    pub fn with_id(self, id: u64) -> (r: Self)
        ensures
            r.id == Some(id),
            r.kind == self.kind,
            r.params@ == self.params@,
    {
        let mut r = self;
        r.id = Some(id);
        r
    }

    pub fn with_trade(self, symbol: &str) -> (r: Self)
        ensures
            r.topics() == self.topics().push(binance_topic(symbol@)),
            r.kind == self.kind,
            r.id == self.id,
    {
        let mut r = self;
        r.add_trade(symbol);
        r
    }

    pub fn with_trades(self, symbols: Vec<String>) -> (r: Self)
        ensures
            r.topics() == self.topics() + binance_topics(str_views(symbols@)),
            r.kind == self.kind,
            r.id == self.id,
    {
        let mut r = self;
        r.add_trades(symbols);
        r
    }

    pub fn add_trade(&mut self, symbol: &str)
        ensures
            final(self).topics() == old(self).topics().push(binance_topic(symbol@)),
            final(self).kind == old(self).kind,
            final(self).id == old(self).id,
    {
        let t = Self::format_trade(symbol);
        self.params.push(t);
        proof {
            assert(final(self).topics() =~= old(self).topics().push(binance_topic(symbol@)));
        }
    }

    pub fn add_trades(&mut self, symbols: Vec<String>)
        ensures
            final(self).topics() == old(self).topics() + binance_topics(str_views(symbols@)),
            final(self).kind == old(self).kind,
            final(self).id == old(self).id,
    {
        let ghost start = self.topics();
        let ghost want = binance_topics(str_views(symbols@));
        let mut i: usize = 0;
        while i < symbols.len()
            invariant
                i <= symbols.len(),
                want == binance_topics(str_views(symbols@)),
                self.topics() == start + want.take(i as int),
                self.kind == old(self).kind,
                self.id == old(self).id,
            decreases symbols.len() - i,
        {
            self.add_trade(symbols[i].as_str());
            proof {
                assert(want.take(i as int + 1) =~= want.take(i as int).push(want[i as int]));
                assert(start + want.take(i as int + 1) =~= (start + want.take(i as int)).push(want[i as int]));
            }
            i = i + 1;
        }
        proof {
            assert(want.take(symbols.len() as int) =~= want);
        }
    }

    fn format_trade(symbol: &str) -> (r: String)
        ensures
            r@ == binance_topic(symbol@),
    {
        let mut t = to_lower(symbol);
        t.append("@trade");
        t
    }

    /// The request as the venue reads it.
    pub fn to_json(&self) -> (r: String)
        ensures
            r@ == binance_request_text(self.kind, self.topics(), self.id),
    {
        let mut out = String::new();
        out.append("{\"method\":\"");
        out.append(self.kind.upper_name());
        out.append("\",\"params\":");
        push_string_array(&mut out, &self.params);
        out.append(",\"id\":");
        match self.id {
            Some(n) => push_decimal(&mut out, n),
            None => out.append("null"),
        }
        out.append("}");
        proof {
            assert(out@ =~= binance_request_text(self.kind, self.topics(), self.id));
        }
        out
    }
}

} // verus!

verus! {

/// The venue's reply to a subscribe or unsubscribe request.
#[derive(Debug, Clone)]
pub struct BinanceAck {
    pub result: Option<bool>,
    pub id: Option<u64>,
}

/// One trade.
#[derive(Debug, Clone)]
pub struct BinanceTrade {
    /// Event type (`e`).
    pub event_type: String,
    /// Event time (`E`).
    pub event_time: u64,
    /// Symbol name, e.g. BNBBTC (`s`).
    pub symbol: String,
    /// Trade id (`t`).
    pub trade_id: u64,
    /// Price, as the venue wrote it (`p`).
    pub price: String,
    /// Quantity, as the venue wrote it (`q`).
    pub quantity: String,
    /// Trade time (`T`).
    pub trade_time: u64,
    /// Whether the buyer is the market maker (`m`).
    pub is_market_maker: bool,
    /// Ignored by the venue's own documentation (`M`).
    pub ignore: bool,
}

/// An inbound Binance message; the acknowledgement shape is tried first.
#[derive(Debug, Clone)]
pub enum BinanceMessage {
    SubscriptionAck(BinanceAck),
    Trade(BinanceTrade),
    Unrecognized(String),
}

/// An acknowledgement has no member but `result` and `id`.
pub open spec fn ack_keys_only(entries: Seq<(String, JsonValue)>) -> bool {
    forall|i: int| 0 <= i < entries.len() ==> (#[trigger] entries[i].0@ == "result"@ || entries[i].0@ == "id"@)
}

pub open spec fn binance_ack_of(e: Seq<(String, JsonValue)>) -> Option<BinanceAck> {
    if !ack_keys_only(e) {
        None
    } else {
        match (as_opt_bool(field(e, "result"@)), as_opt_u64(field(e, "id"@))) {
            (Some(result), Some(id)) => Some(BinanceAck { result, id }),
            _ => None,
        }
    }
}

pub open spec fn binance_trade_of(e: Seq<(String, JsonValue)>) -> Option<BinanceTrade> {
    match (
        as_str(field(e, "e"@)),
        as_u64(field(e, "E"@)),
        as_str(field(e, "s"@)),
        as_u64(field(e, "t"@)),
        as_str(field(e, "p"@)),
        as_str(field(e, "q"@)),
        as_u64(field(e, "T"@)),
        as_bool(field(e, "m"@)),
        as_bool(field(e, "M"@)),
    ) {
        (Some(event_type), Some(event_time), Some(symbol), Some(trade_id), Some(price),
            Some(quantity), Some(trade_time), Some(is_market_maker), Some(ignore)) => Some(
            BinanceTrade {
                event_type,
                event_time,
                symbol,
                trade_id,
                price,
                quantity,
                trade_time,
                is_market_maker,
                ignore,
            },
        ),
        _ => None,
    }
}

pub open spec fn binance_message_of(doc: JsonValue, raw: String) -> BinanceMessage {
    match doc {
        JsonValue::Object(e) => match binance_ack_of(e@) {
            Some(a) => BinanceMessage::SubscriptionAck(a),
            None => match binance_trade_of(e@) {
                Some(t) => BinanceMessage::Trade(t),
                None => BinanceMessage::Unrecognized(raw),
            },
        },
        _ => BinanceMessage::Unrecognized(raw),
    }
}

fn ack_keys(entries: &Vec<(String, JsonValue)>) -> (r: bool)
    ensures
        r == ack_keys_only(entries@),
{
    let result = String::from_str("result");
    let id = String::from_str("id");
    let mut i: usize = 0;
    while i < entries.len()
        invariant
            i <= entries@.len(),
            result@ == "result"@,
            id@ == "id"@,
            forall|j: int| 0 <= j < i ==> (#[trigger] entries@[j].0@ == "result"@ || entries@[j].0@ == "id"@),
        decreases entries.len() - i,
    {
        if !(entries[i].0 == result || entries[i].0 == id) {
            return false;
        }
        i = i + 1;
    }
    true
}

fn binance_ack(e: &Vec<(String, JsonValue)>) -> (r: Option<BinanceAck>)
    ensures
        r == binance_ack_of(e@),
{
    if !ack_keys(e) {
        return None;
    }
    match (get_opt_bool(e, "result"), get_opt_u64(e, "id")) {
        (Some(result), Some(id)) => Some(BinanceAck { result, id }),
        _ => None,
    }
}

fn binance_trade(e: &Vec<(String, JsonValue)>) -> (r: Option<BinanceTrade>)
    ensures
        r == binance_trade_of(e@),
{
    match (
        get_str(e, "e"),
        get_u64(e, "E"),
        get_str(e, "s"),
        get_u64(e, "t"),
        get_str(e, "p"),
        get_str(e, "q"),
        get_u64(e, "T"),
        get_bool(e, "m"),
        get_bool(e, "M"),
    ) {
        (Some(event_type), Some(event_time), Some(symbol), Some(trade_id), Some(price),
            Some(quantity), Some(trade_time), Some(is_market_maker), Some(ignore)) => Some(
            BinanceTrade {
                event_type,
                event_time,
                symbol,
                trade_id,
                price,
                quantity,
                trade_time,
                is_market_maker,
                ignore,
            },
        ),
        _ => None,
    }
}

impl VenueMessage for BinanceMessage {
    open spec fn reads_as(doc: JsonValue, raw: String, m: Self) -> bool {
        m == binance_message_of(doc, raw)
    }

    fn classify(doc: &JsonValue, raw: &String) -> (r: Self) {
        match doc {
            JsonValue::Object(e) => match binance_ack(e) {
                Some(a) => BinanceMessage::SubscriptionAck(a),
                None => match binance_trade(e) {
                    Some(t) => BinanceMessage::Trade(t),
                    None => BinanceMessage::Unrecognized(raw.clone()),
                },
            },
            _ => BinanceMessage::Unrecognized(raw.clone()),
        }
    }
}

} // verus!
