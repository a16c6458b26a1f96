//! Coinbase: structured channels `{"name": "ticker", "product_ids": [SYMBOL]}`,
//! requests `{"type", "channels", "product_ids"}` and ticker events.

use vstd::prelude::*;
use crate::common::RequestKind;
use crate::inbound::VenueMessage;
use crate::json::{
    as_str, as_str_array, as_u64, field, get, get_str, get_str_array, get_u64, items_of,
    lemma_items_of_prefix, JsonValue,
};
use crate::text::{
    joined, json_array, json_quote, json_quoted, push_string_array, quoted_all, str_views,
    to_upper, upper_of,
};

verus! {

/// A channel as text: its name and the products it routes.
pub type ChannelView = (Seq<char>, Seq<Seq<char>>);

/// The ticker channel of a symbol.
pub open spec fn coinbase_ticker(symbol: Seq<char>) -> ChannelView {
    ("ticker"@, seq![upper_of(symbol)])
}

pub open spec fn coinbase_tickers(symbols: Seq<Seq<char>>) -> Seq<ChannelView> {
    symbols.map_values(|s: Seq<char>| coinbase_ticker(s))
}

/// The JSON text of one channel.
pub open spec fn coinbase_channel_text(c: ChannelView) -> Seq<char> {
    "{\"name\":"@ + json_quoted(c.0) + ",\"product_ids\":"@ + json_array(quoted_all(c.1)) + "}"@
}

pub open spec fn coinbase_channel_texts(cs: Seq<ChannelView>) -> Seq<Seq<char>> {
    cs.map_values(|c: ChannelView| coinbase_channel_text(c))
}

/// The JSON text of a request; routing is by the channels alone.
pub open spec fn coinbase_request_text(kind: RequestKind, channels: Seq<ChannelView>, product_ids: Seq<Seq<char>>) -> Seq<char> {
    "{\"type\":\""@ + kind.lower_spec() + "\",\"channels\":"@
        + json_array(coinbase_channel_texts(channels)) + ",\"product_ids\":"@
        + json_array(quoted_all(product_ids)) + "}"@
}

/// A Coinbase channel: its name and the products it covers.
#[derive(Debug, Clone)]
pub struct CoinbaseChannel {
    pub name: String,
    pub product_ids: Vec<String>,
}

impl CoinbaseChannel {
    pub open spec fn view_of(&self) -> ChannelView {
        (self.name@, str_views(self.product_ids@))
    }

    /// The channel as the venue reads it.
    pub fn to_json(&self) -> (r: String)
        ensures
            r@ == coinbase_channel_text(self.view_of()),
    {
        let mut out = String::new();
        out.append("{\"name\":");
        let q = json_quote(self.name.as_str());
        out.append(q.as_str());
        out.append(",\"product_ids\":");
        push_string_array(&mut out, &self.product_ids);
        out.append("}");
        proof {
            assert(out@ =~= coinbase_channel_text(self.view_of()));
        }
        out
    }
}

pub open spec fn channel_views(v: Seq<CoinbaseChannel>) -> Seq<ChannelView> {
    v.map_values(|c: CoinbaseChannel| c.view_of())
}

/// A Coinbase subscribe or unsubscribe request.
#[derive(Debug, Clone)]
pub struct CoinbaseRequest {
    pub kind: RequestKind,
    pub params: Vec<CoinbaseChannel>,
    pub product_ids: Vec<String>,
}

impl CoinbaseRequest {
    /// The channels of the request, as text.
    pub open spec fn channels(&self) -> Seq<ChannelView> {
        channel_views(self.params@)
    }

    pub fn trade_request(kind: RequestKind, symbol: &str) -> (r: Self)
        ensures
            r.kind == kind,
            r.channels() == seq![coinbase_ticker(symbol@)],
            r.product_ids@.len() == 0,
    {
        let c = Self::trade_param(symbol);
        let mut params = Vec::new();
        params.push(c);
        proof {
            assert(channel_views(params@) =~= seq![coinbase_ticker(symbol@)]);
        }
        CoinbaseRequest { kind, params, product_ids: Vec::new() }
    }

    pub fn trade_param(symbol: &str) -> (r: CoinbaseChannel)
        ensures
            r.view_of() == coinbase_ticker(symbol@),
    {
        let mut ids = Vec::new();
        ids.push(to_upper(symbol));
        proof {
            assert(str_views(ids@) =~= seq![upper_of(symbol@)]);
        }
        CoinbaseChannel { name: String::from_str("ticker"), product_ids: ids }
    }

    pub fn new(kind: RequestKind, params: Vec<CoinbaseChannel>) -> (r: Self)
        ensures
            r.kind == kind,
            r.params@ == params@,
            r.product_ids@.len() == 0,
    {
        CoinbaseRequest { kind, params, product_ids: Vec::new() }
    }

    pub fn new_subscribe() -> (r: Self)
        ensures
            r.kind == RequestKind::Subscribe,
            r.params@.len() == 0,
            r.product_ids@.len() == 0,
    {
        CoinbaseRequest { kind: RequestKind::Subscribe, params: Vec::new(), product_ids: Vec::new() }
    }

    pub fn new_unsubscribe() -> (r: Self)
        ensures
            r.kind == RequestKind::Unsubscribe,
            r.params@.len() == 0,
            r.product_ids@.len() == 0,
    {
        CoinbaseRequest { kind: RequestKind::Unsubscribe, params: Vec::new(), product_ids: Vec::new() }
    }

    pub fn is_empty(&self) -> (r: bool)
        ensures
            r == (self.params@.len() == 0),
    {
        self.params.len() == 0
    }

    pub fn with_trade(self, symbol: &str) -> (r: Self)
        ensures
            r.channels() == self.channels().push(coinbase_ticker(symbol@)),
            r.kind == self.kind,
            r.product_ids == self.product_ids,
    {
        let mut r = self;
        r.add_trade(symbol);
        r
    }

    pub fn with_trades(self, symbols: Vec<String>) -> (r: Self)
        ensures
            r.channels() == self.channels() + coinbase_tickers(str_views(symbols@)),
            r.kind == self.kind,
            r.product_ids == self.product_ids,
    {
        let mut r = self;
        r.add_trades(symbols);
        r
    }

    pub fn add_trade(&mut self, symbol: &str)
        ensures
            final(self).channels() == old(self).channels().push(coinbase_ticker(symbol@)),
            final(self).kind == old(self).kind,
            final(self).product_ids == old(self).product_ids,
    {
        let c = Self::trade_param(symbol);
        self.params.push(c);
        proof {
            assert(final(self).channels() =~= old(self).channels().push(coinbase_ticker(symbol@)));
        }
    }

    pub fn add_trades(&mut self, symbols: Vec<String>)
        ensures
            final(self).channels() == old(self).channels() + coinbase_tickers(str_views(symbols@)),
            final(self).kind == old(self).kind,
            final(self).product_ids == old(self).product_ids,
    {
        let ghost start = self.channels();
        let ghost want = coinbase_tickers(str_views(symbols@));
        let mut i: usize = 0;
        while i < symbols.len()
            invariant
                i <= symbols.len(),
                want == coinbase_tickers(str_views(symbols@)),
                self.channels() == start + want.take(i as int),
                self.kind == old(self).kind,
                self.product_ids == old(self).product_ids,
            decreases symbols.len() - i,
        {
            self.add_trade(symbols[i].as_str());
            proof {
                assert(want.take(i as int + 1) =~= want.take(i as int).push(want[i as int]));
                assert(start + want.take(i as int + 1) =~= (start + want.take(i as int)).push(want[i as int]));
            }
            i = i + 1;
        }
        proof {
            assert(want.take(symbols.len() as int) =~= want);
        }
    }

    /// The request as the venue reads it.
    pub fn to_json(&self) -> (r: String)
        ensures
            r@ == coinbase_request_text(self.kind, self.channels(), str_views(self.product_ids@)),
    {
        let mut out = String::new();
        out.append("{\"type\":\"");
        out.append(self.kind.lower_name());
        out.append("\",\"channels\":");
        out.append("[");
        let ghost head = out@;
        let ghost parts = coinbase_channel_texts(self.channels());
        let mut i: usize = 0;
        while i < self.params.len()
            invariant
                i <= self.params.len(),
                parts == coinbase_channel_texts(self.channels()),
                parts.len() == self.params@.len(),
                out@ == head + joined(parts.take(i as int)),
            decreases self.params.len() - i,
        {
            if i > 0 {
                out.append(",");
            }
            let c = self.params[i].to_json();
            out.append(c.as_str());
            proof {
                let t = parts.take(i as int + 1);
                assert(t.drop_last() =~= parts.take(i as int));
                assert(t.last() == c@);
                if i == 0 {
                    assert(joined(parts.take(0)) =~= Seq::<char>::empty());
                }
            }
            i = i + 1;
        }
        proof {
            assert(parts.take(self.params.len() as int) =~= parts);
        }
        out.append("]");
        out.append(",\"product_ids\":");
        push_string_array(&mut out, &self.product_ids);
        out.append("}");
        proof {
            assert(out@ =~= coinbase_request_text(self.kind, self.channels(), str_views(self.product_ids@)));
        }
        out
    }
}

} // verus!

verus! {

/// The ticker of one product.
#[derive(Debug, Clone)]
pub struct CoinbaseTicker {
    /// `type`.
    pub kind: String,
    pub sequence: u64,
    pub product_id: String,
    pub price: String,
    pub open_24h: String,
    pub volume_24h: String,
    pub low_24h: String,
    pub high_24h: String,
    pub volume_30d: String,
    pub best_bid: String,
    pub best_bid_size: String,
    pub best_ask: String,
    pub best_ask_size: String,
    pub side: String,
    pub time: String,
    pub trade_id: u64,
    pub last_size: String,
}

/// An inbound Coinbase message, acknowledgement tried first.
#[derive(Debug, Clone)]
pub enum CoinbaseMessage {
    /// The channels now subscribed; `kind` is `"subscriptions"`.
    SubscriptionAck { kind: String, channels: Vec<CoinbaseChannel> },
    Ticker(Box<CoinbaseTicker>),
    Unrecognized(String),
}

pub open spec fn channel_item(v: JsonValue) -> Option<ChannelView> {
    match v {
        JsonValue::Object(e) => match (as_str(field(e@, "name"@)), as_str_array(field(e@, "product_ids"@))) {
            (Some(n), Some(ids)) => Some((n@, str_views(ids))),
            _ => None,
        },
        _ => None,
    }
}

pub open spec fn channel_items(v: Option<JsonValue>) -> Option<Seq<ChannelView>> {
    match v {
        Some(JsonValue::Array(items)) => items_of(items@, |x: JsonValue| channel_item(x)),
        _ => None,
    }
}

/// The acknowledgement's type and channels, when both read.
pub open spec fn coinbase_ack_of(e: Seq<(String, JsonValue)>) -> Option<(String, Seq<ChannelView>)> {
    match (as_str(field(e, "type"@)), channel_items(field(e, "channels"@))) {
        (Some(k), Some(cs)) => Some((k, cs)),
        _ => None,
    }
}

pub open spec fn coinbase_ticker_of(e: Seq<(String, JsonValue)>) -> Option<CoinbaseTicker> {
    if as_str(field(e, "type"@)) is Some && as_u64(field(e, "sequence"@)) is Some
        && as_str(field(e, "product_id"@)) is Some && as_str(field(e, "price"@)) is Some
        && as_str(field(e, "open_24h"@)) is Some && as_str(field(e, "volume_24h"@)) is Some
        && as_str(field(e, "low_24h"@)) is Some && as_str(field(e, "high_24h"@)) is Some
        && as_str(field(e, "volume_30d"@)) is Some && as_str(field(e, "best_bid"@)) is Some
        && as_str(field(e, "best_bid_size"@)) is Some && as_str(field(e, "best_ask"@)) is Some
        && as_str(field(e, "best_ask_size"@)) is Some && as_str(field(e, "side"@)) is Some
        && as_str(field(e, "time"@)) is Some && as_u64(field(e, "trade_id"@)) is Some
        && as_str(field(e, "last_size"@)) is Some {
        Some(
            CoinbaseTicker {
                kind: as_str(field(e, "type"@))->0,
                sequence: as_u64(field(e, "sequence"@))->0,
                product_id: as_str(field(e, "product_id"@))->0,
                price: as_str(field(e, "price"@))->0,
                open_24h: as_str(field(e, "open_24h"@))->0,
                volume_24h: as_str(field(e, "volume_24h"@))->0,
                low_24h: as_str(field(e, "low_24h"@))->0,
                high_24h: as_str(field(e, "high_24h"@))->0,
                volume_30d: as_str(field(e, "volume_30d"@))->0,
                best_bid: as_str(field(e, "best_bid"@))->0,
                best_bid_size: as_str(field(e, "best_bid_size"@))->0,
                best_ask: as_str(field(e, "best_ask"@))->0,
                best_ask_size: as_str(field(e, "best_ask_size"@))->0,
                side: as_str(field(e, "side"@))->0,
                time: as_str(field(e, "time"@))->0,
                trade_id: as_u64(field(e, "trade_id"@))->0,
                last_size: as_str(field(e, "last_size"@))->0,
            },
        )
    } else {
        None
    }
}

/// What a Coinbase document reads as.
pub open spec fn coinbase_reads_as(doc: JsonValue, raw: String, m: CoinbaseMessage) -> bool {
    match doc {
        JsonValue::Object(e) => match coinbase_ack_of(e@) {
            Some((k, cs)) => m matches CoinbaseMessage::SubscriptionAck { kind, channels } && kind == k
                && channel_views(channels@) == cs,
            None => match coinbase_ticker_of(e@) {
                Some(t) => m matches CoinbaseMessage::Ticker(b) && *b == t,
                None => m == CoinbaseMessage::Unrecognized(raw),
            },
        },
        _ => m == CoinbaseMessage::Unrecognized(raw),
    }
}

fn coinbase_channels(v: Option<&JsonValue>) -> (r: Option<Vec<CoinbaseChannel>>)
    ensures
        r matches Some(cs) ==> channel_items(match v {
            Some(x) => Some(*x),
            None => None,
        }) == Some(channel_views(cs@)),
        r is None ==> channel_items(match v {
            Some(x) => Some(*x),
            None => None,
        }) is None,
{
    let items = match v {
        Some(JsonValue::Array(items)) => items,
        _ => return None,
    };
    let mut out: Vec<CoinbaseChannel> = Vec::new();
    let mut i: usize = 0;
    while i < items.len()
        invariant
            i <= items@.len(),
            items_of(items@.take(i as int), |x: JsonValue| channel_item(x)) == Some(channel_views(out@)),
            match v {
                Some(x) => *x == JsonValue::Array(*items),
                None => false,
            },
        decreases items.len() - i,
    {
        proof {
            assert(items@.take(i as int + 1).drop_last() =~= items@.take(i as int));
            assert(items@.take(i as int + 1).last() == items@[i as int]);
        }
        let c = match &items[i] {
            JsonValue::Object(e) => match (get_str(e, "name"), get_str_array(e, "product_ids")) {
                (Some(name), Some(product_ids)) => Some(CoinbaseChannel { name, product_ids }),
                _ => None,
            },
            _ => None,
        };
        match c {
            Some(c) => {
                proof {
                    assert(channel_views(out@.push(c)) =~= channel_views(out@).push(c.view_of()));
                }
                out.push(c);
            },
            None => {
                proof {
                    lemma_items_of_prefix(items@, |x: JsonValue| channel_item(x), i as int + 1);
                }
                return None;
            },
        }
        i = i + 1;
    }
    proof {
        assert(items@.take(items@.len() as int) =~= items@);
    }
    Some(out)
}

fn read_ticker(e: &Vec<(String, JsonValue)>) -> (r: Option<CoinbaseTicker>)
    ensures
        r == coinbase_ticker_of(e@),
{
    let kind = match get_str(e, "type") { Some(v) => v, None => return None };
    let sequence = match get_u64(e, "sequence") { Some(v) => v, None => return None };
    let product_id = match get_str(e, "product_id") { Some(v) => v, None => return None };
    let price = match get_str(e, "price") { Some(v) => v, None => return None };
    let open_24h = match get_str(e, "open_24h") { Some(v) => v, None => return None };
    let volume_24h = match get_str(e, "volume_24h") { Some(v) => v, None => return None };
    let low_24h = match get_str(e, "low_24h") { Some(v) => v, None => return None };
    let high_24h = match get_str(e, "high_24h") { Some(v) => v, None => return None };
    let volume_30d = match get_str(e, "volume_30d") { Some(v) => v, None => return None };
    let best_bid = match get_str(e, "best_bid") { Some(v) => v, None => return None };
    let best_bid_size = match get_str(e, "best_bid_size") { Some(v) => v, None => return None };
    let best_ask = match get_str(e, "best_ask") { Some(v) => v, None => return None };
    let best_ask_size = match get_str(e, "best_ask_size") { Some(v) => v, None => return None };
    let side = match get_str(e, "side") { Some(v) => v, None => return None };
    let time = match get_str(e, "time") { Some(v) => v, None => return None };
    let trade_id = match get_u64(e, "trade_id") { Some(v) => v, None => return None };
    let last_size = match get_str(e, "last_size") { Some(v) => v, None => return None };
    Some(
        CoinbaseTicker {
            kind,
            sequence,
            product_id,
            price,
            open_24h,
            volume_24h,
            low_24h,
            high_24h,
            volume_30d,
            best_bid,
            best_bid_size,
            best_ask,
            best_ask_size,
            side,
            time,
            trade_id,
            last_size,
        },
    )
}

impl VenueMessage for CoinbaseMessage {
    open spec fn reads_as(doc: JsonValue, raw: String, m: Self) -> bool {
        coinbase_reads_as(doc, raw, m)
    }

    fn classify(doc: &JsonValue, raw: &String) -> (r: Self) {
        let e = match doc {
            JsonValue::Object(e) => e,
            _ => return CoinbaseMessage::Unrecognized(raw.clone()),
        };
        if let Some(kind) = get_str(e, "type") {
            if let Some(channels) = coinbase_channels(get(e, "channels")) {
                return CoinbaseMessage::SubscriptionAck { kind, channels };
            }
        }
        match read_ticker(e) {
            Some(t) => CoinbaseMessage::Ticker(Box::new(t)),
            None => CoinbaseMessage::Unrecognized(raw.clone()),
        }
    }
}

} // verus!
