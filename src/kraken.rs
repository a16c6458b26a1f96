//! Kraken: a structured channel per request kind (trades, or level-3 books
//! that need a session token), requests `{"method", "params", "req_id"}`.

use vstd::prelude::*;
use crate::common::RequestKind;
use crate::inbound::VenueMessage;
use crate::json::{
    as_bool, as_number_text, as_opt_bool, as_opt_u64, as_str, as_str_array, as_u64, field, get, get_bool,
    get_number_text, get_opt_bool, get_opt_u64, get_str, get_str_array, get_u64, items_of,
    lemma_items_of_prefix, deref_opt, JsonValue,
};
use crate::text::{
    decimal, json_array, json_bool, json_quote, json_quoted, push_decimal, push_string_array,
    quoted_all, str_views, to_lower, to_upper, lower_of, upper_of,
};

verus! {

/// The Kraken channels.
#[derive(Debug, Clone, Copy, PartialEq, Eq, Structural)]
pub enum KrakenChannel {
    Trade,
    L3,
}

impl KrakenChannel {
    /// The channel's name on the wire.
    pub open spec fn wire_spec(self) -> Seq<char> {
        match self {
            KrakenChannel::Trade => "trade"@,
            KrakenChannel::L3 => "level3"@,
        }
    }

    pub fn wire_name(&self) -> (r: &'static str)
        ensures
            r@ == self.wire_spec(),
    {
        match self {
            KrakenChannel::Trade => "trade",
            KrakenChannel::L3 => "level3",
        }
    }
}

/// Parameters of a trade subscription.
#[derive(Debug, Clone)]
pub struct KrakenTradeParams {
    /// Always `Trade` for trade requests.
    pub channel: KrakenChannel,
    pub symbol: Vec<String>,
    /// Request a snapshot after subscribing.
    pub snapshot: Option<bool>,
}

/// Parameters of a level-3 order book subscription.
#[derive(Debug, Clone)]
pub struct KrakenL3Params {
    /// Always `L3` for level-3 requests.
    pub channel: KrakenChannel,
    pub symbol: Vec<String>,
    /// One of 10, 100 or 1000 levels.
    pub depth: Option<u64>,
    /// Request a snapshot after subscribing.
    pub snapshot: Option<bool>,
    /// The session token the channel requires.
    pub token: String,
}

/// The parameters of a request, one shape per channel.
#[derive(Debug, Clone)]
pub enum KrakenParams {
    Trade(KrakenTradeParams),
    L3(KrakenL3Params),
}

/// `,"key":value` for a field that is left out when absent.
pub open spec fn optional_field(key: Seq<char>, value: Option<Seq<char>>) -> Seq<char> {
    match value {
        Some(v) => ","@ + key + v,
        None => Seq::empty(),
    }
}

pub open spec fn opt_decimal(v: Option<u64>) -> Option<Seq<char>> {
    match v {
        Some(n) => Some(decimal(n as nat)),
        None => None,
    }
}

pub open spec fn opt_bool(v: Option<bool>) -> Option<Seq<char>> {
    match v {
        Some(b) => Some(json_bool(b)),
        None => None,
    }
}

/// The JSON text of a trade channel.
pub open spec fn kraken_trade_params_text(channel: KrakenChannel, symbols: Seq<Seq<char>>, snapshot: Option<bool>) -> Seq<char> {
    "{\"channel\":\""@ + channel.wire_spec() + "\",\"symbol\":"@ + json_array(quoted_all(symbols))
        + optional_field("\"snapshot\":"@, opt_bool(snapshot)) + "}"@
}

/// The JSON text of a level-3 channel.
pub open spec fn kraken_l3_params_text(
    channel: KrakenChannel,
    symbols: Seq<Seq<char>>,
    depth: Option<u64>,
    snapshot: Option<bool>,
    token: Seq<char>,
) -> Seq<char> {
    "{\"channel\":\""@ + channel.wire_spec() + "\",\"symbol\":"@ + json_array(quoted_all(symbols))
        + optional_field("\"depth\":"@, opt_decimal(depth))
        + optional_field("\"snapshot\":"@, opt_bool(snapshot))
        + ",\"token\":"@ + json_quoted(token) + "}"@
}

/// The JSON text of a request; a missing id is left out.
pub open spec fn kraken_request_text(kind: RequestKind, params: Seq<char>, id: Option<u64>) -> Seq<char> {
    "{\"method\":\""@ + kind.lower_spec() + "\",\"params\":"@ + params
        + optional_field("\"req_id\":"@, opt_decimal(id)) + "}"@
}

impl KrakenParams {
    pub open spec fn channel_of(&self) -> KrakenChannel {
        match self {
            KrakenParams::Trade(p) => p.channel,
            KrakenParams::L3(p) => p.channel,
        }
    }

    pub open spec fn symbols(&self) -> Seq<Seq<char>> {
        match self {
            KrakenParams::Trade(p) => str_views(p.symbol@),
            KrakenParams::L3(p) => str_views(p.symbol@),
        }
    }

    pub open spec fn snapshot(&self) -> Option<bool> {
        match self {
            KrakenParams::Trade(p) => p.snapshot,
            KrakenParams::L3(p) => p.snapshot,
        }
    }

    /// The depth of a level-3 channel; a trade channel has none.
    pub open spec fn depth(&self) -> Option<u64> {
        match self {
            KrakenParams::Trade(_) => None,
            KrakenParams::L3(p) => p.depth,
        }
    }

    /// The token of a level-3 channel; a trade channel has none.
    pub open spec fn token(&self) -> Option<Seq<char>> {
        match self {
            KrakenParams::Trade(_) => None,
            KrakenParams::L3(p) => Some(p.token@),
        }
    }

    pub open spec fn text(&self) -> Seq<char> {
        match self {
            KrakenParams::Trade(p) => kraken_trade_params_text(p.channel, str_views(p.symbol@), p.snapshot),
            KrakenParams::L3(p) => kraken_l3_params_text(p.channel, str_views(p.symbol@), p.depth, p.snapshot, p.token@),
        }
    }

    /// The parameters as the venue reads them.
    pub fn to_json(&self) -> (r: String)
        ensures
            r@ == self.text(),
    {
        let mut out = String::new();
        out.append("{\"channel\":\"");
        match self {
            KrakenParams::Trade(p) => {
                out.append(p.channel.wire_name());
                out.append("\",\"symbol\":");
                push_string_array(&mut out, &p.symbol);
                push_bool_field(&mut out, "\"snapshot\":", p.snapshot);
            },
            KrakenParams::L3(p) => {
                out.append(p.channel.wire_name());
                out.append("\",\"symbol\":");
                push_string_array(&mut out, &p.symbol);
                push_decimal_field(&mut out, "\"depth\":", p.depth);
                push_bool_field(&mut out, "\"snapshot\":", p.snapshot);
                out.append(",\"token\":");
                let q = json_quote(p.token.as_str());
                out.append(q.as_str());
            },
        }
        out.append("}");
        proof {
            assert(out@ =~= self.text());
        }
        out
    }
}

fn push_bool_field(out: &mut String, key: &str, value: Option<bool>)
    ensures
        final(out)@ == old(out)@ + optional_field(key@, opt_bool(value)),
{
    proof {
        reveal_strlit("true");
        reveal_strlit("false");
    }
    match value {
        Some(b) => {
            out.append(",");
            out.append(key);
            out.append(if b { "true" } else { "false" });
            proof {
                assert(final(out)@ =~= old(out)@ + optional_field(key@, opt_bool(value)));
            }
        },
        None => {
            proof {
                assert(out@ =~= old(out)@ + optional_field(key@, opt_bool(value)));
            }
        },
    }
}

fn push_decimal_field(out: &mut String, key: &str, value: Option<u64>)
    ensures
        final(out)@ == old(out)@ + optional_field(key@, opt_decimal(value)),
{
    match value {
        Some(n) => {
            out.append(",");
            out.append(key);
            push_decimal(out, n);
            proof {
                assert(final(out)@ =~= old(out)@ + optional_field(key@, opt_decimal(value)));
            }
        },
        None => {
            proof {
                assert(out@ =~= old(out)@ + optional_field(key@, opt_decimal(value)));
            }
        },
    }
}

/// A Kraken subscribe or unsubscribe request.
#[derive(Debug, Clone)]
pub struct KrakenRequest {
    pub kind: RequestKind,
    pub params: KrakenParams,
    pub id: Option<u64>,
}

/// The parameters a fresh request of a channel starts from: no symbols, and
/// for level-3 books a snapshot and an empty token.
pub open spec fn fresh_params(channel: KrakenChannel, p: KrakenParams) -> bool {
    match channel {
        KrakenChannel::Trade => p is Trade && p.channel_of() == KrakenChannel::Trade
            && p.symbols().len() == 0 && p.snapshot() is None,
        KrakenChannel::L3 => p is L3 && p.channel_of() == KrakenChannel::L3
            && p.symbols().len() == 0 && p.depth() is None && p.snapshot() == Some(true)
            && p.token() == Some(Seq::<char>::empty()),
    }
}

impl KrakenRequest {
    pub open spec fn symbols(&self) -> Seq<Seq<char>> {
        self.params.symbols()
    }

    pub fn new(kind: RequestKind, params: KrakenParams) -> (r: Self)
        ensures
            r.kind == kind,
            r.params == params,
            r.id is None,
    {
        KrakenRequest { kind, params, id: None }
    }

    fn fresh(channel: KrakenChannel) -> (r: KrakenParams)
        ensures
            fresh_params(channel, r),
    {
        let r = match channel {
            KrakenChannel::Trade => KrakenParams::Trade(
                KrakenTradeParams { channel, symbol: Vec::new(), snapshot: None },
            ),
            KrakenChannel::L3 => KrakenParams::L3(
                KrakenL3Params {
                    channel,
                    symbol: Vec::new(),
                    depth: None,
                    snapshot: Some(true),
                    token: String::new(),
                },
            ),
        };
        proof {
            assert(r.symbols() =~= Seq::<Seq<char>>::empty());
        }
        r
    }

    pub fn new_subscribe(channel: KrakenChannel) -> (r: Self)
        ensures
            r.kind == RequestKind::Subscribe,
            fresh_params(channel, r.params),
            r.id is None,
    {
        KrakenRequest { kind: RequestKind::Subscribe, params: Self::fresh(channel), id: None }
    }

    pub fn new_unsubscribe(channel: KrakenChannel) -> (r: Self)
        ensures
            r.kind == RequestKind::Unsubscribe,
            fresh_params(channel, r.params),
            r.id is None,
    {
        KrakenRequest { kind: RequestKind::Unsubscribe, params: Self::fresh(channel), id: None }
    }

    pub fn is_empty(&self) -> (r: bool)
        ensures
            r == (self.symbols().len() == 0),
    {
        match &self.params {
            KrakenParams::Trade(p) => p.symbol.len() == 0,
            KrakenParams::L3(p) => p.symbol.len() == 0,
        }
    }

    /// A level-3 request whose token is empty.
    pub fn is_missing_auth(&self) -> (r: bool)
        ensures
            r == (self.params is L3 && self.params.token() == Some(Seq::<char>::empty())),
    {
        match &self.params {
            KrakenParams::L3(p) => {
                proof {
                    if p.token@.len() == 0 {
                        assert(p.token@ =~= Seq::<char>::empty());
                    }
                }
                p.token.as_str().is_empty()
            },
            KrakenParams::Trade(_) => false,
        }
    }

    pub fn is_auth_required(&self) -> (r: bool)
        ensures
            r == self.params is L3,
    {
        match &self.params {
            KrakenParams::L3(_) => true,
            KrakenParams::Trade(_) => false,
        }
    }

    pub fn set_id(&mut self, id: u64)
        ensures
            final(self).id == Some(id),
            final(self).kind == old(self).kind,
            final(self).params == old(self).params,
    {
        self.id = Some(id);
    }

    /// Sets the token of a level-3 request; a trade request has none to set.
    pub fn set_token(&mut self, token: String)
        ensures
            final(self).kind == old(self).kind,
            final(self).id == old(self).id,
            final(self).params is L3 == old(self).params is L3,
            final(self).params.channel_of() == old(self).params.channel_of(),
            final(self).params.symbols() == old(self).params.symbols(),
            final(self).params.snapshot() == old(self).params.snapshot(),
            final(self).params.depth() == old(self).params.depth(),
            final(self).params.token() == if old(self).params is L3 { Some(token@) } else { None },
    {
        match &mut self.params {
            KrakenParams::L3(p) => {
                p.token = token;
            },
            KrakenParams::Trade(_) => {},
        }
    }

    /// Sets the depth of a level-3 request; a trade request has none to set.
    pub fn set_depth(&mut self, depth: u64)
        ensures
            final(self).kind == old(self).kind,
            final(self).id == old(self).id,
            final(self).params is L3 == old(self).params is L3,
            final(self).params.channel_of() == old(self).params.channel_of(),
            final(self).params.symbols() == old(self).params.symbols(),
            final(self).params.snapshot() == old(self).params.snapshot(),
            final(self).params.token() == old(self).params.token(),
            final(self).params.depth() == if old(self).params is L3 { Some(depth) } else { None },
    {
        match &mut self.params {
            KrakenParams::L3(p) => {
                p.depth = Some(depth);
            },
            KrakenParams::Trade(_) => {},
        }
    }

    /// Adds a symbol, in upper case.
    pub fn add_symbol(&mut self, symbol: &str)
        ensures
            final(self).kind == old(self).kind,
            final(self).id == old(self).id,
            final(self).params is L3 == old(self).params is L3,
            final(self).params.channel_of() == old(self).params.channel_of(),
            final(self).params.symbols() == old(self).params.symbols().push(upper_of(symbol@)),
            final(self).params.snapshot() == old(self).params.snapshot(),
            final(self).params.token() == old(self).params.token(),
            final(self).params.depth() == old(self).params.depth(),
    {
        let s = to_upper(symbol);
        match &mut self.params {
            KrakenParams::Trade(p) => p.symbol.push(s),
            KrakenParams::L3(p) => p.symbol.push(s),
        }
        proof {
            assert(final(self).params.symbols() =~= old(self).params.symbols().push(upper_of(symbol@)));
        }
    }

    /// Adds symbols, each in upper case, in order.
    pub fn add_symbols(&mut self, symbols: Vec<String>)
        ensures
            final(self).kind == old(self).kind,
            final(self).id == old(self).id,
            final(self).params is L3 == old(self).params is L3,
            final(self).params.channel_of() == old(self).params.channel_of(),
            final(self).params.symbols() == old(self).params.symbols() + uppers(str_views(symbols@)),
            final(self).params.snapshot() == old(self).params.snapshot(),
            final(self).params.token() == old(self).params.token(),
            final(self).params.depth() == old(self).params.depth(),
    {
        let ghost start = self.params.symbols();
        let ghost want = uppers(str_views(symbols@));
        let mut i: usize = 0;
        while i < symbols.len()
            invariant
                i <= symbols.len(),
                want == uppers(str_views(symbols@)),
                self.params.symbols() == start + want.take(i as int),
                self.kind == old(self).kind,
                self.id == old(self).id,
                self.params is L3 == old(self).params is L3,
                self.params.channel_of() == old(self).params.channel_of(),
                self.params.snapshot() == old(self).params.snapshot(),
                self.params.token() == old(self).params.token(),
                self.params.depth() == old(self).params.depth(),
            decreases symbols.len() - i,
        {
            self.add_symbol(symbols[i].as_str());
            proof {
                assert(want.take(i as int + 1) =~= want.take(i as int).push(want[i as int]));
                assert(start + want.take(i as int + 1) =~= (start + want.take(i as int)).push(want[i as int]));
            }
            i = i + 1;
        }
        proof {
            assert(want.take(symbols.len() as int) =~= want);
        }
    }

    /// The request as the venue reads it.
    pub fn to_json(&self) -> (r: String)
        ensures
            r@ == kraken_request_text(self.kind, self.params.text(), self.id),
    {
        let mut out = String::new();
        out.append("{\"method\":\"");
        out.append(self.kind.lower_name());
        out.append("\",\"params\":");
        let p = self.params.to_json();
        out.append(p.as_str());
        push_decimal_field(&mut out, "\"req_id\":", self.id);
        out.append("}");
        proof {
            assert(out@ =~= kraken_request_text(self.kind, self.params.text(), self.id));
        }
        out
    }
}

/// Each text in upper case.
pub open spec fn uppers(items: Seq<Seq<char>>) -> Seq<Seq<char>> {
    items.map_values(|s: Seq<char>| upper_of(s))
}

} // verus!

verus! {

/// Whether an event's payload replaces the state or updates it.
#[derive(Debug, Clone, Copy, PartialEq, Eq, Structural)]
pub enum KrakenEventKind {
    Snapshot,
    Update,
}

/// One trade. Amounts keep the decimal text of the venue's numbers.
#[derive(Debug, Clone)]
pub struct KrakenTradeData {
    pub symbol: String,
    pub side: String,
    /// `qty`.
    pub size: String,
    pub price: String,
    /// `ord_type`.
    pub order_type: String,
    pub trade_id: u64,
    /// RFC 3339.
    pub timestamp: String,
}

/// One order of a level-3 book.
#[derive(Debug, Clone)]
pub struct KrakenOrderEntry {
    pub order_id: String,
    /// `limit_price`, as decimal text.
    pub price: String,
    /// `order_qty`, as decimal text.
    pub size: String,
    /// RFC 3339.
    pub timestamp: String,
}

/// The orders of a level-3 book.
#[derive(Debug, Clone)]
pub struct KrakenBook {
    pub symbol: String,
    pub checksum: u64,
    pub bids: Vec<KrakenOrderEntry>,
    pub asks: Vec<KrakenOrderEntry>,
}

/// One item of an event: a trade is tried before a book.
#[derive(Debug, Clone)]
pub enum KrakenData {
    Trade(KrakenTradeData),
    Book(KrakenBook),
}

/// A channel's data.
#[derive(Debug, Clone)]
pub struct KrakenEvent {
    pub channel: KrakenChannel,
    /// `type`.
    pub kind: KrakenEventKind,
    pub data: Vec<KrakenData>,
}

/// An inbound Kraken message: acknowledgement, then event, then
/// heartbeat are tried in that order.
#[derive(Debug, Clone)]
pub enum KrakenMessage {
    SubscriptionAck {
        /// `method`, in any case.
        kind: RequestKind,
        result: KrakenParams,
        success: bool,
        error: String,
        time_in: String,
        time_out: String,
        req_id: Option<u64>,
    },
    Event(KrakenEvent),
    Heartbeat { channel: String },
    Unrecognized(String),
}

pub open spec fn channel_of_json(v: Option<JsonValue>) -> Option<KrakenChannel> {
    match as_str(v) {
        Some(s) => if s@ == "trade"@ {
            Some(KrakenChannel::Trade)
        } else if s@ == "level3"@ {
            Some(KrakenChannel::L3)
        } else {
            None
        },
        None => None,
    }
}

pub open spec fn event_kind_of(v: Option<JsonValue>) -> Option<KrakenEventKind> {
    match as_str(v) {
        Some(s) => if s@ == "snapshot"@ {
            Some(KrakenEventKind::Snapshot)
        } else if s@ == "update"@ {
            Some(KrakenEventKind::Update)
        } else {
            None
        },
        None => None,
    }
}

/// The action of an acknowledgement, compared in lower case.
pub open spec fn method_of(v: Option<JsonValue>) -> Option<RequestKind> {
    match as_str(v) {
        Some(s) => if lower_of(s@) == "subscribe"@ {
            Some(RequestKind::Subscribe)
        } else if lower_of(s@) == "unsubscribe"@ {
            Some(RequestKind::Unsubscribe)
        } else {
            None
        },
        None => None,
    }
}

pub open spec fn trade_params_of(v: Option<JsonValue>) -> Option<(KrakenChannel, Seq<String>, Option<bool>)> {
    match v {
        Some(JsonValue::Object(e)) => match (
            channel_of_json(field(e@, "channel"@)),
            as_str_array(field(e@, "symbol"@)),
            as_opt_bool(field(e@, "snapshot"@)),
        ) {
            (Some(c), Some(s), Some(n)) => Some((c, s, n)),
            _ => None,
        },
        _ => None,
    }
}

pub open spec fn l3_params_of(v: Option<JsonValue>) -> Option<(KrakenChannel, Seq<String>, Option<u64>, Option<bool>, String)> {
    match v {
        Some(JsonValue::Object(e)) => match (
            channel_of_json(field(e@, "channel"@)),
            as_str_array(field(e@, "symbol"@)),
            as_opt_u64(field(e@, "depth"@)),
            as_opt_bool(field(e@, "snapshot"@)),
            as_str(field(e@, "token"@)),
        ) {
            (Some(c), Some(s), Some(d), Some(n), Some(t)) => Some((c, s, d, n, t)),
            _ => None,
        },
        _ => None,
    }
}

/// Parameters read from a document: the trade shape is tried first.
pub open spec fn params_read(v: Option<JsonValue>) -> bool {
    trade_params_of(v) is Some || l3_params_of(v) is Some
}

pub open spec fn params_are(v: Option<JsonValue>, p: KrakenParams) -> bool {
    match trade_params_of(v) {
        Some((c, s, n)) => p matches KrakenParams::Trade(tp) && tp.channel == c && tp.symbol@ == s
            && tp.snapshot == n,
        None => match l3_params_of(v) {
            Some((c, s, d, n, t)) => p matches KrakenParams::L3(lp) && lp.channel == c && lp.symbol@ == s
                && lp.depth == d && lp.snapshot == n && lp.token == t,
            None => false,
        },
    }
}

pub open spec fn trade_data_of(v: JsonValue) -> Option<KrakenTradeData> {
    match v {
        JsonValue::Object(e) => match (
            as_str(field(e@, "symbol"@)),
            as_str(field(e@, "side"@)),
            as_number_text(field(e@, "qty"@)),
            as_number_text(field(e@, "price"@)),
            as_str(field(e@, "ord_type"@)),
            as_u64(field(e@, "trade_id"@)),
            as_str(field(e@, "timestamp"@)),
        ) {
            (Some(symbol), Some(side), Some(size), Some(price), Some(order_type), Some(trade_id),
                Some(timestamp)) => Some(
                KrakenTradeData { symbol, side, size, price, order_type, trade_id, timestamp },
            ),
            _ => None,
        },
        _ => None,
    }
}

pub open spec fn entry_of(v: JsonValue) -> Option<KrakenOrderEntry> {
    match v {
        JsonValue::Object(e) => match (
            as_str(field(e@, "order_id"@)),
            as_number_text(field(e@, "limit_price"@)),
            as_number_text(field(e@, "order_qty"@)),
            as_str(field(e@, "timestamp"@)),
        ) {
            (Some(order_id), Some(price), Some(size), Some(timestamp)) => Some(
                KrakenOrderEntry { order_id, price, size, timestamp },
            ),
            _ => None,
        },
        _ => None,
    }
}

pub open spec fn entries_of(v: Option<JsonValue>) -> Option<Seq<KrakenOrderEntry>> {
    match v {
        Some(JsonValue::Array(items)) => items_of(items@, |x: JsonValue| entry_of(x)),
        _ => None,
    }
}

pub open spec fn book_of(v: JsonValue) -> Option<(String, u64, Seq<KrakenOrderEntry>, Seq<KrakenOrderEntry>)> {
    match v {
        JsonValue::Object(e) => match (
            as_str(field(e@, "symbol"@)),
            as_u64(field(e@, "checksum"@)),
            entries_of(field(e@, "bids"@)),
            entries_of(field(e@, "asks"@)),
        ) {
            (Some(s), Some(c), Some(b), Some(a)) => Some((s, c, b, a)),
            _ => None,
        },
        _ => None,
    }
}

pub open spec fn data_item_reads(v: JsonValue) -> bool {
    trade_data_of(v) is Some || book_of(v) is Some
}

pub open spec fn data_item_is(v: JsonValue, d: KrakenData) -> bool {
    match trade_data_of(v) {
        Some(t) => d == KrakenData::Trade(t),
        None => match book_of(v) {
            Some((s, c, b, a)) => d matches KrakenData::Book(bk) && bk.symbol == s && bk.checksum == c
                && bk.bids@ == b && bk.asks@ == a,
            None => false,
        },
    }
}

pub open spec fn all_data_read(items: Seq<JsonValue>) -> bool {
    forall|i: int| 0 <= i < items.len() ==> #[trigger] data_item_reads(items[i])
}

pub open spec fn data_read(v: Option<JsonValue>) -> bool {
    match v {
        Some(JsonValue::Array(items)) => all_data_read(items@),
        _ => false,
    }
}

pub open spec fn data_are(v: Option<JsonValue>, ds: Seq<KrakenData>) -> bool {
    match v {
        Some(JsonValue::Array(items)) => items@.len() == ds.len() && forall|i: int|
            0 <= i < ds.len() ==> #[trigger] data_item_is(items@[i], ds[i]),
        _ => false,
    }
}

pub open spec fn kraken_ack_read(e: Seq<(String, JsonValue)>) -> bool {
    &&& method_of(field(e, "method"@)) is Some
    &&& params_read(field(e, "result"@))
    &&& as_bool(field(e, "success"@)) is Some
    &&& as_str(field(e, "error"@)) is Some
    &&& as_str(field(e, "time_in"@)) is Some
    &&& as_str(field(e, "time_out"@)) is Some
    &&& as_opt_u64(field(e, "req_id"@)) is Some
}

pub open spec fn kraken_event_read(e: Seq<(String, JsonValue)>) -> bool {
    &&& channel_of_json(field(e, "channel"@)) is Some
    &&& event_kind_of(field(e, "type"@)) is Some
    &&& data_read(field(e, "data"@))
}

/// What a Kraken document reads as.
pub open spec fn kraken_reads_as(doc: JsonValue, raw: String, m: KrakenMessage) -> bool {
    match doc {
        JsonValue::Object(e) => if kraken_ack_read(e@) {
            m matches KrakenMessage::SubscriptionAck { kind, result, success, error, time_in, time_out, req_id }
                && kind == method_of(field(e@, "method"@))->0 && params_are(field(e@, "result"@), result)
                && success == as_bool(field(e@, "success"@))->0 && error == as_str(field(e@, "error"@))->0
                && time_in == as_str(field(e@, "time_in"@))->0 && time_out == as_str(field(e@, "time_out"@))->0
                && req_id == as_opt_u64(field(e@, "req_id"@))->0
        } else if kraken_event_read(e@) {
            m matches KrakenMessage::Event(ev) && ev.channel == channel_of_json(field(e@, "channel"@))->0
                && ev.kind == event_kind_of(field(e@, "type"@))->0 && data_are(field(e@, "data"@), ev.data@)
        } else if as_str(field(e@, "channel"@)) is Some {
            m == KrakenMessage::Heartbeat { channel: as_str(field(e@, "channel"@))->0 }
        } else {
            m == KrakenMessage::Unrecognized(raw)
        },
        _ => m == KrakenMessage::Unrecognized(raw),
    }
}

fn read_channel(v: Option<&JsonValue>) -> (r: Option<KrakenChannel>)
    ensures
        r == channel_of_json(deref_opt(v)),
{
    match v {
        Some(JsonValue::Str(s)) => {
            if *s == String::from_str("trade") {
                Some(KrakenChannel::Trade)
            } else if *s == String::from_str("level3") {
                Some(KrakenChannel::L3)
            } else {
                None
            }
        },
        _ => None,
    }
}

fn read_event_kind(v: Option<&JsonValue>) -> (r: Option<KrakenEventKind>)
    ensures
        r == event_kind_of(deref_opt(v)),
{
    match v {
        Some(JsonValue::Str(s)) => {
            if *s == String::from_str("snapshot") {
                Some(KrakenEventKind::Snapshot)
            } else if *s == String::from_str("update") {
                Some(KrakenEventKind::Update)
            } else {
                None
            }
        },
        _ => None,
    }
}

fn read_method(v: Option<&JsonValue>) -> (r: Option<RequestKind>)
    ensures
        r == method_of(deref_opt(v)),
{
    match v {
        Some(JsonValue::Str(s)) => {
            let low = to_lower(s.as_str());
            if low == String::from_str("subscribe") {
                Some(RequestKind::Subscribe)
            } else if low == String::from_str("unsubscribe") {
                Some(RequestKind::Unsubscribe)
            } else {
                None
            }
        },
        _ => None,
    }
}

fn read_params(v: Option<&JsonValue>) -> (r: Option<KrakenParams>)
    ensures
        r is Some <==> params_read(deref_opt(v)),
        r matches Some(p) ==> params_are(deref_opt(v), p),
{
    let e = match v {
        Some(JsonValue::Object(e)) => e,
        _ => return None,
    };
    let channel = read_channel(get(e, "channel"));
    let symbol = get_str_array(e, "symbol");
    let snapshot = get_opt_bool(e, "snapshot");
    match (channel, symbol, snapshot) {
        (Some(channel), Some(symbol), Some(snapshot)) => {
            return Some(KrakenParams::Trade(KrakenTradeParams { channel, symbol, snapshot }));
        },
        _ => {},
    }
    let channel = read_channel(get(e, "channel"));
    let symbol = get_str_array(e, "symbol");
    match (channel, symbol, get_opt_u64(e, "depth"), get_opt_bool(e, "snapshot"), get_str(e, "token")) {
        (Some(channel), Some(symbol), Some(depth), Some(snapshot), Some(token)) => Some(
            KrakenParams::L3(KrakenL3Params { channel, symbol, depth, snapshot, token }),
        ),
        _ => None,
    }
}

fn read_trade_data(v: &JsonValue) -> (r: Option<KrakenTradeData>)
    ensures
        r == trade_data_of(*v),
{
    let e = match v {
        JsonValue::Object(e) => e,
        _ => return None,
    };
    match (
        get_str(e, "symbol"),
        get_str(e, "side"),
        get_number_text(e, "qty"),
        get_number_text(e, "price"),
        get_str(e, "ord_type"),
        get_u64(e, "trade_id"),
        get_str(e, "timestamp"),
    ) {
        (Some(symbol), Some(side), Some(size), Some(price), Some(order_type), Some(trade_id),
            Some(timestamp)) => Some(
            KrakenTradeData { symbol, side, size, price, order_type, trade_id, timestamp },
        ),
        _ => None,
    }
}

fn read_entry(v: &JsonValue) -> (r: Option<KrakenOrderEntry>)
    ensures
        r == entry_of(*v),
{
    let e = match v {
        JsonValue::Object(e) => e,
        _ => return None,
    };
    match (
        get_str(e, "order_id"),
        get_number_text(e, "limit_price"),
        get_number_text(e, "order_qty"),
        get_str(e, "timestamp"),
    ) {
        (Some(order_id), Some(price), Some(size), Some(timestamp)) => Some(
            KrakenOrderEntry { order_id, price, size, timestamp },
        ),
        _ => None,
    }
}

fn read_entries(v: Option<&JsonValue>) -> (r: Option<Vec<KrakenOrderEntry>>)
    ensures
        r matches Some(es) ==> entries_of(deref_opt(v)) == Some(es@),
        r is None ==> entries_of(deref_opt(v)) is None,
{
    let items = match v {
        Some(JsonValue::Array(items)) => items,
        _ => return None,
    };
    let mut out: Vec<KrakenOrderEntry> = Vec::new();
    let mut i: usize = 0;
    while i < items.len()
        invariant
            i <= items@.len(),
            items_of(items@.take(i as int), |x: JsonValue| entry_of(x)) == Some(out@),
            deref_opt(v) == Some(JsonValue::Array(*items)),
        decreases items.len() - i,
    {
        proof {
            assert(items@.take(i as int + 1).drop_last() =~= items@.take(i as int));
            assert(items@.take(i as int + 1).last() == items@[i as int]);
        }
        match read_entry(&items[i]) {
            Some(x) => {
                out.push(x);
            },
            None => {
                proof {
                    lemma_items_of_prefix(items@, |x: JsonValue| entry_of(x), i as int + 1);
                }
                return None;
            },
        }
        i = i + 1;
    }
    proof {
        assert(items@.take(items@.len() as int) =~= items@);
    }
    Some(out)
}

fn read_book(v: &JsonValue) -> (r: Option<KrakenBook>)
    ensures
        r matches Some(b) ==> book_of(*v) == Some((b.symbol, b.checksum, b.bids@, b.asks@)),
        r is None ==> book_of(*v) is None,
{
    let e = match v {
        JsonValue::Object(e) => e,
        _ => return None,
    };
    match (get_str(e, "symbol"), get_u64(e, "checksum"), read_entries(get(e, "bids")), read_entries(get(e, "asks"))) {
        (Some(symbol), Some(checksum), Some(bids), Some(asks)) => Some(
            KrakenBook { symbol, checksum, bids, asks },
        ),
        _ => None,
    }
}

fn read_data(v: Option<&JsonValue>) -> (r: Option<Vec<KrakenData>>)
    ensures
        r is Some <==> data_read(deref_opt(v)),
        r matches Some(ds) ==> data_are(deref_opt(v), ds@),
{
    let items = match v {
        Some(JsonValue::Array(items)) => items,
        _ => return None,
    };
    let mut out: Vec<KrakenData> = Vec::new();
    let mut i: usize = 0;
    while i < items.len()
        invariant
            i <= items@.len(),
            out@.len() == i,
            forall|j: int| 0 <= j < i ==> #[trigger] data_item_is(items@[j], out@[j]),
            forall|j: int| 0 <= j < i ==> #[trigger] data_item_reads(items@[j]),
            deref_opt(v) == Some(JsonValue::Array(*items)),
        decreases items.len() - i,
    {
        let d = match read_trade_data(&items[i]) {
            Some(t) => KrakenData::Trade(t),
            None => match read_book(&items[i]) {
                Some(b) => KrakenData::Book(b),
                None => {
                    proof {
                        assert(!data_item_reads(items@[i as int]));
                        assert(!all_data_read(items@));
                    }
                    return None;
                },
            },
        };
        out.push(d);
        proof {
            assert(data_item_is(items@[i as int], out@[i as int]));
        }
        i = i + 1;
    }
    Some(out)
}

impl VenueMessage for KrakenMessage {
    open spec fn reads_as(doc: JsonValue, raw: String, m: Self) -> bool {
        kraken_reads_as(doc, raw, m)
    }

    fn classify(doc: &JsonValue, raw: &String) -> (r: Self) {
        let e = match doc {
            JsonValue::Object(e) => e,
            _ => return KrakenMessage::Unrecognized(raw.clone()),
        };
        match (
            read_method(get(e, "method")),
            read_params(get(e, "result")),
            get_bool(e, "success"),
            get_str(e, "error"),
            get_str(e, "time_in"),
            get_str(e, "time_out"),
            get_opt_u64(e, "req_id"),
        ) {
            (Some(kind), Some(result), Some(success), Some(error), Some(time_in), Some(time_out), Some(req_id)) => {
                return KrakenMessage::SubscriptionAck { kind, result, success, error, time_in, time_out, req_id };
            },
            _ => {},
        }
        match (read_channel(get(e, "channel")), read_event_kind(get(e, "type")), read_data(get(e, "data"))) {
            (Some(channel), Some(kind), Some(data)) => {
                return KrakenMessage::Event(KrakenEvent { channel, kind, data });
            },
            _ => {},
        }
        match get_str(e, "channel") {
            Some(channel) => KrakenMessage::Heartbeat { channel },
            None => KrakenMessage::Unrecognized(raw.clone()),
        }
    }
}

} // verus!
