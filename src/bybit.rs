//! Bybit: topics `"publicTrade.{SYMBOL}"` and `"orderbook.{depth}.{SYMBOL}"`,
//! requests `{"op", "args", "req_id"}`, trade and order book events.

use vstd::prelude::*;
use crate::common::RequestKind;
use crate::inbound::VenueMessage;
use crate::json::{
    as_bool, as_opt_str, as_str, as_u64, field, get, get_bool, get_opt_str, get_str, get_u64, items_of,
    lemma_items_of_prefix, str_array, str_items, JsonValue,
};
use crate::text::{
    decimal, json_array, json_quote, json_quoted, push_decimal, push_string_array, quoted_all,
    str_views, to_upper, upper_of,
};

verus! {

/// The trade topic of a symbol.
pub open spec fn bybit_trade_topic(symbol: Seq<char>) -> Seq<char> {
    "publicTrade."@ + upper_of(symbol)
}

/// The order book topic of a symbol at a depth.
pub open spec fn bybit_orderbook_topic(symbol: Seq<char>, depth: u64) -> Seq<char> {
    "orderbook."@ + decimal(depth as nat) + "."@ + upper_of(symbol)
}

pub open spec fn bybit_trade_topics(symbols: Seq<Seq<char>>) -> Seq<Seq<char>> {
    symbols.map_values(|s: Seq<char>| bybit_trade_topic(s))
}

pub open spec fn bybit_orderbook_topics(symbols: Seq<Seq<char>>, depth: u64) -> Seq<Seq<char>> {
    symbols.map_values(|s: Seq<char>| bybit_orderbook_topic(s, depth))
}

/// The JSON text of a request: the fields in declaration order, a missing id as `null`.
pub open spec fn bybit_request_text(kind: RequestKind, params: Seq<Seq<char>>, id: Option<Seq<char>>) -> Seq<char> {
    "{\"op\":\""@ + kind.lower_spec() + "\",\"args\":"@ + json_array(quoted_all(params))
        + ",\"req_id\":"@ + match id {
        Some(s) => json_quoted(s),
        None => "null"@,
    } + "}"@
}

/// A Bybit subscribe or unsubscribe request.
#[derive(Debug, Clone)]
pub struct BybitRequest {
    pub kind: RequestKind,
    pub params: Vec<String>,
    pub id: Option<String>,
}

impl BybitRequest {
    /// The topics of the request, as texts.
    pub open spec fn topics(&self) -> Seq<Seq<char>> {
        str_views(self.params@)
    }

    /// The correlation id, as text.
    pub open spec fn id_view(&self) -> Option<Seq<char>> {
        match self.id {
            Some(s) => Some(s@),
            None => None,
        }
    }

    pub fn new(kind: RequestKind, params: Vec<String>) -> (r: Self)
        ensures
            r.kind == kind,
            r.params@ == params@,
            r.id is None,
    {
        BybitRequest { kind, params, id: None }
    }

    pub fn new_subscribe() -> (r: Self)
        ensures
            r.kind == RequestKind::Subscribe,
            r.params@.len() == 0,
            r.id is None,
    {
        BybitRequest { kind: RequestKind::Subscribe, params: Vec::new(), id: None }
    }

    pub fn new_unsubscribe() -> (r: Self)
        ensures
            r.kind == RequestKind::Unsubscribe,
            r.params@.len() == 0,
            r.id is None,
    {
        BybitRequest { kind: RequestKind::Unsubscribe, params: Vec::new(), id: None }
    }

    pub fn is_empty(&self) -> (r: bool)
        ensures
            r == (self.params@.len() == 0),
    {
        self.params.len() == 0
    }

    pub fn with_id(self, id_str: String) -> (r: Self)
        ensures
            r.id_view() == Some(id_str@),
            r.kind == self.kind,
            r.params@ == self.params@,
    {
        let mut r = self;
        r.id = Some(id_str);
        r
    }

    pub fn with_trade(self, symbol: &str) -> (r: Self)
        ensures
            r.topics() == self.topics().push(bybit_trade_topic(symbol@)),
            r.kind == self.kind,
            r.id == self.id,
    {
        let mut r = self;
        r.add_trade(symbol);
        r
    }

    pub fn with_trades(self, symbols: Vec<String>) -> (r: Self)
        ensures
            r.topics() == self.topics() + bybit_trade_topics(str_views(symbols@)),
            r.kind == self.kind,
            r.id == self.id,
    {
        let mut r = self;
        r.add_trades(symbols);
        r
    }

    pub fn with_orderbook(self, symbol: &str, depth: u64) -> (r: Self)
        ensures
            r.topics() == self.topics().push(bybit_orderbook_topic(symbol@, depth)),
            r.kind == self.kind,
            r.id == self.id,
    {
        let mut r = self;
        r.add_orderbook(symbol, depth);
        r
    }

    pub fn with_orderbooks(self, symbols: Vec<String>, depth: u64) -> (r: Self)
        ensures
            r.topics() == self.topics() + bybit_orderbook_topics(str_views(symbols@), depth),
            r.kind == self.kind,
            r.id == self.id,
    {
        let mut r = self;
        r.add_orderbooks(symbols, depth);
        r
    }

    pub fn add_trade(&mut self, symbol: &str)
        ensures
            final(self).topics() == old(self).topics().push(bybit_trade_topic(symbol@)),
            final(self).kind == old(self).kind,
            final(self).id == old(self).id,
    {
        let t = Self::format_trade(symbol);
        self.params.push(t);
        proof {
            assert(final(self).topics() =~= old(self).topics().push(bybit_trade_topic(symbol@)));
        }
    }

    pub fn add_trades(&mut self, symbols: Vec<String>)
        ensures
            final(self).topics() == old(self).topics() + bybit_trade_topics(str_views(symbols@)),
            final(self).kind == old(self).kind,
            final(self).id == old(self).id,
    {
        let ghost start = self.topics();
        let ghost want = bybit_trade_topics(str_views(symbols@));
        let mut i: usize = 0;
        while i < symbols.len()
            invariant
                i <= symbols.len(),
                want == bybit_trade_topics(str_views(symbols@)),
                self.topics() == start + want.take(i as int),
                self.kind == old(self).kind,
                self.id == old(self).id,
            decreases symbols.len() - i,
        {
            self.add_trade(symbols[i].as_str());
            proof {
                assert(want.take(i as int + 1) =~= want.take(i as int).push(want[i as int]));
                assert(start + want.take(i as int + 1) =~= (start + want.take(i as int)).push(want[i as int]));
            }
            i = i + 1;
        }
        proof {
            assert(want.take(symbols.len() as int) =~= want);
        }
    }

    pub fn add_orderbook(&mut self, symbol: &str, depth: u64)
        ensures
            final(self).topics() == old(self).topics().push(bybit_orderbook_topic(symbol@, depth)),
            final(self).kind == old(self).kind,
            final(self).id == old(self).id,
    {
        let t = Self::format_orderbook(symbol, depth);
        self.params.push(t);
        proof {
            assert(final(self).topics() =~= old(self).topics().push(bybit_orderbook_topic(symbol@, depth)));
        }
    }

    pub fn add_orderbooks(&mut self, symbols: Vec<String>, depth: u64)
        ensures
            final(self).topics() == old(self).topics() + bybit_orderbook_topics(str_views(symbols@), depth),
            final(self).kind == old(self).kind,
            final(self).id == old(self).id,
    {
        let ghost start = self.topics();
        let ghost want = bybit_orderbook_topics(str_views(symbols@), depth);
        let mut i: usize = 0;
        while i < symbols.len()
            invariant
                i <= symbols.len(),
                want == bybit_orderbook_topics(str_views(symbols@), depth),
                self.topics() == start + want.take(i as int),
                self.kind == old(self).kind,
                self.id == old(self).id,
            decreases symbols.len() - i,
        {
            self.add_orderbook(symbols[i].as_str(), depth);
            proof {
                assert(want.take(i as int + 1) =~= want.take(i as int).push(want[i as int]));
                assert(start + want.take(i as int + 1) =~= (start + want.take(i as int)).push(want[i as int]));
            }
            i = i + 1;
        }
        proof {
            assert(want.take(symbols.len() as int) =~= want);
        }
    }

    fn format_trade(symbol: &str) -> (r: String)
        ensures
            r@ == bybit_trade_topic(symbol@),
    {
        let up = to_upper(symbol);
        let mut t = String::new();
        t.append("publicTrade.");
        t.append(up.as_str());
        t
    }

    fn format_orderbook(symbol: &str, depth: u64) -> (r: String)
        ensures
            r@ == bybit_orderbook_topic(symbol@, depth),
    {
        let up = to_upper(symbol);
        let mut t = String::new();
        t.append("orderbook.");
        push_decimal(&mut t, depth);
        t.append(".");
        t.append(up.as_str());
        proof {
            assert(t@ =~= bybit_orderbook_topic(symbol@, depth));
        }
        t
    }

    /// The request as the venue reads it.
    pub fn to_json(&self) -> (r: String)
        ensures
            r@ == bybit_request_text(self.kind, self.topics(), self.id_view()),
    {
        let mut out = String::new();
        out.append("{\"op\":\"");
        out.append(self.kind.lower_name());
        out.append("\",\"args\":");
        push_string_array(&mut out, &self.params);
        out.append(",\"req_id\":");
        match &self.id {
            Some(s) => {
                let q = json_quote(s.as_str());
                out.append(q.as_str());
            },
            None => out.append("null"),
        }
        out.append("}");
        proof {
            assert(out@ =~= bybit_request_text(self.kind, self.topics(), self.id_view()));
        }
        out
    }
}

} // verus!

verus! {

/// One price level: `[price, size]`.
pub type BybitOrderEntry = Vec<String>;

/// Whether a payload replaces the state or updates it.
#[derive(Debug, Clone, Copy, PartialEq, Eq, Structural)]
pub enum BybitDataType {
    Snapshot,
    Delta,
}

/// The book levels of one order book message.
#[derive(Debug, Clone)]
pub struct BybitOrderBookData {
    /// Symbol name (`s`).
    pub symbol: String,
    /// Bids, best first (`b`); a size of zero removes the level.
    pub bids: Vec<BybitOrderEntry>,
    /// Asks, best first (`a`).
    pub asks: Vec<BybitOrderEntry>,
    /// Update id (`u`); 1 means a snapshot after a restart of the service.
    pub update_id: u64,
    /// Cross sequence (`seq`).
    pub sequence: u64,
}

/// An order book snapshot or delta.
#[derive(Debug, Clone)]
pub struct BybitOrderBook {
    pub topic: String,
    /// When the system generated the data, in ms (`ts`).
    pub timestamp: u64,
    /// `type`.
    pub data_type: BybitDataType,
    pub data: BybitOrderBookData,
    /// The matching engine's timestamp (`cts`).
    pub correlated_timestamp: u64,
}

/// One public trade.
#[derive(Debug, Clone)]
pub struct BybitTradeData {
    /// When the order was filled, in ms (`T`).
    pub timestamp: u64,
    /// `s`.
    pub symbol: String,
    /// Side of the taker (`S`).
    pub side: String,
    /// `v`.
    pub size: String,
    /// `p`.
    pub price: String,
    /// `i`.
    pub trade_id: String,
    /// `BT`.
    pub bt: bool,
    /// `RPI`.
    pub rpi: bool,
}

/// A batch of public trades.
#[derive(Debug, Clone)]
pub struct BybitTrade {
    pub topic: String,
    /// `ts`.
    pub timestamp: u64,
    /// `type`.
    pub data_type: BybitDataType,
    pub data: Vec<BybitTradeData>,
}

/// An inbound Bybit message: acknowledgement, then order book, then
/// trade are tried in that order.
#[derive(Debug, Clone)]
pub enum BybitMessage {
    SubscriptionAck {
        success: bool,
        /// `ret_msg`.
        message: String,
        /// `conn_id`.
        connection_id: String,
        /// `req_id`.
        request_id: Option<String>,
        /// `op`.
        operation: String,
    },
    OrderBook(BybitOrderBook),
    Trade(BybitTrade),
    Unrecognized(String),
}

pub open spec fn data_type_of(v: Option<JsonValue>) -> Option<BybitDataType> {
    match as_str(v) {
        Some(s) => if s@ == "snapshot"@ {
            Some(BybitDataType::Snapshot)
        } else if s@ == "delta"@ {
            Some(BybitDataType::Delta)
        } else {
            None
        },
        None => None,
    }
}

pub open spec fn row_item(v: JsonValue) -> Option<Seq<String>> {
    match v {
        JsonValue::Array(a) => str_items(a@),
        _ => None,
    }
}

pub open spec fn rows_of(v: Option<JsonValue>) -> Option<Seq<Seq<String>>> {
    match v {
        Some(JsonValue::Array(items)) => items_of(items@, |x: JsonValue| row_item(x)),
        _ => None,
    }
}

pub open spec fn rows_view(rows: Seq<Vec<String>>) -> Seq<Seq<String>> {
    rows.map_values(|r: Vec<String>| r@)
}

/// Symbol, bids, asks, update id and sequence of a book's `data`.
pub type BookDataView = (String, Seq<Seq<String>>, Seq<Seq<String>>, u64, u64);

pub open spec fn book_data_of(v: Option<JsonValue>) -> Option<BookDataView> {
    match v {
        Some(JsonValue::Object(e)) => match (
            as_str(field(e@, "s"@)),
            rows_of(field(e@, "b"@)),
            rows_of(field(e@, "a"@)),
            as_u64(field(e@, "u"@)),
            as_u64(field(e@, "seq"@)),
        ) {
            (Some(s), Some(b), Some(a), Some(u), Some(q)) => Some((s, b, a, u, q)),
            _ => None,
        },
        _ => None,
    }
}

pub open spec fn bybit_book_of(e: Seq<(String, JsonValue)>) -> Option<(String, u64, BybitDataType, BookDataView, u64)> {
    match (
        as_str(field(e, "topic"@)),
        as_u64(field(e, "ts"@)),
        data_type_of(field(e, "type"@)),
        book_data_of(field(e, "data"@)),
        as_u64(field(e, "cts"@)),
    ) {
        (Some(t), Some(ts), Some(dt), Some(d), Some(cts)) => Some((t, ts, dt, d, cts)),
        _ => None,
    }
}

pub open spec fn trade_item(v: JsonValue) -> Option<BybitTradeData> {
    match v {
        JsonValue::Object(e) => match (
            as_u64(field(e@, "T"@)),
            as_str(field(e@, "s"@)),
            as_str(field(e@, "S"@)),
            as_str(field(e@, "v"@)),
            as_str(field(e@, "p"@)),
            as_str(field(e@, "i"@)),
            as_bool(field(e@, "BT"@)),
            as_bool(field(e@, "RPI"@)),
        ) {
            (Some(timestamp), Some(symbol), Some(side), Some(size), Some(price), Some(trade_id),
                Some(bt), Some(rpi)) => Some(
                BybitTradeData { timestamp, symbol, side, size, price, trade_id, bt, rpi },
            ),
            _ => None,
        },
        _ => None,
    }
}

pub open spec fn trade_items(v: Option<JsonValue>) -> Option<Seq<BybitTradeData>> {
    match v {
        Some(JsonValue::Array(items)) => items_of(items@, |x: JsonValue| trade_item(x)),
        _ => None,
    }
}

pub open spec fn bybit_trade_of(e: Seq<(String, JsonValue)>) -> Option<(String, u64, BybitDataType, Seq<BybitTradeData>)> {
    match (
        as_str(field(e, "topic"@)),
        as_u64(field(e, "ts"@)),
        data_type_of(field(e, "type"@)),
        trade_items(field(e, "data"@)),
    ) {
        (Some(t), Some(ts), Some(dt), Some(d)) => Some((t, ts, dt, d)),
        _ => None,
    }
}

pub open spec fn bybit_ack_of(e: Seq<(String, JsonValue)>) -> Option<(bool, String, String, Option<String>, String)> {
    match (
        as_bool(field(e, "success"@)),
        as_str(field(e, "ret_msg"@)),
        as_str(field(e, "conn_id"@)),
        as_opt_str(field(e, "req_id"@)),
        as_str(field(e, "op"@)),
    ) {
        (Some(s), Some(m), Some(c), Some(r), Some(o)) => Some((s, m, c, r, o)),
        _ => None,
    }
}

impl BybitOrderBook {
    pub open spec fn view_of(&self) -> (String, u64, BybitDataType, BookDataView, u64) {
        (
            self.topic,
            self.timestamp,
            self.data_type,
            (
                self.data.symbol,
                rows_view(self.data.bids@),
                rows_view(self.data.asks@),
                self.data.update_id,
                self.data.sequence,
            ),
            self.correlated_timestamp,
        )
    }
}

/// What a Bybit document reads as.
pub open spec fn bybit_reads_as(doc: JsonValue, raw: String, m: BybitMessage) -> bool {
    match doc {
        JsonValue::Object(e) => match bybit_ack_of(e@) {
            Some((s, msg, c, r, o)) => m == BybitMessage::SubscriptionAck {
                success: s,
                message: msg,
                connection_id: c,
                request_id: r,
                operation: o,
            },
            None => match bybit_book_of(e@) {
                Some(b) => m matches BybitMessage::OrderBook(ob) && ob.view_of() == b,
                None => match bybit_trade_of(e@) {
                    Some((t, ts, dt, d)) => m matches BybitMessage::Trade(tr) && tr.topic == t
                        && tr.timestamp == ts && tr.data_type == dt && tr.data@ == d,
                    None => m == BybitMessage::Unrecognized(raw),
                },
            },
        },
        _ => m == BybitMessage::Unrecognized(raw),
    }
}

fn data_type(v: Option<&JsonValue>) -> (r: Option<BybitDataType>)
    ensures
        r == data_type_of(match v {
            Some(x) => Some(*x),
            None => None,
        }),
{
    match v {
        Some(JsonValue::Str(s)) => {
            if *s == String::from_str("snapshot") {
                Some(BybitDataType::Snapshot)
            } else if *s == String::from_str("delta") {
                Some(BybitDataType::Delta)
            } else {
                None
            }
        },
        _ => None,
    }
}

fn rows(v: Option<&JsonValue>) -> (r: Option<Vec<BybitOrderEntry>>)
    ensures
        r matches Some(rs) ==> rows_of(match v {
            Some(x) => Some(*x),
            None => None,
        }) == Some(rows_view(rs@)),
        r is None ==> rows_of(match v {
            Some(x) => Some(*x),
            None => None,
        }) is None,
{
    let items = match v {
        Some(JsonValue::Array(items)) => items,
        _ => return None,
    };
    let mut out: Vec<BybitOrderEntry> = Vec::new();
    let mut i: usize = 0;
    while i < items.len()
        invariant
            i <= items@.len(),
            items_of(items@.take(i as int), |x: JsonValue| row_item(x)) == Some(rows_view(out@)),
            match v {
                Some(x) => *x == JsonValue::Array(*items),
                None => false,
            },
        decreases items.len() - i,
    {
        proof {
            assert(items@.take(i as int + 1).drop_last() =~= items@.take(i as int));
            assert(items@.take(i as int + 1).last() == items@[i as int]);
        }
        let row = match &items[i] {
            JsonValue::Array(a) => str_array(a),
            _ => None,
        };
        match row {
            Some(row) => {
                proof {
                    assert(rows_view(out@.push(row)) =~= rows_view(out@).push(row@));
                }
                out.push(row);
            },
            None => {
                proof {
                    assert(row_item(items@[i as int]) is None);
                    lemma_items_of_prefix(items@, |x: JsonValue| row_item(x), i as int + 1);
                }
                return None;
            },
        }
        i = i + 1;
    }
    proof {
        assert(items@.take(items@.len() as int) =~= items@);
    }
    Some(out)
}

fn book_data(v: Option<&JsonValue>) -> (r: Option<BybitOrderBookData>)
    ensures
        r matches Some(d) ==> book_data_of(match v {
            Some(x) => Some(*x),
            None => None,
        }) == Some((d.symbol, rows_view(d.bids@), rows_view(d.asks@), d.update_id, d.sequence)),
        r is None ==> book_data_of(match v {
            Some(x) => Some(*x),
            None => None,
        }) is None,
{
    let e = match v {
        Some(JsonValue::Object(e)) => e,
        _ => return None,
    };
    match (get_str(e, "s"), rows(get(e, "b")), rows(get(e, "a")), get_u64(e, "u"), get_u64(e, "seq")) {
        (Some(symbol), Some(bids), Some(asks), Some(update_id), Some(sequence)) => Some(
            BybitOrderBookData { symbol, bids, asks, update_id, sequence },
        ),
        _ => None,
    }
}

fn read_book(e: &Vec<(String, JsonValue)>) -> (r: Option<BybitOrderBook>)
    ensures
        r matches Some(b) ==> bybit_book_of(e@) == Some(b.view_of()),
        r is None ==> bybit_book_of(e@) is None,
{
    match (get_str(e, "topic"), get_u64(e, "ts"), data_type(get(e, "type")), book_data(get(e, "data")), get_u64(e, "cts")) {
        (Some(topic), Some(timestamp), Some(data_type), Some(data), Some(correlated_timestamp)) => Some(
            BybitOrderBook { topic, timestamp, data_type, data, correlated_timestamp },
        ),
        _ => None,
    }
}

fn read_trade_item(v: &JsonValue) -> (r: Option<BybitTradeData>)
    ensures
        r == trade_item(*v),
{
    let e = match v {
        JsonValue::Object(e) => e,
        _ => return None,
    };
    match (
        get_u64(e, "T"),
        get_str(e, "s"),
        get_str(e, "S"),
        get_str(e, "v"),
        get_str(e, "p"),
        get_str(e, "i"),
        get_bool(e, "BT"),
        get_bool(e, "RPI"),
    ) {
        (Some(timestamp), Some(symbol), Some(side), Some(size), Some(price), Some(trade_id),
            Some(bt), Some(rpi)) => Some(
            BybitTradeData { timestamp, symbol, side, size, price, trade_id, bt, rpi },
        ),
        _ => None,
    }
}

fn trades(v: Option<&JsonValue>) -> (r: Option<Vec<BybitTradeData>>)
    ensures
        r matches Some(ts) ==> trade_items(match v {
            Some(x) => Some(*x),
            None => None,
        }) == Some(ts@),
        r is None ==> trade_items(match v {
            Some(x) => Some(*x),
            None => None,
        }) is None,
{
    let items = match v {
        Some(JsonValue::Array(items)) => items,
        _ => return None,
    };
    let mut out: Vec<BybitTradeData> = Vec::new();
    let mut i: usize = 0;
    while i < items.len()
        invariant
            i <= items@.len(),
            items_of(items@.take(i as int), |x: JsonValue| trade_item(x)) == Some(out@),
            match v {
                Some(x) => *x == JsonValue::Array(*items),
                None => false,
            },
        decreases items.len() - i,
    {
        proof {
            assert(items@.take(i as int + 1).drop_last() =~= items@.take(i as int));
            assert(items@.take(i as int + 1).last() == items@[i as int]);
        }
        match read_trade_item(&items[i]) {
            Some(t) => {
                out.push(t);
            },
            None => {
                proof {
                    lemma_items_of_prefix(items@, |x: JsonValue| trade_item(x), i as int + 1);
                }
                return None;
            },
        }
        i = i + 1;
    }
    proof {
        assert(items@.take(items@.len() as int) =~= items@);
    }
    Some(out)
}

fn read_trade(e: &Vec<(String, JsonValue)>) -> (r: Option<BybitTrade>)
    ensures
        r matches Some(t) ==> bybit_trade_of(e@) == Some((t.topic, t.timestamp, t.data_type, t.data@)),
        r is None ==> bybit_trade_of(e@) is None,
{
    match (get_str(e, "topic"), get_u64(e, "ts"), data_type(get(e, "type")), trades(get(e, "data"))) {
        (Some(topic), Some(timestamp), Some(data_type), Some(data)) => Some(
            BybitTrade { topic, timestamp, data_type, data },
        ),
        _ => None,
    }
}

impl VenueMessage for BybitMessage {
    open spec fn reads_as(doc: JsonValue, raw: String, m: Self) -> bool {
        bybit_reads_as(doc, raw, m)
    }

    fn classify(doc: &JsonValue, raw: &String) -> (r: Self) {
        let e = match doc {
            JsonValue::Object(e) => e,
            _ => return BybitMessage::Unrecognized(raw.clone()),
        };
        match (get_bool(e, "success"), get_str(e, "ret_msg"), get_str(e, "conn_id"), get_opt_str(e, "req_id"), get_str(e, "op")) {
            (Some(success), Some(message), Some(connection_id), Some(request_id), Some(operation)) => {
                return BybitMessage::SubscriptionAck { success, message, connection_id, request_id, operation };
            },
            _ => {},
        }
        if let Some(b) = read_book(e) {
            return BybitMessage::OrderBook(b);
        }
        match read_trade(e) {
            Some(t) => BybitMessage::Trade(t),
            None => BybitMessage::Unrecognized(raw.clone()),
        }
    }
}

} // verus!
