//! Properties that hold across the request shapes of all venues.

use vstd::prelude::*;
use crate::binance::{binance_request_text, binance_topic};
use crate::bybit::{bybit_orderbook_topic, bybit_request_text, bybit_trade_topic};
use crate::coinbase::{coinbase_channel_texts, coinbase_request_text, coinbase_ticker, ChannelView};
use crate::common::RequestKind;
use crate::kraken::{kraken_request_text, opt_decimal, optional_field};
use crate::subscription::{single_topic_text, SubscriptionSource};
use crate::text::{decimal, json_array, json_quoted, lower_of, quoted_all, upper_of};

verus! {

/// Topics are built from the symbol's case-folded text alone: symbols that
/// fold alike get the same topic or channel on every venue.
pub proof fn lemma_topics_case_normalized(s: Seq<char>, t: Seq<char>, depth: u64)
    ensures
        lower_of(s) == lower_of(t) ==> binance_topic(s) == binance_topic(t),
        upper_of(s) == upper_of(t) ==> bybit_trade_topic(s) == bybit_trade_topic(t),
        upper_of(s) == upper_of(t) ==> bybit_orderbook_topic(s, depth) == bybit_orderbook_topic(t, depth),
        upper_of(s) == upper_of(t) ==> coinbase_ticker(s) == coinbase_ticker(t),
{
}

/// Two texts that are the same but for one word.
pub open spec fn differ_in_word_only(a: Seq<char>, wa: Seq<char>, b: Seq<char>, wb: Seq<char>) -> bool {
    exists|head: Seq<char>, tail: Seq<char>| a == head + wa + tail && b == head + wb + tail
}

/// Binance: an unsubscribe request encodes its topics exactly as the
/// subscribe request with the same topics does; the texts differ in the
/// action word alone.
pub proof fn lemma_binance_unsubscribe_mirrors(topics: Seq<Seq<char>>, id: Option<u64>)
    ensures
        differ_in_word_only(
            binance_request_text(RequestKind::Subscribe, topics, id),
            RequestKind::Subscribe.upper_spec(),
            binance_request_text(RequestKind::Unsubscribe, topics, id),
            RequestKind::Unsubscribe.upper_spec(),
        ),
{
    let s = RequestKind::Subscribe;
    let u = RequestKind::Unsubscribe;
    let h = "{\"method\":\""@;
    let t = "\",\"params\":"@ + json_array(quoted_all(topics)) + ",\"id\":"@ + match id {
        Some(n) => decimal(n as nat),
        None => "null"@,
    } + "}"@;
    assert(binance_request_text(s, topics, id) =~= h + s.upper_spec() + t);
    assert(binance_request_text(u, topics, id) =~= h + u.upper_spec() + t);
}

/// Bybit: the unsubscribe text differs from the subscribe text with the
/// same topics in the action word alone.
pub proof fn lemma_bybit_unsubscribe_mirrors(topics: Seq<Seq<char>>, id: Option<Seq<char>>)
    ensures
        differ_in_word_only(
            bybit_request_text(RequestKind::Subscribe, topics, id),
            RequestKind::Subscribe.lower_spec(),
            bybit_request_text(RequestKind::Unsubscribe, topics, id),
            RequestKind::Unsubscribe.lower_spec(),
        ),
{
    let s = RequestKind::Subscribe;
    let u = RequestKind::Unsubscribe;
    let h = "{\"op\":\""@;
    let t = "\",\"args\":"@ + json_array(quoted_all(topics)) + ",\"req_id\":"@ + match id {
        Some(x) => json_quoted(x),
        None => "null"@,
    } + "}"@;
    assert(bybit_request_text(s, topics, id) =~= h + s.lower_spec() + t);
    assert(bybit_request_text(u, topics, id) =~= h + u.lower_spec() + t);
}

/// Coinbase: the unsubscribe text differs from the subscribe text with the
/// same channels in the action word alone.
pub proof fn lemma_coinbase_unsubscribe_mirrors(channels: Seq<ChannelView>, product_ids: Seq<Seq<char>>)
    ensures
        differ_in_word_only(
            coinbase_request_text(RequestKind::Subscribe, channels, product_ids),
            RequestKind::Subscribe.lower_spec(),
            coinbase_request_text(RequestKind::Unsubscribe, channels, product_ids),
            RequestKind::Unsubscribe.lower_spec(),
        ),
{
    let s = RequestKind::Subscribe;
    let u = RequestKind::Unsubscribe;
    let h = "{\"type\":\""@;
    let t = "\",\"channels\":"@ + json_array(coinbase_channel_texts(channels)) + ",\"product_ids\":"@
        + json_array(quoted_all(product_ids)) + "}"@;
    assert(coinbase_request_text(s, channels, product_ids) =~= h + s.lower_spec() + t);
    assert(coinbase_request_text(u, channels, product_ids) =~= h + u.lower_spec() + t);
}

/// Kraken: the unsubscribe text differs from the subscribe text with the
/// same parameters in the action word alone.
pub proof fn lemma_kraken_unsubscribe_mirrors(params: Seq<char>, id: Option<u64>)
    ensures
        differ_in_word_only(
            kraken_request_text(RequestKind::Subscribe, params, id),
            RequestKind::Subscribe.lower_spec(),
            kraken_request_text(RequestKind::Unsubscribe, params, id),
            RequestKind::Unsubscribe.lower_spec(),
        ),
{
    let s = RequestKind::Subscribe;
    let u = RequestKind::Unsubscribe;
    let h = "{\"method\":\""@;
    let t = "\",\"params\":"@ + params + optional_field("\"req_id\":"@, opt_decimal(id)) + "}"@;
    assert(kraken_request_text(s, params, id) =~= h + s.lower_spec() + t);
    assert(kraken_request_text(u, params, id) =~= h + u.lower_spec() + t);
}

/// A single channel's unsubscribe text differs from its subscribe text in
/// the action word alone, on both venues that describe channels one by one.
pub proof fn lemma_single_topic_unsubscribe_mirrors(source: SubscriptionSource, topic: Seq<char>, id: Option<u64>)
    ensures
        source == SubscriptionSource::Binance ==> differ_in_word_only(
            single_topic_text(source, RequestKind::Subscribe, topic, id),
            RequestKind::Subscribe.upper_spec(),
            single_topic_text(source, RequestKind::Unsubscribe, topic, id),
            RequestKind::Unsubscribe.upper_spec(),
        ),
        source == SubscriptionSource::Bybit ==> differ_in_word_only(
            single_topic_text(source, RequestKind::Subscribe, topic, id),
            RequestKind::Subscribe.lower_spec(),
            single_topic_text(source, RequestKind::Unsubscribe, topic, id),
            RequestKind::Unsubscribe.lower_spec(),
        ),
{
    let s = RequestKind::Subscribe;
    let u = RequestKind::Unsubscribe;
    let one = json_array(seq![json_quoted(topic)]);
    if source == SubscriptionSource::Binance {
        let h = "{\"id\":"@ + match id {
            Some(n) => decimal(n as nat),
            None => "null"@,
        } + ",\"method\":\""@;
        let t = "\",\"params\":"@ + one + "}"@;
        assert(single_topic_text(source, s, topic, id) =~= h + s.upper_spec() + t);
        assert(single_topic_text(source, u, topic, id) =~= h + u.upper_spec() + t);
    } else {
        let h = "{\"args\":"@ + one + ",\"op\":\""@;
        let t = "\""@ + match id {
            Some(n) => ",\"req_id\":\""@ + decimal(n as nat) + "\""@,
            None => Seq::empty(),
        } + "}"@;
        assert(single_topic_text(source, s, topic, id) =~= h + s.lower_spec() + t);
        assert(single_topic_text(source, u, topic, id) =~= h + u.lower_spec() + t);
    }
}

} // verus!
