use exstreamer::binance::BinanceRequest;
use exstreamer::builders::{Handshake, StreamBuilder, DEFAULT_ORDERBOOK_DEPTH};
use exstreamer::bybit::BybitRequest;
use exstreamer::coinbase::CoinbaseRequest;
use exstreamer::common::RequestKind;
use exstreamer::error::ExStreamError;
use exstreamer::kraken::{KrakenChannel, KrakenParams, KrakenRequest};
use exstreamer::subscription::{
    BinanceConfig, BinanceSubscription, Subscription, SubscriptionKind, SubscriptionSource,
};

fn ok(r: Result<Handshake, ExStreamError>) -> Handshake {
    match r {
        Ok(h) => h,
        Err(e) => panic!("unexpected error {:?}", e),
    }
}

#[test]
fn empty_binance_builder_is_refused() {
    let r = StreamBuilder::binance().with_id(7).handshake();
    assert!(matches!(r, Err(ExStreamError::EmptySubscriptionList)));
}

#[test]
fn empty_bybit_builder_is_refused() {
    let r = StreamBuilder::bybit().with_id("a".to_string()).with_depth(200).handshake();
    assert!(matches!(r, Err(ExStreamError::EmptySubscriptionList)));
}

#[test]
fn empty_coinbase_builder_is_refused() {
    let r = StreamBuilder::coinbase().handshake();
    assert!(matches!(r, Err(ExStreamError::EmptySubscriptionList)));
}

#[test]
fn empty_kraken_builders_are_refused() {
    let r = StreamBuilder::kraken(KrakenChannel::Trade).with_id(3).handshake();
    assert!(matches!(r, Err(ExStreamError::EmptySubscriptionList)));
    let r = StreamBuilder::kraken(KrakenChannel::L3).with_token("tok".to_string()).handshake();
    assert!(matches!(r, Err(ExStreamError::EmptySubscriptionList)));
    let r = StreamBuilder::kraken(KrakenChannel::L3).handshake();
    assert!(matches!(r, Err(ExStreamError::EmptySubscriptionList)));
}

#[test]
fn level3_without_token_is_refused() {
    let r = StreamBuilder::kraken(KrakenChannel::L3).with_symbol("btc/usd").handshake();
    assert!(matches!(r, Err(ExStreamError::MissingAuth)));
    let r = StreamBuilder::kraken(KrakenChannel::L3)
        .with_symbol("btc/usd")
        .with_token(String::new())
        .handshake();
    assert!(matches!(r, Err(ExStreamError::MissingAuth)));
}

#[test]
fn level3_with_token_uses_the_authenticated_endpoint() {
    let h = ok(StreamBuilder::kraken(KrakenChannel::L3)
        .with_symbol("btc/usd")
        .with_token("secret".to_string())
        .with_depth(10)
        .with_id(5)
        .handshake());
    assert_eq!(h.endpoint, "wss://ws-auth.kraken.com/v2");
    assert_eq!(
        h.message,
        r#"{"method":"subscribe","params":{"channel":"level3","symbol":["BTC/USD"],"depth":10,"snapshot":true,"token":"secret"},"req_id":5}"#
    );
}

#[test]
fn kraken_trade_request_text() {
    let h = ok(StreamBuilder::kraken(KrakenChannel::Trade)
        .with_symbols(vec!["btc/usd".to_string(), "eth/usd".to_string()])
        .with_token("ignored".to_string())
        .with_depth(100)
        .handshake());
    assert_eq!(h.endpoint, "wss://ws.kraken.com/v2");
    assert_eq!(
        h.message,
        r#"{"method":"subscribe","params":{"channel":"trade","symbol":["BTC/USD","ETH/USD"]}}"#
    );
}

#[test]
fn binance_topic_is_lower_case() {
    let r = BinanceRequest::new_subscribe().with_trade("BTCUSDT");
    assert_eq!(r.params, vec!["btcusdt@trade".to_string()]);
}

#[test]
fn bybit_topics_are_upper_case() {
    let r = BybitRequest::new_subscribe().with_trade("btcusdt").with_orderbook("ethusdt", 50);
    assert_eq!(r.params, vec!["publicTrade.BTCUSDT".to_string(), "orderbook.50.ETHUSDT".to_string()]);
    let r = BybitRequest::new_subscribe().with_trade("BTCUSDT");
    assert_eq!(r.params, vec!["publicTrade.BTCUSDT".to_string()]);
}

#[test]
fn coinbase_channel_is_ticker_in_upper_case() {
    let r = CoinbaseRequest::new_subscribe().with_trade("btcusdt");
    assert_eq!(r.params.len(), 1);
    assert_eq!(r.params[0].name, "ticker");
    assert_eq!(r.params[0].product_ids, vec!["BTCUSDT".to_string()]);
    let c = CoinbaseRequest::trade_param("BTCUSDT");
    assert_eq!(c.name, "ticker");
    assert_eq!(c.product_ids, vec!["BTCUSDT".to_string()]);
}

#[test]
fn binance_builder_text() {
    let h = ok(StreamBuilder::binance().trade("BTCUSDT").with_trade("ethusdt").handshake());
    assert_eq!(h.endpoint, "wss://stream.binance.com:9443/ws");
    assert_eq!(h.message, r#"{"method":"SUBSCRIBE","params":["btcusdt@trade","ethusdt@trade"],"id":null}"#);
    let h = ok(StreamBuilder::binance()
        .with_id(18446744073709551615)
        .with_trades(vec!["solusdt".to_string()])
        .handshake());
    assert_eq!(h.message, r#"{"method":"SUBSCRIBE","params":["solusdt@trade"],"id":18446744073709551615}"#);
    let h = ok(StreamBuilder::binance().with_id(0).with_trade("x").handshake());
    assert_eq!(h.message, r#"{"method":"SUBSCRIBE","params":["x@trade"],"id":0}"#);
}

#[test]
fn bybit_builder_text_and_default_depth() {
    let h = ok(StreamBuilder::bybit().trade("btcusdt").orderbook("ethusdt").handshake());
    assert_eq!(h.endpoint, "wss://stream.bybit.com/v5/public/spot");
    assert_eq!(
        h.message,
        r#"{"op":"subscribe","args":["publicTrade.BTCUSDT","orderbook.50.ETHUSDT"],"req_id":null}"#
    );
    assert_eq!(DEFAULT_ORDERBOOK_DEPTH, 50);
    let h = ok(StreamBuilder::bybit()
        .with_id("req-1".to_string())
        .with_depth(200)
        .orderbook("solusdt")
        .with_orderbooks(vec!["a".to_string(), "b".to_string()], 1)
        .with_trades(vec!["c".to_string()])
        .handshake());
    assert_eq!(
        h.message,
        r#"{"op":"subscribe","args":["orderbook.200.SOLUSDT","orderbook.1.A","orderbook.1.B","publicTrade.C"],"req_id":"req-1"}"#
    );
}

#[test]
fn coinbase_builder_text() {
    let h = ok(StreamBuilder::coinbase()
        .with_trade("eth-btc")
        .with_trades(vec!["btc-usd".to_string()])
        .handshake());
    assert_eq!(h.endpoint, "wss://ws-feed.exchange.coinbase.com");
    assert_eq!(
        h.message,
        r#"{"type":"subscribe","channels":[{"name":"ticker","product_ids":["ETH-BTC"]},{"name":"ticker","product_ids":["BTC-USD"]}],"product_ids":[]}"#
    );
}

#[test]
fn quotes_in_symbols_are_escaped() {
    let r = BinanceRequest::new_subscribe().with_trade("a\"b");
    assert_eq!(r.to_json(), r#"{"method":"SUBSCRIBE","params":["a\"b@trade"],"id":null}"#);
}

#[test]
fn unsubscribe_mirrors_subscribe() {
    let s = BinanceRequest::new_subscribe().with_trade("BTCUSDT").with_id(1);
    let u = BinanceRequest::new_unsubscribe().with_trade("BTCUSDT").with_id(1);
    assert_eq!(s.params, u.params);
    assert_eq!(s.to_json().replacen("SUBSCRIBE", "UNSUBSCRIBE", 1), u.to_json());

    let s = BybitRequest::new_subscribe().with_orderbook("btcusdt", 50);
    let u = BybitRequest::new_unsubscribe().with_orderbook("btcusdt", 50);
    assert_eq!(s.to_json().replacen("subscribe", "unsubscribe", 1), u.to_json());

    let s = CoinbaseRequest::trade_request(RequestKind::Subscribe, "eth-usd");
    let u = CoinbaseRequest::trade_request(RequestKind::Unsubscribe, "eth-usd");
    assert_eq!(u.to_json(), r#"{"type":"unsubscribe","channels":[{"name":"ticker","product_ids":["ETH-USD"]}],"product_ids":[]}"#);
    assert_eq!(s.to_json().replacen("subscribe", "unsubscribe", 1), u.to_json());

    let mut s = KrakenRequest::new_subscribe(KrakenChannel::Trade);
    let mut u = KrakenRequest::new_unsubscribe(KrakenChannel::Trade);
    s.add_symbol("btc/usd");
    u.add_symbol("btc/usd");
    assert_eq!(s.to_json().replacen("subscribe", "unsubscribe", 1), u.to_json());
}

#[test]
fn request_constructors_and_flags() {
    let r = BinanceRequest::new(RequestKind::Unsubscribe, vec!["x@trade".to_string()]);
    assert!(!r.is_empty());
    assert_eq!(r.id, None);
    assert!(BinanceRequest::new_unsubscribe().is_empty());
    let r = BybitRequest::new(RequestKind::Subscribe, vec![]).with_id("9".to_string());
    assert!(r.is_empty());
    assert_eq!(r.to_json(), r#"{"op":"subscribe","args":[],"req_id":"9"}"#);
    assert!(BybitRequest::new_unsubscribe().with_trades(vec!["a".to_string()]).with_orderbooks(vec!["b".to_string()], 5).params.len() == 2);
    let r = CoinbaseRequest::new(RequestKind::Subscribe, vec![CoinbaseRequest::trade_param("x")]);
    assert!(!r.is_empty());
    assert!(CoinbaseRequest::new_unsubscribe().with_trades(vec!["q".to_string()]).params.len() == 1);

    let mut k = KrakenRequest::new_subscribe(KrakenChannel::L3);
    assert!(k.is_empty());
    assert!(k.is_auth_required());
    assert!(k.is_missing_auth());
    k.set_token("t".to_string());
    k.set_depth(1000);
    k.set_id(4);
    k.add_symbols(vec!["eth/usd".to_string()]);
    assert!(!k.is_missing_auth());
    assert_eq!(
        k.to_json(),
        r#"{"method":"subscribe","params":{"channel":"level3","symbol":["ETH/USD"],"depth":1000,"snapshot":true,"token":"t"},"req_id":4}"#
    );
    let mut t = KrakenRequest::new(RequestKind::Unsubscribe, KrakenRequest::new_subscribe(KrakenChannel::Trade).params);
    t.set_token("t".to_string());
    t.set_depth(10);
    assert!(!t.is_auth_required());
    assert!(!t.is_missing_auth());
    match &t.params {
        KrakenParams::Trade(p) => assert!(p.snapshot.is_none()),
        KrakenParams::L3(_) => panic!("expected trade parameters"),
    }
}

#[test]
fn single_topic_messages_have_sorted_keys() {
    let s = Subscription::new(SubscriptionKind::Trade, "BTCUSDT", Some(3), None);
    assert_eq!(s.to_topic(&SubscriptionSource::Binance), "btcusdt@trade");
    assert_eq!(
        s.to_subscription_msg(&SubscriptionSource::Binance),
        r#"{"id":3,"method":"SUBSCRIBE","params":["btcusdt@trade"]}"#
    );
    assert_eq!(
        s.to_unsubscription_msg(&SubscriptionSource::Bybit),
        r#"{"args":["publicTrade.BTCUSDT"],"op":"unsubscribe","req_id":"3"}"#
    );
    let o = Subscription::new(SubscriptionKind::OrderBook, "ethusdt", None, None);
    assert_eq!(o.to_topic(&SubscriptionSource::Bybit), "orderbook.50.ETHUSDT");
    assert_eq!(o.to_subscription_msg(&SubscriptionSource::Bybit), r#"{"args":["orderbook.50.ETHUSDT"],"op":"subscribe"}"#);
    let t = Subscription::new(SubscriptionKind::Trade, "ethusdt", None, None);
    assert_eq!(t.to_subscription_msg(&SubscriptionSource::Binance), r#"{"id":null,"method":"SUBSCRIBE","params":["ethusdt@trade"]}"#);
    assert_eq!(SubscriptionSource::Bybit.endpoint(), "wss://stream.bybit.com/v5/public/spot");
    assert_eq!(SubscriptionSource::Binance.endpoint(), "wss://stream.binance.com:9443/ws");
}

#[test]
fn single_symbol_stream_messages() {
    let mut s = BinanceSubscription::new(BinanceConfig { symbol: "BNBBTC".to_string() }, 12);
    assert_eq!(s.name(), "binance");
    assert_eq!(s.endpoint(), "wss://stream.binance.com:9443/ws");
    assert_eq!(s.sub_msg(), r#"{"id":12,"method":"SUBSCRIBE","params":["bnbbtc@trade"]}"#);
    assert_eq!(s.unsub_msg(), r#"{"id":12,"method":"UNSUBSCRIBE","params":["bnbbtc@trade"]}"#);
}
