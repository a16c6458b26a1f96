use exstreamer::binance::BinanceMessage;
use exstreamer::builders::StreamBuilder;
use exstreamer::bybit::{BybitDataType, BybitMessage};
use exstreamer::coinbase::CoinbaseMessage;
use exstreamer::common::RequestKind;
use exstreamer::engine::{reader_step, Frame, ReaderEvent};
use exstreamer::error::ExStreamError;
use exstreamer::inbound::parse_frame;
use exstreamer::kraken::{KrakenChannel, KrakenData, KrakenEventKind, KrakenMessage, KrakenParams};

const BINANCE_TRADE: &str = r#"{"e":"trade","E":1672515782136,"s":"BTCUSDT","t":12345,"p":"16500.00000001","q":"0.00100000","T":1672515782136,"m":true,"M":true}"#;

#[test]
fn binance_trade_keeps_price_text() {
    let h = StreamBuilder::binance().with_trade("btcusdt").with_trade("ethusdt").handshake().unwrap();
    assert_eq!(h.message, r#"{"method":"SUBSCRIBE","params":["btcusdt@trade","ethusdt@trade"],"id":null}"#);
    let step = reader_step::<BinanceMessage>(ReaderEvent::Received(Frame::Text(BINANCE_TRADE.to_string())));
    assert!(!step.stop);
    assert!(step.pong.is_none());
    match step.item {
        Some(Ok(BinanceMessage::Trade(t))) => {
            assert_eq!(t.symbol, "BTCUSDT");
            assert_eq!(t.price, "16500.00000001");
            assert_eq!(t.quantity, "0.00100000");
            assert_eq!(t.trade_id, 12345);
            assert_eq!(t.event_time, 1672515782136);
            assert!(t.is_market_maker);
        }
        other => panic!("expected a trade, got {:?}", other),
    }
}

#[test]
fn binance_ack_is_tried_first() {
    match parse_frame::<BinanceMessage>(r#"{"result":null,"id":1}"#.to_string()) {
        Ok(BinanceMessage::SubscriptionAck(a)) => {
            assert_eq!(a.result, None);
            assert_eq!(a.id, Some(1));
        }
        other => panic!("expected an ack, got {:?}", other),
    }
    match parse_frame::<BinanceMessage>(r#"{"result":true}"#.to_string()) {
        Ok(BinanceMessage::SubscriptionAck(a)) => {
            assert_eq!(a.result, Some(true));
            assert_eq!(a.id, None);
        }
        other => panic!("expected an ack, got {:?}", other),
    }
    match parse_frame::<BinanceMessage>(r#"{"result":null,"id":1,"extra":2}"#.to_string()) {
        Ok(BinanceMessage::Unrecognized(raw)) => assert_eq!(raw, r#"{"result":null,"id":1,"extra":2}"#),
        other => panic!("expected unrecognized, got {:?}", other),
    }
}

#[test]
fn unknown_shape_keeps_raw_text() {
    match parse_frame::<BinanceMessage>("[1,2]".to_string()) {
        Ok(BinanceMessage::Unrecognized(raw)) => assert_eq!(raw, "[1,2]"),
        other => panic!("expected unrecognized, got {:?}", other),
    }
    let price_as_number = r#"{"e":"trade","E":1,"s":"X","t":2,"p":1.5,"q":"1","T":3,"m":false,"M":false}"#;
    assert!(matches!(parse_frame::<BinanceMessage>(price_as_number.to_string()), Ok(BinanceMessage::Unrecognized(_))));
}

#[test]
fn malformed_frame_is_one_error_and_reading_goes_on() {
    let step = reader_step::<BinanceMessage>(ReaderEvent::Received(Frame::Text("{not json".to_string())));
    assert!(!step.stop);
    assert!(step.pong.is_none());
    match step.item {
        Some(Err(ExStreamError::ParseError { raw_content, .. })) => assert_eq!(raw_content, "{not json"),
        other => panic!("expected a parse error, got {:?}", other),
    }
    let next = reader_step::<BinanceMessage>(ReaderEvent::Received(Frame::Text(BINANCE_TRADE.to_string())));
    assert!(matches!(next.item, Some(Ok(BinanceMessage::Trade(_)))));
}

#[test]
fn bybit_messages() {
    let ack = r#"{"success":true,"ret_msg":"","conn_id":"c1","req_id":"r1","op":"subscribe"}"#;
    match parse_frame::<BybitMessage>(ack.to_string()) {
        Ok(BybitMessage::SubscriptionAck { success, message, connection_id, request_id, operation }) => {
            assert!(success);
            assert_eq!(message, "");
            assert_eq!(connection_id, "c1");
            assert_eq!(request_id, Some("r1".to_string()));
            assert_eq!(operation, "subscribe");
        }
        other => panic!("expected an ack, got {:?}", other),
    }
    let book = r#"{"topic":"orderbook.50.BTCUSDT","ts":10,"type":"snapshot","data":{"s":"BTCUSDT","b":[["1.5","2"]],"a":[],"u":7,"seq":8},"cts":9}"#;
    match parse_frame::<BybitMessage>(book.to_string()) {
        Ok(BybitMessage::OrderBook(b)) => {
            assert_eq!(b.topic, "orderbook.50.BTCUSDT");
            assert_eq!(b.data_type, BybitDataType::Snapshot);
            assert_eq!(b.data.bids, vec![vec!["1.5".to_string(), "2".to_string()]]);
            assert!(b.data.asks.is_empty());
            assert_eq!(b.data.update_id, 7);
            assert_eq!(b.correlated_timestamp, 9);
        }
        other => panic!("expected a book, got {:?}", other),
    }
    let trade = r#"{"topic":"publicTrade.BTCUSDT","ts":1,"type":"delta","data":[{"T":2,"s":"BTCUSDT","S":"Buy","v":"0.1","p":"30000.5","i":"abc","BT":false,"RPI":false}]}"#;
    match parse_frame::<BybitMessage>(trade.to_string()) {
        Ok(BybitMessage::Trade(t)) => {
            assert_eq!(t.data_type, BybitDataType::Delta);
            assert_eq!(t.data.len(), 1);
            assert_eq!(t.data[0].price, "30000.5");
            assert_eq!(t.data[0].side, "Buy");
        }
        other => panic!("expected a trade, got {:?}", other),
    }
    assert!(matches!(parse_frame::<BybitMessage>(r#"{"topic":"x"}"#.to_string()), Ok(BybitMessage::Unrecognized(_))));
}

#[test]
fn coinbase_messages() {
    let ack = r#"{"type":"subscriptions","channels":[{"name":"ticker","product_ids":["ETH-BTC"]}]}"#;
    match parse_frame::<CoinbaseMessage>(ack.to_string()) {
        Ok(CoinbaseMessage::SubscriptionAck { kind, channels }) => {
            assert_eq!(kind, "subscriptions");
            assert_eq!(channels.len(), 1);
            assert_eq!(channels[0].product_ids, vec!["ETH-BTC".to_string()]);
        }
        other => panic!("expected an ack, got {:?}", other),
    }
    let ticker = r#"{"type":"ticker","sequence":5,"product_id":"ETH-BTC","price":"0.05","open_24h":"1","volume_24h":"2","low_24h":"3","high_24h":"4","volume_30d":"5","best_bid":"6","best_bid_size":"7","best_ask":"8","best_ask_size":"9","side":"buy","time":"t","trade_id":11,"last_size":"0.1"}"#;
    match parse_frame::<CoinbaseMessage>(ticker.to_string()) {
        Ok(CoinbaseMessage::Ticker(t)) => {
            assert_eq!(t.product_id, "ETH-BTC");
            assert_eq!(t.price, "0.05");
            assert_eq!(t.trade_id, 11);
        }
        other => panic!("expected a ticker, got {:?}", other),
    }
    assert!(matches!(parse_frame::<CoinbaseMessage>(r#"{"type":"heartbeat"}"#.to_string()), Ok(CoinbaseMessage::Unrecognized(_))));
}

#[test]
fn kraken_messages() {
    let ack = r#"{"method":"SUBSCRIBE","result":{"channel":"trade","symbol":["BTC/USD"],"snapshot":true},"success":true,"error":"","time_in":"a","time_out":"b","req_id":3}"#;
    match parse_frame::<KrakenMessage>(ack.to_string()) {
        Ok(KrakenMessage::SubscriptionAck { kind, result, success, req_id, .. }) => {
            assert_eq!(kind, RequestKind::Subscribe);
            assert!(success);
            assert_eq!(req_id, Some(3));
            match result {
                KrakenParams::Trade(p) => {
                    assert_eq!(p.symbol, vec!["BTC/USD".to_string()]);
                    assert_eq!(p.snapshot, Some(true));
                }
                KrakenParams::L3(_) => panic!("expected trade parameters"),
            }
        }
        other => panic!("expected an ack, got {:?}", other),
    }
    let trade = r#"{"channel":"trade","type":"update","data":[{"symbol":"BTC/USD","side":"buy","qty":0.5,"price":65000.25,"ord_type":"market","trade_id":9,"timestamp":"2024-01-01T00:00:00Z"}]}"#;
    match parse_frame::<KrakenMessage>(trade.to_string()) {
        Ok(KrakenMessage::Event(e)) => {
            assert_eq!(e.channel, KrakenChannel::Trade);
            assert_eq!(e.kind, KrakenEventKind::Update);
            match &e.data[0] {
                KrakenData::Trade(t) => {
                    assert_eq!(t.price, "65000.25");
                    assert_eq!(t.size, "0.5");
                }
                KrakenData::Book(_) => panic!("expected a trade"),
            }
        }
        other => panic!("expected an event, got {:?}", other),
    }
    let book = r#"{"channel":"level3","type":"snapshot","data":[{"symbol":"BTC/USD","checksum":42,"bids":[{"order_id":"o1","limit_price":1.5,"order_qty":2,"timestamp":"t"}],"asks":[]}]}"#;
    match parse_frame::<KrakenMessage>(book.to_string()) {
        Ok(KrakenMessage::Event(e)) => match &e.data[0] {
            KrakenData::Book(b) => {
                assert_eq!(b.checksum, 42);
                assert_eq!(b.bids[0].order_id, "o1");
                assert_eq!(b.bids[0].size, "2");
            }
            KrakenData::Trade(_) => panic!("expected a book"),
        },
        other => panic!("expected an event, got {:?}", other),
    }
    match parse_frame::<KrakenMessage>(r#"{"channel":"heartbeat"}"#.to_string()) {
        Ok(KrakenMessage::Heartbeat { channel }) => assert_eq!(channel, "heartbeat"),
        other => panic!("expected a heartbeat, got {:?}", other),
    }
    assert!(matches!(parse_frame::<KrakenMessage>("{}".to_string()), Ok(KrakenMessage::Unrecognized(_))));
}
