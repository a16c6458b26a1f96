use exstreamer::binance::BinanceMessage;
use exstreamer::engine::{
    join_outcome, reader_step, writer_step, ConnectionState, Frame, Lifecycle, Outbound, ReaderEvent,
    WriterEvent,
};
use exstreamer::error::ExStreamError;
use tokio_tungstenite::tungstenite;

#[test]
fn ping_is_answered_by_one_pong() {
    let step = reader_step::<BinanceMessage>(ReaderEvent::Received(Frame::Ping(vec![1, 2, 3])));
    assert_eq!(step.pong, Some(vec![1, 2, 3]));
    assert!(step.item.is_none());
    assert!(!step.stop);
    let w = writer_step(WriterEvent::Queued(Outbound::Pong(step.pong.unwrap())));
    assert!(matches!(w.send, Some(Outbound::Pong(p)) if p == vec![1, 2, 3]));
    assert!(!w.stop);
}

#[test]
fn pong_and_close_frames() {
    let step = reader_step::<BinanceMessage>(ReaderEvent::Received(Frame::Pong(vec![9])));
    assert!(step.item.is_none() && step.pong.is_none() && !step.stop);
    let step = reader_step::<BinanceMessage>(ReaderEvent::Received(Frame::Close));
    assert!(step.item.is_none() && step.pong.is_none() && step.stop);
    let step = reader_step::<BinanceMessage>(ReaderEvent::Ended);
    assert!(step.item.is_none() && step.stop);
    let step = reader_step::<BinanceMessage>(ReaderEvent::Cancelled);
    assert!(step.item.is_none() && step.stop);
}

#[test]
fn unsupported_frame_is_an_error_item() {
    let step = reader_step::<BinanceMessage>(ReaderEvent::Received(Frame::Other("Binary Data<length=2>".to_string())));
    assert!(!step.stop);
    match step.item {
        Some(Err(ExStreamError::UnsupportedMessage(d))) => assert_eq!(d, "Binary Data<length=2>"),
        other => panic!("expected unsupported, got {:?}", other),
    }
}

#[test]
fn read_error_ends_the_reader() {
    let step = reader_step::<BinanceMessage>(ReaderEvent::Failed(Box::new(tungstenite::Error::ConnectionClosed)));
    assert!(step.stop);
    assert!(matches!(step.item, Some(Err(ExStreamError::TungsteniteError(_)))));
}

#[test]
fn writer_rules() {
    let w = writer_step(WriterEvent::Queued(Outbound::Text("a".to_string())));
    assert!(matches!(w.send, Some(Outbound::Text(t)) if t == "a"));
    assert!(!w.stop);
    let w = writer_step(WriterEvent::Cancelled);
    assert!(matches!(w.send, Some(Outbound::Close)));
    assert!(w.stop);
    let w = writer_step(WriterEvent::SendFailed);
    assert!(w.send.is_none() && w.stop);
    let w = writer_step(WriterEvent::QueueClosed);
    assert!(w.send.is_none() && !w.stop);
}

#[test]
fn second_shutdown_is_refused() {
    let mut l = Lifecycle::new();
    assert_eq!(l.state, ConnectionState::Open);
    assert!(l.begin_shutdown().is_ok());
    assert_eq!(l.state, ConnectionState::Closed);
    assert!(matches!(l.begin_shutdown(), Err(ExStreamError::AlreadyShutDown)));
    assert_eq!(l.state, ConnectionState::Closed);
}

#[test]
fn cancel_then_shutdown() {
    let mut l = Lifecycle::new();
    l.cancel();
    assert_eq!(l.state, ConnectionState::Closing);
    l.cancel();
    assert_eq!(l.state, ConnectionState::Closing);
    assert!(l.begin_shutdown().is_ok());
    l.cancel();
    assert_eq!(l.state, ConnectionState::Closed);
}

#[test]
fn join_outcome_reports_task_failure() {
    assert!(join_outcome(Ok(()), Ok(())).is_ok());
    let rt = tokio::runtime::Builder::new_current_thread().build().unwrap();
    let failed = rt.block_on(async {
        let h = tokio::spawn(async { std::future::pending::<()>().await });
        h.abort();
        h.await
    });
    assert!(failed.is_err());
    assert!(matches!(join_outcome(Ok(()), failed), Err(ExStreamError::TaskError(e)) if e.is_cancelled()));
}
