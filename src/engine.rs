//! The connection engine's decisions, apart from the socket: what the reader
//! does with each frame, what the writer does with each command, and when a
//! shutdown may join the tasks. The loops that run them perform the actions.
//!
//! Policy on a close frame from the server: the reader stops and sends
//! nothing back; no automatic unsubscribe is attempted.

use vstd::prelude::*;
use crate::error::ExStreamError;
use crate::inbound::{parse_frame, VenueMessage};
use crate::json::parsed_json;

verus! {

/// One frame read from the socket.
#[derive(Debug, Clone)]
pub enum Frame {
    Text(String),
    Ping(Vec<u8>),
    Pong(Vec<u8>),
    Close,
    /// A frame kind the venues do not send (binary, raw), described.
    Other(String),
}

/// What the reader's wait ended with.
#[derive(Debug)]
pub enum ReaderEvent {
    Received(Frame),
    /// The socket failed while reading.
    Failed(Box<tokio_tungstenite::tungstenite::Error>),
    /// The server closed the stream.
    Ended,
    /// The connection's cancellation was requested.
    Cancelled,
}

/// What the reader does next: at most one item for the caller's stream, at
/// most one pong to queue for the writer, and whether it stops.
#[derive(Debug)]
pub struct ReaderStep<M> {
    pub item: Option<Result<M, ExStreamError>>,
    pub pong: Option<Vec<u8>>,
    pub stop: bool,
}

/// The reader's rule for one event. Text is parsed and classified and handed
/// on whatever came of it, without stopping; a ping is answered by one pong
/// with the same payload and nothing for the caller; a pong is dropped; an
/// unsupported frame becomes an error item and reading goes on; a read error
/// is handed on and ends the loop; a close, the end of the stream or a
/// cancellation end it with nothing handed on.
pub fn reader_step<M: VenueMessage>(event: ReaderEvent) -> (r: ReaderStep<M>)
    ensures
        event matches ReaderEvent::Received(Frame::Text(t)) ==> {
            &&& !r.stop
            &&& r.pong is None
            &&& r.item is Some
            &&& (parsed_json(t@) is None <==> r.item->0 is Err)
            &&& r.item->0 matches Err(e) ==> e matches ExStreamError::ParseError { raw_content, .. } && raw_content == t
            &&& r.item->0 matches Ok(m) ==> M::reads_as(parsed_json(t@)->0, t, m)
        },
        event matches ReaderEvent::Received(Frame::Ping(p)) ==> r.pong == Some(p) && r.item is None && !r.stop,
        event matches ReaderEvent::Received(Frame::Pong(_)) ==> r.pong is None && r.item is None && !r.stop,
        event matches ReaderEvent::Received(Frame::Other(d)) ==> (r.pong is None && !r.stop && (r.item matches Some(
            Err(ExStreamError::UnsupportedMessage(x)),
        ) && x == d)),
        event matches ReaderEvent::Received(Frame::Close) ==> r.pong is None && r.item is None && r.stop,
        event is Failed ==> (r.pong is None && r.stop && r.item matches Some(Err(ExStreamError::TungsteniteError(_)))),
        event is Ended || event is Cancelled ==> r.pong is None && r.item is None && r.stop,
{
    match event {
        ReaderEvent::Received(frame) => match frame {
            Frame::Text(t) => ReaderStep { item: Some(parse_frame(t)), pong: None, stop: false },
            Frame::Ping(p) => ReaderStep { item: None, pong: Some(p), stop: false },
            Frame::Pong(_) => ReaderStep { item: None, pong: None, stop: false },
            Frame::Close => ReaderStep { item: None, pong: None, stop: true },
            Frame::Other(d) => ReaderStep {
                item: Some(Err(ExStreamError::UnsupportedMessage(d))),
                pong: None,
                stop: false,
            },
        },
        ReaderEvent::Failed(e) => ReaderStep {
            item: Some(Err(ExStreamError::TungsteniteError(e))),
            pong: None,
            stop: true,
        },
        ReaderEvent::Ended => ReaderStep { item: None, pong: None, stop: true },
        ReaderEvent::Cancelled => ReaderStep { item: None, pong: None, stop: true },
    }
}

/// A frame queued for the writer.
#[derive(Debug, Clone)]
pub enum Outbound {
    Text(String),
    Pong(Vec<u8>),
    Close,
}

/// What the writer's wait ended with.
#[derive(Debug)]
pub enum WriterEvent {
    /// The next queued frame, in the order it was queued.
    Queued(Outbound),
    /// Every sender of the queue is gone.
    QueueClosed,
    /// The socket refused the last frame.
    SendFailed,
    /// The connection's cancellation was requested.
    Cancelled,
}

/// What the writer does next: at most one frame to write, and whether it stops.
#[derive(Debug)]
pub struct WriterStep {
    pub send: Option<Outbound>,
    pub stop: bool,
}

/// The writer's rule for one event: each queued frame is written as it
/// comes; a failed write ends the loop; a cancellation writes a close frame
/// (best effort) and ends it; a closed queue leaves only the cancellation to
/// wait for.
pub fn writer_step(event: WriterEvent) -> (r: WriterStep)
    ensures
        event matches WriterEvent::Queued(o) ==> r.send == Some(o) && !r.stop,
        event is QueueClosed ==> r.send is None && !r.stop,
        event is SendFailed ==> r.send is None && r.stop,
        event is Cancelled ==> (r.send matches Some(Outbound::Close) && r.stop),
{
    match event {
        WriterEvent::Queued(o) => WriterStep { send: Some(o), stop: false },
        WriterEvent::QueueClosed => WriterStep { send: None, stop: false },
        WriterEvent::SendFailed => WriterStep { send: None, stop: true },
        WriterEvent::Cancelled => WriterStep { send: Some(Outbound::Close), stop: true },
    }
}

/// Where a connection stands once its handshake succeeded.
#[derive(Debug, Clone, Copy, PartialEq, Eq, Structural)]
pub enum ConnectionState {
    /// Both tasks run.
    Open,
    /// Cancellation was requested; the tasks wind down.
    Closing,
    /// A shutdown took the tasks and joined them.
    Closed,
}

/// The state after a shutdown request, and whether it may join the tasks.
pub open spec fn shutdown_transition(s: ConnectionState) -> (ConnectionState, bool) {
    (ConnectionState::Closed, s != ConnectionState::Closed)
}

/// Shutting down joins the tasks the first time, whatever came before, and is
/// refused every time after.
pub proof fn lemma_shutdown_once(s: ConnectionState)
    ensures
        s != ConnectionState::Closed ==> shutdown_transition(s).1,
        !shutdown_transition(shutdown_transition(s).0).1,
        shutdown_transition(shutdown_transition(s).0).0 == ConnectionState::Closed,
{
}

/// The shutdown bookkeeping of one connection.
#[derive(Debug, Clone, Copy)]
pub struct Lifecycle {
    pub state: ConnectionState,
}

impl Lifecycle {
    pub fn new() -> (r: Self)
        ensures
            r.state == ConnectionState::Open,
    {
        Lifecycle { state: ConnectionState::Open }
    }

    /// Requests cancellation without joining; it stays requested.
    pub fn cancel(&mut self)
        ensures
            final(self).state == if old(self).state == ConnectionState::Closed {
                ConnectionState::Closed
            } else {
                ConnectionState::Closing
            },
    {
        if self.state != ConnectionState::Closed {
            self.state = ConnectionState::Closing;
        }
    }

    /// Takes the tasks for joining: allowed once; every later call is the
    /// already-shut-down error and changes nothing.
    pub fn begin_shutdown(&mut self) -> (r: Result<(), ExStreamError>)
        ensures
            (final(self).state, r is Ok) == shutdown_transition(old(self).state),
            r is Err ==> r->Err_0 is AlreadyShutDown,
    {
        if self.state == ConnectionState::Closed {
            return Err(ExStreamError::AlreadyShutDown);
        }
        self.state = ConnectionState::Closed;
        Ok(())
    }
}

/// The one result a shutdown reports from joining both tasks: success when
/// neither failed, else the writer's failure, else the reader's.
pub fn join_outcome(
    writer: Result<(), tokio::task::JoinError>,
    reader: Result<(), tokio::task::JoinError>,
) -> (r: Result<(), ExStreamError>)
    ensures
        r is Ok <==> writer is Ok && reader is Ok,
        writer matches Err(w) ==> (r matches Err(ExStreamError::TaskError(x)) && x == w),
        writer is Ok ==> (reader matches Err(e) ==> (r matches Err(ExStreamError::TaskError(x)) && x == e)),
{
    match (writer, reader) {
        (Ok(()), Ok(())) => Ok(()),
        (Err(w), _) => Err(ExStreamError::TaskError(w)),
        (Ok(()), Err(e)) => Err(ExStreamError::TaskError(e)),
    }
}

} // verus!
