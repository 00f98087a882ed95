//! The protocol stream's bookkeeping: which handler a decoded message goes
//! to, whether the reader and writer tasks are alive, and what becomes of an
//! outbound message. The tasks themselves, and the bytes they move, belong
//! to the code that owns the transport.

use dashmap::DashMap;
use tokio::sync::mpsc::{Receiver, Sender};
use vstd::prelude::*;
use crate::message::ProtoMessage;

verus! {

/// How many encoded messages the outbound queue holds before sends fail.
pub const OUTBOUND_QUEUE_CAPACITY: usize = 1000;

/// The name of the stream protocol that signalling runs over.
pub fn stream_protocol_name() -> (name: &'static str)
    ensures
        name@ == "/nestri-relay/stream-push/1.0.0"@,
{
    "/nestri-relay/stream-push/1.0.0"
}

/// `dashmap::DashMap`, carried as an opaque value: what it holds is spoken
/// of through `handler_entries` only.
#[verifier::external_type_specification]
#[verifier::external_body]
#[verifier::reject_recursive_types(K)]
#[verifier::reject_recursive_types(V)]
#[verifier::reject_recursive_types(S)]
pub struct ExDashMap<K, V, S>(DashMap<K, V, S>);

/// `tokio::sync::mpsc::Sender`, carried as an opaque value.
#[verifier::external_type_specification]
#[verifier::external_body]
#[verifier::reject_recursive_types(T)]
pub struct ExSender<T>(Sender<T>);

/// `tokio::sync::mpsc::Receiver`, carried as an opaque value.
#[verifier::external_type_specification]
#[verifier::external_body]
#[verifier::reject_recursive_types(T)]
pub struct ExReceiver<T>(Receiver<T>);

/// The table of handlers: payload type to handler number.
pub type HandlerTable = DashMap<String, u64>;

/// The outbound queue's sending end.
pub type QueueSender = Sender<Vec<u8>>;

/// The outbound queue's receiving end.
pub type QueueReceiver = Receiver<Vec<u8>>;

/// What a handler table holds: for each payload type, the number of the
/// handler registered for it.
pub uninterp spec fn handler_entries(table: DashMap<String, u64>) -> Map<Seq<char>, u64>;

/// No handler at all.
pub open spec fn no_handlers() -> Map<Seq<char>, u64> {
    Map::empty()
}

/// `DashMap::new`. The contract claims that the new table is empty.
#[verifier::external_body]
fn new_table() -> (table: HandlerTable)
    ensures
        handler_entries(table) == no_handlers(),
{
    DashMap::new()
}

/// `DashMap::insert`. The contract claims that the key then maps to the
/// value, that every other key is as before, and that the value the key had
/// before, if any, is returned.
#[verifier::external_body]
fn table_insert(table: &mut HandlerTable, key: String, handler: u64) -> (previous: Option<u64>)
    ensures
        handler_entries(*final(table)) == handler_entries(*old(table)).insert(key@, handler),
        previous == entry_of(handler_entries(*old(table)), key@),
{
    table.insert(key, handler)
}

/// `DashMap::get`, with the value copied out of the guard. The contract
/// claims that it finds the value that the key maps to, if any.
#[verifier::external_body]
fn table_get(table: &HandlerTable, key: &str) -> (found: Option<u64>)
    ensures
        found == entry_of(handler_entries(*table), key@),
{
    table.get(key).map(|entry| *entry.value())
}

/// The value that a key maps to, if any.
pub open spec fn entry_of(entries: Map<Seq<char>, u64>, key: Seq<char>) -> Option<u64> {
    if entries.contains_key(key) {
        Some(entries[key])
    } else {
        None
    }
}

/// `tokio::sync::mpsc::channel`. It panics on a capacity of zero, which the
/// contract leaves out; nothing is claimed of the two ends.
#[verifier::external_body]
fn new_queue(capacity: usize) -> (ends: (QueueSender, QueueReceiver))
    requires
        capacity > 0,
{
    tokio::sync::mpsc::channel(capacity)
}

/// What became of an attempt to enqueue.
#[derive(Clone, Copy, Debug, PartialEq, Eq, Structural)]
pub enum QueueOutcome {
    Sent,
    Full,
    Closed,
}

/// `Sender::try_send`. What comes back depends on how full the queue is and
/// on whether its receiver still lives, so nothing is claimed of it.
#[verifier::external_body]
fn try_enqueue(tx: &QueueSender, bytes: Vec<u8>) -> (outcome: QueueOutcome) {
    match tx.try_send(bytes) {
        Ok(()) => QueueOutcome::Sent,
        Err(tokio::sync::mpsc::error::TrySendError::Full(_)) => QueueOutcome::Full,
        Err(tokio::sync::mpsc::error::TrySendError::Closed(_)) => QueueOutcome::Closed,
    }
}

/// Why an outbound message was not accepted.
#[derive(Clone, Copy, Debug, PartialEq, Eq, Structural)]
pub enum SendError {
    /// The outbound queue holds as many messages as it can.
    QueueFull,
    /// The stream has shut down.
    Shutdown,
}

/// What the sender is told for each outcome of the queue.
pub open spec fn send_result(outcome: QueueOutcome) -> Result<(), SendError> {
    match outcome {
        QueueOutcome::Sent => Ok(()),
        QueueOutcome::Full => Err(SendError::QueueFull),
        QueueOutcome::Closed => Err(SendError::Shutdown),
    }
}

/// Turns the outcome of the queue into the sender's result.
pub fn send_outcome(outcome: QueueOutcome) -> (res: Result<(), SendError>)
    ensures
        res == send_result(outcome),
{
    match outcome {
        QueueOutcome::Sent => Ok(()),
        QueueOutcome::Full => Err(SendError::QueueFull),
        QueueOutcome::Closed => Err(SendError::Shutdown),
    }
}

/// Where a decoded message goes.
#[derive(Clone, Copy, Debug, PartialEq, Eq, Structural)]
pub enum Dispatch {
    /// The message has no base: it is dropped.
    MissingBase,
    /// No handler is registered for the message's type: it is dropped.
    NoHandler,
    /// The handler with this number takes the message.
    Handler(u64),
}

/// Where `msg` goes, given the registered handlers.
pub open spec fn dispatch_for(entries: Map<Seq<char>, u64>, msg: ProtoMessage) -> Dispatch {
    match msg.message_base {
        None => Dispatch::MissingBase,
        Some(base) => match entry_of(entries, base.payload_type@) {
            Some(handler) => Dispatch::Handler(handler),
            None => Dispatch::NoHandler,
        },
    }
}

/// The state of a protocol stream.
pub struct NestriStreamProtocol {
    tx: Option<QueueSender>,
    reader_alive: bool,
    writer_alive: bool,
    callbacks: HandlerTable,
}

impl NestriStreamProtocol {
    /// The registered handlers, by payload type.
    pub closed spec fn handlers(&self) -> Map<Seq<char>, u64> {
        handler_entries(self.callbacks)
    }

    /// Whether the stream accepts outbound messages.
    pub closed spec fn is_open(&self) -> bool {
        self.tx is Some
    }

    /// Whether the reader task is alive.
    pub closed spec fn reader_alive(&self) -> bool {
        self.reader_alive
    }

    /// Whether the writer task is alive.
    pub closed spec fn writer_alive(&self) -> bool {
        self.writer_alive
    }

    /// Whether the stream is up: open, with both tasks alive.
    pub open spec fn is_running(&self) -> bool {
        self.is_open() && self.reader_alive() && self.writer_alive()
    }

    /// A stream with no handlers, already started. The receiving end of its
    /// outbound queue is for the writer task.
    pub fn new() -> (made: (Self, QueueReceiver))
        ensures
            made.0.is_running(),
            made.0.handlers() == no_handlers(),
    {
        let (tx, rx) = new_queue(OUTBOUND_QUEUE_CAPACITY);
        (
            NestriStreamProtocol {
                tx: Some(tx),
                reader_alive: true,
                writer_alive: true,
                callbacks: new_table(),
            },
            rx,
        )
    }

    /// Whether the stream is up.
    pub fn running(&self) -> (up: bool)
        ensures
            up == self.is_running(),
    {
        self.tx.is_some() && self.reader_alive && self.writer_alive
    }

    /// Starts the stream again where a task has exited: a new outbound
    /// queue is made, and its receiving end is returned for the new writer
    /// task. A stream that is up is left as it is.
    pub fn restart(&mut self) -> (queue: Option<QueueReceiver>)
        ensures
            final(self).is_running(),
            final(self).handlers() == old(self).handlers(),
            queue is None <==> old(self).is_running(),
            old(self).is_running() ==> *final(self) == *old(self),
    {
        if self.tx.is_some() && self.reader_alive && self.writer_alive {
            return None;
        }
        let (tx, rx) = new_queue(OUTBOUND_QUEUE_CAPACITY);
        self.tx = Some(tx);
        self.reader_alive = true;
        self.writer_alive = true;
        Some(rx)
    }

    /// Records that the reader task has exited on a transport error. The
    /// stream is closed to further sends; the writer drains what is queued.
    pub fn reader_exited(&mut self)
        ensures
            !final(self).is_open(),
            !final(self).reader_alive(),
            final(self).writer_alive() == old(self).writer_alive(),
            final(self).handlers() == old(self).handlers(),
    {
        self.tx = None;
        self.reader_alive = false;
    }

    /// Records that the writer task has exited. The stream is closed to
    /// further sends.
    pub fn writer_exited(&mut self)
        ensures
            !final(self).is_open(),
            !final(self).writer_alive(),
            final(self).reader_alive() == old(self).reader_alive(),
            final(self).handlers() == old(self).handlers(),
    {
        self.tx = None;
        self.writer_alive = false;
    }

    /// Hands an encoded message to the outbound queue. On a closed stream
    /// the answer is `Shutdown`; on an open one the queue decides, and the
    /// answer is what `send_outcome` makes of its outcome.
    pub fn send_message(&self, encoded: Vec<u8>) -> (res: Result<(), SendError>)
        ensures
            !self.is_open() ==> res == Err::<(), SendError>(SendError::Shutdown),
            self.is_open() ==> exists|outcome: QueueOutcome| res == send_result(outcome),
    {
        match &self.tx {
            None => Err(SendError::Shutdown),
            Some(tx) => {
                let outcome = try_enqueue(tx, encoded);
                send_outcome(outcome)
            },
        }
    }

    /// Registers the handler with the given number for a payload type, in
    /// place of the one registered before, if any.
    pub fn register_callback(&mut self, response_type: &str, handler: u64)
        ensures
            final(self).handlers() == old(self).handlers().insert(response_type@, handler),
            final(self).is_open() == old(self).is_open(),
            final(self).reader_alive() == old(self).reader_alive(),
            final(self).writer_alive() == old(self).writer_alive(),
    {
        let _ = table_insert(&mut self.callbacks, response_type.to_owned(), handler);
    }

    /// The handler for a decoded message. A message without a base, or of
    /// a type that no handler is registered for, is dropped; neither is
    /// fatal.
    pub fn dispatch(&self, msg: &ProtoMessage) -> (target: Dispatch)
        ensures
            target == dispatch_for(self.handlers(), *msg),
    {
        match &msg.message_base {
            None => Dispatch::MissingBase,
            Some(base) => match table_get(&self.callbacks, base.payload_type.as_str()) {
                Some(handler) => Dispatch::Handler(handler),
                None => Dispatch::NoHandler,
            },
        }
    }
}

/// Once a handler is registered for a type, every message of that type goes
/// to it, whatever was registered for other types before or after, until
/// another handler is registered for the same type.
pub proof fn lemma_registered_handler_is_found(
    entries: Map<Seq<char>, u64>,
    payload_type: Seq<char>,
    handler: u64,
    other_type: Seq<char>,
    other_handler: u64,
    msg: ProtoMessage,
)
    requires
        msg.message_base is Some,
        msg.message_base->0.payload_type@ == payload_type,
        other_type != payload_type,
    ensures
        dispatch_for(entries.insert(payload_type, handler), msg) == Dispatch::Handler(handler),
        dispatch_for(
            entries.insert(payload_type, handler).insert(other_type, other_handler),
            msg,
        ) == Dispatch::Handler(handler),
        dispatch_for(
            entries.insert(other_type, other_handler).insert(payload_type, handler),
            msg,
        ) == Dispatch::Handler(handler),
{
}

} // verus!
