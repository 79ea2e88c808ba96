//! The byte stream to a remote terminal: what is written is collected, and a
//! flush sends it as one chunk to the task that feeds the SSH channel.

use tokio::sync::mpsc::error::SendError;
use tokio::sync::mpsc::{unbounded_channel, UnboundedReceiver, UnboundedSender};
use vstd::prelude::*;

use crate::clients::{holds_channel, Clients};

verus! {

/// tokio's sending half of an unbounded channel.
#[verifier::external_type_specification]
#[verifier::external_body]
#[verifier::reject_recursive_types(T)]
pub struct ExUnboundedSender<T>(UnboundedSender<T>);

/// tokio's receiving half of an unbounded channel.
#[verifier::external_type_specification]
#[verifier::external_body]
#[verifier::reject_recursive_types(T)]
pub struct ExUnboundedReceiver<T>(UnboundedReceiver<T>);

/// tokio's error of a channel whose receiver is gone.
#[verifier::external_type_specification]
#[verifier::external_body]
#[verifier::reject_recursive_types(T)]
pub struct ExSendError<T>(SendError<T>);

/// The messages that were handed to a channel through this sender since the
/// channel was made, in order, each with whether the channel queued it.
pub uninterp spec fn offers(sender: UnboundedSender<Vec<u8>>) -> Seq<(Seq<u8>, bool)>;

/// Which channel a sender belongs to.
pub uninterp spec fn sender_channel(sender: UnboundedSender<Vec<u8>>) -> int;

/// Which channel a receiver belongs to.
pub uninterp spec fn receiver_channel(receiver: UnboundedReceiver<Vec<u8>>) -> int;

/// Calls tokio's `unbounded_channel`. The contract claims that the two halves
/// belong to the same channel, that nothing has been handed to it, and that it is
/// a new one: none of the channels that the `_present` clients have. They are
/// there for the contract to speak of and are not looked at. That it is none of
/// the channels of clients that are gone is left unsaid: no sender of theirs is
/// left to speak of.
#[verifier::external_body]
fn open_channel(_present: &Clients) -> (halves: (
    UnboundedSender<Vec<u8>>,
    UnboundedReceiver<Vec<u8>>,
))
    ensures
        sender_channel(halves.0) == receiver_channel(halves.1),
        offers(halves.0) == Seq::<(Seq<u8>, bool)>::empty(),
        !holds_channel(_present@, sender_channel(halves.0)),
{
    unbounded_channel()
}

/// Calls tokio's `UnboundedSender::send`, which queues a message without waiting,
/// or fails and queues nothing when the receiver is closed or dropped. The
/// contract claims that the message is handed over once, that the result says
/// whether it was queued, and that the sender stays with its channel. Whether the
/// message is queued, another task decides. That a failure hands the message back
/// is left unsaid, as the error is opaque here.
#[verifier::external_body]
fn offer(sender: &mut UnboundedSender<Vec<u8>>, message: Vec<u8>) -> (sent: Result<
    (),
    SendError<Vec<u8>>,
>)
    ensures
        offers(*final(sender)) == offers(*old(sender)).push((message@, sent is Ok)),
        sender_channel(*final(sender)) == sender_channel(*old(sender)),
{
    sender.send(message)
}

/// Why a flush fails.
#[derive(Clone, Copy, Debug, PartialEq, Eq, Structural)]
pub enum HandleError {
    /// The task that feeds the channel is gone.
    BrokenPipe,
}

/// What there is to know of a [`TerminalHandle`].
pub struct HandleView {
    /// The channel that the chunks are handed to.
    pub channel: int,
    /// The chunks that were handed to the channel, in order, each with whether
    /// the channel took it.
    pub offers: Seq<(Seq<u8>, bool)>,
    /// What was written since the last chunk that the channel took.
    pub sink: Seq<u8>,
}

/// The chunks among `offers` that the channel took, in order.
pub open spec fn taken_of(offers: Seq<(Seq<u8>, bool)>) -> Seq<Seq<u8>>
    decreases offers.len(),
{
    if offers.len() == 0 {
        Seq::empty()
    } else {
        let before = taken_of(offers.drop_last());
        if offers.last().1 {
            before.push(offers.last().0)
        } else {
            before
        }
    }
}

impl HandleView {
    /// A handle that has neither written anything nor handed anything to its
    /// channel.
    pub open spec fn fresh(channel: int) -> HandleView {
        HandleView { channel, offers: Seq::empty(), sink: Seq::empty() }
    }

    /// The chunks that the channel took, in order.
    pub open spec fn sent(self) -> Seq<Seq<u8>> {
        taken_of(self.offers)
    }

    /// The handle after `bytes` were written.
    pub open spec fn written(self, bytes: Seq<u8>) -> HandleView {
        HandleView { sink: self.sink + bytes, ..self }
    }

    /// The handle once it is known whether the channel took what was collected.
    /// What was refused stays collected.
    pub open spec fn settled(self, taken: bool) -> HandleView {
        if taken {
            HandleView { sink: Seq::empty(), ..self }
        } else {
            self
        }
    }

    /// The handle after a flush: everything collected was handed to the channel
    /// as one chunk, once, and the channel took it or refused it.
    pub open spec fn flushed(self, taken: bool) -> HandleView {
        HandleView { offers: self.offers.push((self.sink, taken)), ..self }.settled(taken)
    }

    /// The handle after each of `chunks` was written and flushed, if the channel
    /// took them all.
    pub open spec fn delivered(self, chunks: Seq<Seq<u8>>) -> HandleView
        decreases chunks.len(),
    {
        if chunks.len() == 0 {
            self
        } else {
            self.delivered(chunks.drop_last()).written(chunks.last()).flushed(true)
        }
    }

    /// All the bytes that were ever written, sent or not, in order.
    pub open spec fn stream(self) -> Seq<u8> {
        self.sent().flatten() + self.sink
    }
}

/// The writing end of the stream to a remote terminal.
pub struct TerminalHandle {
    sender: UnboundedSender<Vec<u8>>,
    sink: Vec<u8>,
}

impl View for TerminalHandle {
    type V = HandleView;

    closed spec fn view(&self) -> HandleView {
        HandleView {
            channel: sender_channel(self.sender),
            offers: offers(self.sender),
            sink: self.sink@,
        }
    }
}

impl TerminalHandle {
    /// A handle with a channel of its own, which none of the clients that are
    /// present has, and the receiving half of that channel for the task that feeds
    /// the SSH channel.
    pub fn start(present: &Clients) -> (started: (TerminalHandle, UnboundedReceiver<Vec<u8>>))
        ensures
            started.0@ == HandleView::fresh(receiver_channel(started.1)),
            !holds_channel(present@, receiver_channel(started.1)),
    {
        let (sender, receiver) = open_channel(present);
        (TerminalHandle { sender, sink: Vec::new() }, receiver)
    }

    /// Collects `buf` behind what was written before. All of it is always
    /// taken.
    pub fn write(&mut self, buf: &[u8]) -> (count: usize)
        ensures
            final(self)@ == old(self)@.written(buf@),
            count == buf@.len(),
    {
        self.sink.extend_from_slice(buf);
        assert(self.sink@ == old(self).sink@ + buf@);
        buf.len()
    }

    /// The chunk that a flush sends: everything that was collected.
    pub fn pending(&self) -> (chunk: Vec<u8>)
        ensures
            chunk@ == self@.sink,
    {
        let chunk = self.sink.clone();
        assert(chunk@ == self.sink@);
        chunk
    }

    /// Settles a flush whose chunk the channel took or refused. What was
    /// refused stays collected.
    pub fn settle(&mut self, taken: bool) -> (result: Result<(), HandleError>)
        ensures
            final(self)@ == old(self)@.settled(taken),
            result == if taken {
                Ok::<(), HandleError>(())
            } else {
                Err(HandleError::BrokenPipe)
            },
    {
        if !taken {
            return Err(HandleError::BrokenPipe);
        }
        self.sink.clear();
        Ok(())
    }

    /// Sends everything that was collected as one chunk, even if it is empty.
    /// Whether the channel takes it is up to the channel; the flush succeeds
    /// exactly if it does.
    pub fn flush(&mut self) -> (result: Result<(), HandleError>)
        ensures
            final(self)@ == old(self)@.flushed(result is Ok),
            result is Err ==> result == Err::<(), HandleError>(HandleError::BrokenPipe),
    {
        let chunk = self.pending();
        let taken = offer(&mut self.sender, chunk).is_ok();
        self.settle(taken)
    }
}

/// What came of the last action of the task that feeds the SSH channel.
#[derive(Debug, PartialEq, Eq)]
pub enum FeedEvent {
    /// The next chunk, or none when all the senders are gone.
    Received(Option<Vec<u8>>),
    /// The chunk was handed to the channel: whether it was taken.
    Sent(bool),
    /// The failure was reported.
    Reported,
}

/// What the task that feeds the SSH channel does next.
#[derive(Debug, PartialEq, Eq)]
pub enum FeedAction {
    /// Wait for the next chunk.
    Receive,
    /// Hand a chunk to the SSH channel.
    Send(Vec<u8>),
    /// Report that a chunk could not be handed over.
    Report,
    /// End the task.
    Finish,
}

/// The action that follows an event of the feeding task.
pub open spec fn feed_next(event: FeedEvent) -> FeedAction {
    match event {
        FeedEvent::Received(Some(chunk)) => FeedAction::Send(chunk),
        FeedEvent::Received(None) => FeedAction::Finish,
        FeedEvent::Sent(taken) => if taken {
            FeedAction::Receive
        } else {
            FeedAction::Report
        },
        FeedEvent::Reported => FeedAction::Receive,
    }
}

/// Decides what the feeding task does after `event`. It begins with
/// [`FeedAction::Receive`], and a failure does not end it.
pub fn feed_step(event: FeedEvent) -> (action: FeedAction)
    ensures
        action == feed_next(event),
{
    match event {
        FeedEvent::Received(received) => match received {
            Some(chunk) => FeedAction::Send(chunk),
            None => FeedAction::Finish,
        },
        FeedEvent::Sent(taken) => {
            if taken {
                FeedAction::Receive
            } else {
                FeedAction::Report
            }
        },
        FeedEvent::Reported => FeedAction::Receive,
    }
}

/// The feeding task ends when all the senders are gone and for no other
/// reason.
pub proof fn law_feed_ends_with_senders(event: FeedEvent)
    ensures
        feed_next(event) is Finish <==> event == FeedEvent::Received(None),
{
}

/// Whether `event` is what can come of `action`.
pub open spec fn feed_answers(action: FeedAction, event: FeedEvent) -> bool {
    match action {
        FeedAction::Receive => event is Received,
        FeedAction::Send(_) => event is Sent,
        FeedAction::Report => event is Reported,
        FeedAction::Finish => false,
    }
}

/// Whether `events` are a course of the feeding task from its beginning: each
/// answers the action that the one before led to.
pub open spec fn feed_course(events: Seq<FeedEvent>) -> bool {
    &&& events.len() > 0 ==> feed_answers(FeedAction::Receive, events[0])
    &&& forall|i: int|
        0 < i < events.len() ==> feed_answers(feed_next(events[i - 1]), #[trigger] events[i])
}

/// The chunks that were received in the course of `events`, in order.
pub open spec fn chunks_received(events: Seq<FeedEvent>) -> Seq<Vec<u8>>
    decreases events.len(),
{
    if events.len() == 0 {
        Seq::empty()
    } else {
        let before = chunks_received(events.drop_last());
        match events.last() {
            FeedEvent::Received(Some(chunk)) => before.push(chunk),
            _ => before,
        }
    }
}

/// The chunks that the actions after `events` hand to the SSH channel, in order.
pub open spec fn chunks_fed(events: Seq<FeedEvent>) -> Seq<Vec<u8>>
    decreases events.len(),
{
    if events.len() == 0 {
        Seq::empty()
    } else {
        let before = chunks_fed(events.drop_last());
        match feed_next(events.last()) {
            FeedAction::Send(chunk) => before.push(chunk),
            _ => before,
        }
    }
}

/// The chunks that are handed to the SSH channel are the chunks that were
/// received, in order, whichever of them fail.
pub proof fn law_feed_passes_chunks_on(events: Seq<FeedEvent>)
    ensures
        chunks_fed(events) == chunks_received(events),
    decreases events.len(),
{
    if events.len() > 0 {
        law_feed_passes_chunks_on(events.drop_last());
    }
}

/// The bytes of each of `chunks`.
pub open spec fn chunk_bytes(chunks: Seq<Vec<u8>>) -> Seq<Seq<u8>> {
    chunks.map_values(|chunk: Vec<u8>| chunk@)
}

/// A channel gives its messages out in the order in which it took them. Where the
/// feeding task has so far received the chunks that the channel of a handle took,
/// or the first of them, it has handed just these to the SSH channel, each once
/// and in order, and their bytes are the beginning of what was written to the
/// handle.
pub proof fn law_fed_chunks_are_the_flushed_ones(handle: HandleView, events: Seq<FeedEvent>)
    requires
        chunk_bytes(chunks_received(events)).is_prefix_of(handle.sent()),
    ensures
        chunk_bytes(chunks_fed(events)) == chunk_bytes(chunks_received(events)),
        chunk_bytes(chunks_fed(events)).flatten().is_prefix_of(handle.stream()),
{
    law_feed_passes_chunks_on(events);
    let fed = chunk_bytes(chunks_fed(events));
    let rest = handle.sent().skip(fed.len() as int);
    assert(fed + rest == handle.sent());
    vstd::seq_lib::lemma_flatten_concat(fed, rest);
    assert(handle.stream() == fed.flatten() + (rest.flatten() + handle.sink));
}

/// A chunk is received only once the one before was handed over: between two
/// chunks there always is the outcome of the first.
pub proof fn law_feed_takes_turns(events: Seq<FeedEvent>, i: int, chunk: Vec<u8>)
    requires
        feed_course(events),
        0 <= i < events.len() - 1,
        events[i] == FeedEvent::Received(Some(chunk)),
    ensures
        feed_next(events[i]) == FeedAction::Send(chunk),
        events[i + 1] is Sent,
{
    assert(feed_answers(feed_next(events[i]), events[i + 1]));
}

/// A chunk that could not be handed over is reported, and the task goes on with
/// the next one.
pub proof fn law_failure_is_only_reported(events: Seq<FeedEvent>, i: int)
    requires
        feed_course(events),
        0 <= i < events.len() - 2,
        events[i] == FeedEvent::Sent(false),
    ensures
        events[i + 1] is Reported,
        events[i + 2] is Received,
{
    assert(feed_answers(feed_next(events[i]), events[i + 1]));
    assert(feed_answers(feed_next(events[i + 1]), events[i + 2]));
}

/// An operation on a handle.
pub enum HandleOp {
    Write(Seq<u8>),
    Flush { taken: bool },
}

/// The handle after a sequence of operations.
pub open spec fn operated(handle: HandleView, ops: Seq<HandleOp>) -> HandleView
    decreases ops.len(),
{
    if ops.len() == 0 {
        handle
    } else {
        let before = operated(handle, ops.drop_last());
        match ops.last() {
            HandleOp::Write(bytes) => before.written(bytes),
            HandleOp::Flush { taken } => before.flushed(taken),
        }
    }
}

/// The bytes that a sequence of operations writes.
pub open spec fn bytes_written(ops: Seq<HandleOp>) -> Seq<u8>
    decreases ops.len(),
{
    if ops.len() == 0 {
        Seq::empty()
    } else {
        match ops.last() {
            HandleOp::Write(bytes) => bytes_written(ops.drop_last()) + bytes,
            HandleOp::Flush { .. } => bytes_written(ops.drop_last()),
        }
    }
}

/// However writes and flushes are mixed, and whichever flushes fail, the chunks
/// that were sent followed by what is still collected are the bytes that were
/// written, in order: none is lost, repeated or swapped.
pub proof fn law_stream_is_what_was_written(handle: HandleView, ops: Seq<HandleOp>)
    ensures
        operated(handle, ops).stream() == handle.stream() + bytes_written(ops),
        operated(handle, ops).channel == handle.channel,
    decreases ops.len(),
{
    if ops.len() == 0 {
        assert(handle.stream() + bytes_written(ops) == handle.stream());
    } else {
        let rest = ops.drop_last();
        let before = operated(handle, rest);
        law_stream_is_what_was_written(handle, rest);
        match ops.last() {
            HandleOp::Write(bytes) => {
                assert(before.written(bytes).stream() == before.stream() + bytes);
                assert((handle.stream() + bytes_written(rest)) + bytes == handle.stream() + (
                bytes_written(rest) + bytes));
            },
            HandleOp::Flush { taken } => {
                lemma_flush_keeps_stream(before, taken);
            },
        }
    }
}

/// A flush, taken or not, keeps the stream.
pub proof fn lemma_flush_keeps_stream(handle: HandleView, taken: bool)
    ensures
        handle.flushed(taken).stream() == handle.stream(),
{
    let after = handle.flushed(taken);
    assert(after.offers.drop_last() == handle.offers);
    if taken {
        handle.sent().lemma_flatten_push(handle.sink);
    }
    assert(after.stream() == handle.stream());
}

/// Delivering chunks puts their bytes behind the stream.
pub proof fn law_delivery_appends_chunks(handle: HandleView, chunks: Seq<Seq<u8>>)
    ensures
        handle.delivered(chunks).stream() == handle.stream() + chunks.flatten(),
        handle.delivered(chunks).channel == handle.channel,
    decreases chunks.len(),
{
    if chunks.len() == 0 {
        assert(handle.stream() + chunks.flatten() == handle.stream());
    } else {
        let rest = chunks.drop_last();
        let before = handle.delivered(rest);
        law_delivery_appends_chunks(handle, rest);
        lemma_flush_keeps_stream(before.written(chunks.last()), true);
        rest.lemma_flatten_push(chunks.last());
        assert(rest.push(chunks.last()) == chunks);
        assert(before.written(chunks.last()).stream() == before.stream() + chunks.last());
        assert(handle.delivered(chunks).stream() == handle.stream() + chunks.flatten());
    }
}

} // verus!
