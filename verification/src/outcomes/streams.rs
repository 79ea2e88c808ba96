//! What comes of the operations on the byte stream to a remote terminal.

use tokio::sync::mpsc::UnboundedReceiver;
use vstd::prelude::*;

use crate::clients::Clients;
use crate::handle::{
    feed_answers, feed_course, feed_next, feed_step, lemma_flush_keeps_stream, receiver_channel,
    taken_of, FeedAction, FeedEvent, HandleError, HandleView, TerminalHandle,
};
use crate::size::Area;
use crate::terminal::{clear_chunks, decimal, drawn, refused_within, SshTerminal};

verus! {

/// A handle starts with nothing collected and nothing handed over, on a channel
/// whose receiver comes with it and which no client has that is present.
pub proof fn law_start(
    present: &Clients,
    handle: TerminalHandle,
    receiver: UnboundedReceiver<Vec<u8>>,
)
    requires
        call_ensures(TerminalHandle::start, (present,), (handle, receiver)),
    ensures
        handle@.channel == receiver_channel(receiver),
        handle@.offers.len() == 0,
        handle@.sink.len() == 0,
        forall|id: usize| #[trigger]
            present@.contains_key(id) ==> present@[id].terminal.handle.channel
                != receiver_channel(receiver),
{
}

/// A write takes all the bytes and puts them behind what was collected. Nothing is
/// handed over.
pub proof fn law_write(handle: &mut TerminalHandle, buf: &[u8], count: usize)
    requires
        call_ensures(TerminalHandle::write, (handle, buf), count),
    ensures
        count == buf@.len(),
        final(handle)@.sink == old(handle)@.sink + buf@,
        final(handle)@.offers == old(handle)@.offers,
        final(handle)@.channel == old(handle)@.channel,
{
}

/// What is pending is all that was collected.
pub proof fn law_pending(handle: &TerminalHandle, chunk: Vec<u8>)
    requires
        call_ensures(TerminalHandle::pending, (handle,), chunk),
    ensures
        chunk@ == handle@.sink,
{
}

/// Once the channel took a chunk nothing is left collected; a refused chunk stays,
/// all of it, and is reported as a broken pipe.
pub proof fn law_settle(handle: &mut TerminalHandle, taken: bool, result: Result<(), HandleError>)
    requires
        call_ensures(TerminalHandle::settle, (handle, taken), result),
    ensures
        taken ==> result is Ok && final(handle)@.sink.len() == 0,
        !taken ==> result == Err::<(), HandleError>(HandleError::BrokenPipe)
            && final(handle)@.sink == old(handle)@.sink,
        final(handle)@.offers == old(handle)@.offers,
        final(handle)@.channel == old(handle)@.channel,
{
}

/// A flush hands all that was collected to the channel, as one chunk and once. If it
/// succeeds, nothing is left collected: the chunks that were sent are all the bytes
/// that were ever written. If it fails, all of it stays collected.
pub proof fn law_flush(handle: &mut TerminalHandle, result: Result<(), HandleError>)
    requires
        call_ensures(TerminalHandle::flush, (handle,), result),
    ensures
        final(handle)@.offers.len() == old(handle)@.offers.len() + 1,
        final(handle)@.offers.drop_last() == old(handle)@.offers,
        final(handle)@.offers.last().0 == old(handle)@.sink,
        final(handle)@.offers.last().1 <==> result is Ok,
        final(handle)@.channel == old(handle)@.channel,
        result is Ok ==> {
            &&& final(handle)@.sink.len() == 0
            &&& final(handle)@.sent() == old(handle)@.sent().push(old(handle)@.sink)
            &&& final(handle)@.sent().flatten() == old(handle)@.stream()
        },
        result is Err ==> {
            &&& result == Err::<(), HandleError>(HandleError::BrokenPipe)
            &&& final(handle)@.sink == old(handle)@.sink
            &&& final(handle)@.sent() == old(handle)@.sent()
        },
{
    let before = old(handle)@;
    assert(final(handle)@ == before.flushed(result is Ok));
    law_flushed_handle(before);
}

/// The handle after a flush that the channel took has nothing collected, and what
/// was sent is all that was ever written. After one that was refused, all of it is
/// still collected.
pub proof fn law_flushed_handle(handle: HandleView)
    ensures
        handle.flushed(true).sink.len() == 0,
        handle.flushed(true).offers == handle.offers.push((handle.sink, true)),
        handle.flushed(true).sent() == handle.sent().push(handle.sink),
        handle.flushed(true).sent().flatten() == handle.stream(),
        handle.flushed(false).sink == handle.sink,
        handle.flushed(false).offers == handle.offers.push((handle.sink, false)),
        handle.flushed(false).sent() == handle.sent(),
        handle.flushed(true).channel == handle.channel,
        handle.flushed(false).channel == handle.channel,
{
    lemma_flush_keeps_stream(handle, true);
    assert(handle.flushed(true).offers.drop_last() == handle.offers);
    assert(handle.flushed(false).offers.drop_last() == handle.offers);
    let after = handle.flushed(true);
    assert(after.sent().flatten() + after.sink == after.sent().flatten());
}

/// A chunk that is written to a handle with nothing collected and flushed reaches
/// the channel as it is, whatever its length, if the channel takes it.
pub proof fn law_written_and_flushed_chunk_is_sent(
    writing: &mut TerminalHandle,
    buf: &[u8],
    count: usize,
    flushing: &mut TerminalHandle,
    result: Result<(), HandleError>,
)
    requires
        call_ensures(TerminalHandle::write, (writing, buf), count),
        *old(flushing) == *final(writing),
        call_ensures(TerminalHandle::flush, (flushing,), result),
        old(writing)@.sink.len() == 0,
        result is Ok,
    ensures
        final(flushing)@.sent() == old(writing)@.sent().push(buf@),
        final(flushing)@.sink.len() == 0,
{
    law_write(writing, buf, count);
    law_flush(flushing, result);
    assert(old(writing)@.sink + buf@ == buf@);
}

/// What was sent is what the channel took of what was handed to it, in order.
pub proof fn law_sent_is_what_was_taken(offers: Seq<(Seq<u8>, bool)>, chunk: Seq<u8>)
    ensures
        taken_of(Seq::<(Seq<u8>, bool)>::empty()).len() == 0,
        taken_of(offers.push((chunk, true))) == taken_of(offers).push(chunk),
        taken_of(offers.push((chunk, false))) == taken_of(offers),
{
    assert(offers.push((chunk, true)).drop_last() == offers);
    assert(offers.push((chunk, false)).drop_last() == offers);
}

/// The feeding task sends each chunk that it receives as it is, and ends when there
/// will be none. It reports a failure, and asks for the next chunk either way.
pub proof fn law_feed(
    received: Option<Vec<u8>>,
    taken: bool,
    next: FeedAction,
    sent: FeedAction,
    reported: FeedAction,
)
    requires
        call_ensures(feed_step, (FeedEvent::Received(received),), next),
        call_ensures(feed_step, (FeedEvent::Sent(taken),), sent),
        call_ensures(feed_step, (FeedEvent::Reported,), reported),
    ensures
        received matches Some(chunk) ==> next == FeedAction::Send(chunk),
        received is None ==> next == FeedAction::Finish,
        taken ==> sent == FeedAction::Receive,
        !taken ==> sent == FeedAction::Report,
        reported == FeedAction::Receive,
{
}

/// The feeding task goes round by these turns alone: it receives, sends, reports a
/// failure if there was one, and receives again. Once there is nothing more to
/// receive, nothing comes.
pub proof fn law_feed_course_takes_turns(events: Seq<FeedEvent>, i: int)
    requires
        feed_course(events),
        0 <= i < events.len() - 1,
    ensures
        events[0] is Received,
        events[i] is Received ==> events[i]->Received_0 is Some && events[i + 1] is Sent,
        events[i] == FeedEvent::Sent(true) ==> events[i + 1] is Received,
        events[i] == FeedEvent::Sent(false) ==> events[i + 1] is Reported,
        events[i] is Reported ==> events[i + 1] is Received,
{
    assert(feed_answers(feed_next(events[i]), events[i + 1]));
}

/// The number that decimal digits stand for.
pub open spec fn number(digits: Seq<u8>) -> int
    decreases digits.len(),
{
    if digits.len() == 0 {
        0
    } else {
        number(digits.drop_last()) * 10 + (digits.last() - 0x30)
    }
}

/// A number in decimal digits stands for that number, and does not begin with a
/// zero unless it is zero.
pub proof fn law_decimal(n: nat)
    ensures
        number(decimal(n)) == n,
        decimal(n).len() > 0,
        forall|i: int| 0 <= i < decimal(n).len() ==> 0x30 <= #[trigger] decimal(n)[i] <= 0x39,
        n > 0 ==> decimal(n)[0] != 0x30,
    decreases n,
{
    reveal_with_fuel(number, 2);
    if n >= 10 {
        law_decimal(n / 10);
        assert(decimal(n).drop_last() == decimal(n / 10));
    } else {
        assert(decimal(n).drop_last() == Seq::<u8>::empty());
    }
}

/// Whether `after` is `before` once a viewport of `rows` rows from the row `top` on
/// was cleared over it, or the clearing was broken off. For each row, from the first
/// one down, one chunk moves the cursor to its beginning and one clears the screen
/// from there on; what was collected before goes out with the first chunk. All the
/// chunks are taken but the last one of a clearing that was broken off, which stays
/// collected.
pub open spec fn cleared(
    before: HandleView,
    top: int,
    rows: int,
    done: bool,
    after: HandleView,
) -> bool {
    let old_count = before.offers.len() as int;
    let count = after.offers.len() - old_count;
    &&& after.channel == before.channel
    &&& 0 <= count <= 2 * rows
    &&& after.offers.take(old_count) == before.offers
    &&& forall|j: int|
        0 <= j < count ==> (#[trigger] after.offers[old_count + j]).0 == (if j == 0 {
            before.sink
        } else {
            Seq::<u8>::empty()
        }) + (if j % 2 == 0 {
            seq![0x1bu8, 0x5b] + decimal((top + j / 2 + 1) as nat) + seq![0x3bu8, 0x31, 0x48]
        } else {
            seq![0x1bu8, 0x5b, 0x4a]
        })
    &&& forall|j: int|
        0 <= j < count ==> ((#[trigger] after.offers[old_count + j]).1 <==> (done || j < count - 1))
    &&& done ==> count == 2 * rows
    &&& !done ==> count > 0 && after.sink == after.offers.last().0
    &&& done && count > 0 ==> after.sink.len() == 0
    &&& done && count == 0 ==> after.sink == before.sink
}

/// Chunks that are delivered are handed over one by one and taken, the first one
/// behind what was collected before.
pub proof fn law_delivered_chunks_are_offered(handle: HandleView, chunks: Seq<Seq<u8>>)
    ensures
        ({
            let after = handle.delivered(chunks);
            let count = handle.offers.len() as int;
            &&& after.channel == handle.channel
            &&& after.offers.len() == count + chunks.len()
            &&& after.offers.take(count) == handle.offers
            &&& forall|j: int|
                0 <= j < chunks.len() ==> #[trigger] after.offers[count + j] == ((if j == 0 {
                    handle.sink
                } else {
                    Seq::<u8>::empty()
                }) + chunks[j], true)
            &&& chunks.len() > 0 ==> after.sink.len() == 0
            &&& chunks.len() == 0 ==> after.sink == handle.sink
        }),
    decreases chunks.len(),
{
    let count = handle.offers.len() as int;
    let after = handle.delivered(chunks);
    if chunks.len() == 0 {
        assert(after.offers.take(count) == handle.offers);
    } else {
        let rest = chunks.drop_last();
        let before = handle.delivered(rest);
        law_delivered_chunks_are_offered(handle, rest);
        let written = before.written(chunks.last());
        law_flushed_handle(written);
        assert(after == written.flushed(true));
        assert(after.offers.take(count) == before.offers.take(count));
        assert forall|j: int| 0 <= j < chunks.len() implies #[trigger] after.offers[count + j] == ((
        if j == 0 {
            handle.sink
        } else {
            Seq::<u8>::empty()
        }) + chunks[j], true) by {
            if j < rest.len() {
                assert(after.offers[count + j] == before.offers[count + j]);
                assert(rest[j] == chunks[j]);
            } else {
                assert(after.offers[count + j] == (written.sink, true));
                if j > 0 {
                    assert(before.sink == Seq::<u8>::empty());
                }
            }
        }
    }
}

/// Clearing a viewport hands over what clears it row by row.
pub proof fn law_clearing(before: HandleView, area: Area, done: bool, after: HandleView)
    requires
        done ==> after == before.delivered(clear_chunks(area)),
        !done ==> refused_within(before, clear_chunks(area), after),
    ensures
        area.y + area.height <= 0xffff ==> cleared(
            before,
            area.y as int,
            area.height as int,
            done,
            after,
        ),
        area.y + area.height > 0xffff ==> cleared(
            before,
            area.y as int,
            0xffff - area.y,
            done,
            after,
        ),
{
    let chunks = clear_chunks(area);
    let count = before.offers.len() as int;
    if done {
        law_delivered_chunks_are_offered(before, chunks);
    } else {
        let taken = choose|taken: int|
            0 <= taken < chunks.len() && after == before.delivered(
                #[trigger] chunks.take(taken),
            ).written(chunks[taken]).flushed(false);
        let delivered = before.delivered(chunks.take(taken));
        law_delivered_chunks_are_offered(before, chunks.take(taken));
        law_flushed_handle(delivered.written(chunks[taken]));
        assert(after.offers.take(count) == delivered.offers.take(count));
        assert forall|j: int| 0 <= j < taken + 1 implies #[trigger] after.offers[count + j] == ((
        if j == 0 {
            before.sink
        } else {
            Seq::<u8>::empty()
        }) + chunks[j], j < taken) by {
            if j < taken {
                assert(after.offers[count + j] == delivered.offers[count + j]);
            } else if j > 0 {
                assert(delivered.sink == Seq::<u8>::empty());
            }
        }
    }
}

/// A new terminal has an empty viewport, and nothing was written to it.
pub proof fn law_new_terminal(handle: TerminalHandle, terminal: SshTerminal)
    requires
        call_ensures(SshTerminal::new, (handle,), terminal),
    ensures
        terminal@.handle == handle@,
        terminal@.area.x == 0,
        terminal@.area.y == 0,
        terminal@.area.width == 0,
        terminal@.area.height == 0,
{
}

/// A resize makes the area the viewport, even where it is broken off, and clears it
/// row by row. It fails with a broken pipe, and only where a chunk is refused.
pub proof fn law_resize_terminal(
    terminal: &mut SshTerminal,
    area: Area,
    result: Result<(), HandleError>,
)
    requires
        call_ensures(SshTerminal::resize, (terminal, area), result),
    ensures
        final(terminal)@.area == area,
        result is Err ==> result == Err::<(), HandleError>(HandleError::BrokenPipe),
        area.y + area.height <= 0xffff ==> cleared(
            old(terminal)@.handle,
            area.y as int,
            area.height as int,
            result is Ok,
            final(terminal)@.handle,
        ),
        area.y + area.height > 0xffff ==> cleared(
            old(terminal)@.handle,
            area.y as int,
            0xffff - area.y,
            result is Ok,
            final(terminal)@.handle,
        ),
{
    law_clearing(old(terminal)@.handle, area, result is Ok, final(terminal)@.handle);
}

/// Drawing hands over, as one chunk, what was collected before and all the bytes of
/// the frame, whatever its length. Nothing is left collected if the channel takes
/// the chunk, and all of it if not.
pub proof fn law_drawing(before: HandleView, frame: Seq<char>, after: HandleView)
    requires
        drawn(before, frame, after),
    ensures
        after.channel == before.channel,
        after.offers.len() == before.offers.len() + 1,
        after.offers.drop_last() == before.offers,
        after.offers.last().0 == before.sink + vstd::utf8::encode_utf8(frame),
        after.offers.last().1 ==> after.sink.len() == 0,
        !after.offers.last().1 ==> after.sink == before.sink + vstd::utf8::encode_utf8(frame),
{
    law_flushed_handle(before.written(vstd::utf8::encode_utf8(frame)));
    assert(after.offers.drop_last() == before.offers);
}

/// A terminal keeps its viewport when a frame is drawn to it, and the frame goes out
/// as one chunk, behind what was collected before.
pub proof fn law_show_on_terminal(terminal: &mut SshTerminal, frame: &str)
    requires
        call_ensures(SshTerminal::show, (terminal, frame), ()),
    ensures
        final(terminal)@.area == old(terminal)@.area,
        ({
            let before = old(terminal)@.handle;
            let after = final(terminal)@.handle;
            &&& after.channel == before.channel
            &&& after.offers.len() == before.offers.len() + 1
            &&& after.offers.drop_last() == before.offers
            &&& after.offers.last().0 == before.sink + vstd::utf8::encode_utf8(frame@)
            &&& after.offers.last().1 ==> after.sink.len() == 0
            &&& !after.offers.last().1 ==> after.sink == before.sink + vstd::utf8::encode_utf8(
                frame@,
            )
        }),
{
    law_drawing(old(terminal)@.handle, frame@, final(terminal)@.handle);
}

/// Two frames that are drawn one after the other, and both taken, reach the client
/// whole, each once and in this order.
pub proof fn law_frames_reach_the_client_in_order(
    before: HandleView,
    one: Seq<char>,
    between: HandleView,
    two: Seq<char>,
    after: HandleView,
)
    requires
        before.sink.len() == 0,
        drawn(before, one, between),
        drawn(between, two, after),
        between.offers.last().1,
        after.offers.last().1,
    ensures
        after.sent() == before.sent().push(vstd::utf8::encode_utf8(one)).push(
            vstd::utf8::encode_utf8(two),
        ),
        after.sink.len() == 0,
{
    law_drawing(before, one, between);
    law_drawing(between, two, after);
    let first = vstd::utf8::encode_utf8(one);
    let second = vstd::utf8::encode_utf8(two);
    assert(before.sink + first == first);
    assert(between.sink + second == second);
    assert(between.offers == before.offers.push((first, true)));
    assert(after.offers == between.offers.push((second, true)));
    law_sent_is_what_was_taken(before.offers, first);
    law_sent_is_what_was_taken(between.offers, second);
}

} // verus!
