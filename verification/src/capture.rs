//! The decisions of the loop that captures the input of the local terminal.
//!
//! The loop polls the terminal, reads an event and deals with it, over and
//! over. It performs the action that [`capture_step`] returns and hands back
//! what came of it. It begins with [`CaptureAction::CheckRunning`].

use vstd::prelude::*;

use crate::event::{Event, InputEvent};
use crate::size::TerminalSize;

verus! {

/// How long one poll waits for an event.
pub const POLL_MILLIS: u64 = 100;

/// What came of the last action. `E` is the error of the terminal.
#[derive(Debug, PartialEq, Eq)]
pub enum CaptureEvent<E> {
    /// The running flag was read.
    Running(bool),
    /// The terminal was polled: whether an event is waiting.
    Polled(Result<bool, E>),
    /// An event was read.
    Read(Result<Event, E>),
    /// The new size was stored.
    SizeStored,
    /// An event was passed on, or the new size was announced.
    Handled,
    /// The running flag was cleared.
    Stopped,
}

/// What the loop does next.
#[derive(Debug, PartialEq, Eq)]
pub enum CaptureAction<E> {
    /// Read the running flag.
    CheckRunning,
    /// Wait for an event, at most this long.
    Poll { millis: u64 },
    /// Read the waiting event.
    Read,
    /// Clear the running flag.
    Stop,
    /// Pass an event on to the game.
    Forward(InputEvent),
    /// Store the new size, all of it at once.
    StoreSize(TerminalSize),
    /// Announce to the renderer that the size has changed.
    AnnounceSize,
    /// Leave the loop with this result.
    Finish(Result<(), E>),
}

/// What is done with an event that was read.
pub open spec fn event_action<E>(event: Event) -> CaptureAction<E> {
    match event {
        Event::Key(key) => if crate::event::is_exit_command(key) {
            CaptureAction::Stop
        } else {
            CaptureAction::Forward(InputEvent::Key(key))
        },
        Event::Mouse(mouse) => CaptureAction::Forward(InputEvent::Mouse(mouse)),
        Event::Resize(width, height) => CaptureAction::StoreSize(
            crate::size::size_of_cells(width, height),
        ),
        Event::FocusGained => CaptureAction::CheckRunning,
        Event::FocusLost => CaptureAction::CheckRunning,
        Event::Paste(_) => CaptureAction::CheckRunning,
    }
}

/// The action that follows an event of the loop.
pub open spec fn capture_next<E>(event: CaptureEvent<E>) -> CaptureAction<E> {
    match event {
        CaptureEvent::Running(running) => if running {
            CaptureAction::Poll { millis: POLL_MILLIS }
        } else {
            CaptureAction::Finish(Ok(()))
        },
        CaptureEvent::Polled(Err(e)) => CaptureAction::Finish(Err(e)),
        CaptureEvent::Polled(Ok(waiting)) => if waiting {
            CaptureAction::Read
        } else {
            CaptureAction::CheckRunning
        },
        CaptureEvent::Read(Err(e)) => CaptureAction::Finish(Err(e)),
        CaptureEvent::Read(Ok(read)) => event_action(read),
        CaptureEvent::SizeStored => CaptureAction::AnnounceSize,
        CaptureEvent::Handled => CaptureAction::CheckRunning,
        CaptureEvent::Stopped => CaptureAction::Finish(Ok(())),
    }
}

/// Decides what is done with an event that was read: the exit command stops
/// the loop, other keys and the mouse go to the game as they are, a resize
/// gives the new size to store, and the rest is ignored.
pub fn capture_event<E>(event: Event) -> (action: CaptureAction<E>)
    ensures
        action == event_action::<E>(event),
{
    match event {
        Event::Key(key) => {
            if key.is_exit_command() {
                CaptureAction::Stop
            } else {
                CaptureAction::Forward(InputEvent::Key(key))
            }
        },
        Event::Mouse(mouse) => CaptureAction::Forward(InputEvent::Mouse(mouse)),
        Event::Resize(width, height) => CaptureAction::StoreSize(
            TerminalSize::from_cells(width, height),
        ),
        _ => CaptureAction::CheckRunning,
    }
}

/// Decides what the loop does after `event`.
pub fn capture_step<E>(event: CaptureEvent<E>) -> (action: CaptureAction<E>)
    ensures
        action == capture_next(event),
{
    match event {
        CaptureEvent::Running(running) => {
            if running {
                CaptureAction::Poll { millis: POLL_MILLIS }
            } else {
                CaptureAction::Finish(Ok(()))
            }
        },
        CaptureEvent::Polled(polled) => match polled {
            Ok(waiting) => {
                if waiting {
                    CaptureAction::Read
                } else {
                    CaptureAction::CheckRunning
                }
            },
            Err(e) => CaptureAction::Finish(Err(e)),
        },
        CaptureEvent::Read(read) => match read {
            Ok(event) => capture_event(event),
            Err(e) => CaptureAction::Finish(Err(e)),
        },
        CaptureEvent::SizeStored => CaptureAction::AnnounceSize,
        CaptureEvent::Handled => CaptureAction::CheckRunning,
        CaptureEvent::Stopped => CaptureAction::Finish(Ok(())),
    }
}

/// Whether an event is the exit command.
pub open spec fn is_exit(event: Event) -> bool {
    event matches Event::Key(key) && crate::event::is_exit_command(key)
}

/// What the game receives when the events `read` are read one after the other.
pub open spec fn forwarded(read: Seq<Event>) -> Seq<InputEvent>
    decreases read.len(),
{
    if read.len() == 0 {
        Seq::empty()
    } else {
        match event_action::<()>(read[0]) {
            CaptureAction::Stop => Seq::empty(),
            CaptureAction::Forward(input) => seq![input] + forwarded(read.drop_first()),
            _ => forwarded(read.drop_first()),
        }
    }
}

/// The loop ends without error exactly when the running flag is down, whether
/// it was found so or cleared by the exit command, and with an error exactly
/// when the terminal fails, with that error.
pub proof fn law_capture_finishes<E>(event: CaptureEvent<E>, e: E)
    ensures
        capture_next(event) == CaptureAction::<E>::Finish(Ok(())) <==> event
            == CaptureEvent::<E>::Running(false) || event is Stopped,
        capture_next(event) == CaptureAction::<E>::Finish(Err(e)) <==> event
            == CaptureEvent::<E>::Polled(Err(e)) || event == CaptureEvent::<E>::Read(Err(e)),
{
}

/// The running flag is cleared for the exit command and for nothing else, and
/// the exit command never reaches the game.
pub proof fn law_only_exit_command_stops(event: Event)
    ensures
        event_action::<()>(event) is Stop <==> is_exit(event),
        is_exit(event) ==> forwarded(seq![event]) == Seq::<InputEvent>::empty(),
{
}

/// Input keeps its order, none of it is lost or changed before the exit
/// command, and nothing after the exit command is passed on.
pub proof fn law_forwarding_keeps_order(before: Seq<Event>, after: Seq<Event>)
    ensures
        (forall|i: int| 0 <= i < before.len() ==> !is_exit(before[i])) ==> forwarded(before + after)
            == forwarded(before) + forwarded(after),
        (exists|i: int| 0 <= i < before.len() && is_exit(before[i])) ==> forwarded(before + after)
            == forwarded(before),
    decreases before.len(),
{
    if before.len() == 0 {
        assert(before + after == after);
        assert(forwarded(before) + forwarded(after) == forwarded(after));
    } else {
        let rest = before.drop_first();
        assert((before + after).drop_first() == rest + after);
        assert((before + after)[0] == before[0]);
        law_forwarding_keeps_order(rest, after);
        if forall|i: int| 0 <= i < before.len() ==> !is_exit(before[i]) {
            assert forall|i: int| 0 <= i < rest.len() implies !is_exit(rest[i]) by {
                assert(rest[i] == before[i + 1]);
            }
            assert(forwarded(before + after) == forwarded(before) + forwarded(after));
        }
        if exists|i: int| 0 <= i < before.len() && is_exit(before[i]) {
            let i = choose|i: int| 0 <= i < before.len() && is_exit(before[i]);
            if i > 0 {
                assert(rest[i - 1] == before[i]);
            }
            assert(forwarded(before + after) == forwarded(before));
        }
    }
}

/// Every key that is not the exit command and every mouse event reaches the
/// game unchanged.
pub proof fn law_input_is_forwarded_unchanged(event: Event)
    ensures
        event matches Event::Key(key) ==> !is_exit(event) ==> forwarded(seq![event]) == seq![
            InputEvent::Key(key),
        ],
        event matches Event::Mouse(mouse) ==> forwarded(seq![event]) == seq![
            InputEvent::Mouse(mouse),
        ],
        !(event is Key) && !(event is Mouse) ==> forwarded(seq![event]) == Seq::<
            InputEvent,
        >::empty(),
{
    reveal_with_fuel(forwarded, 2);
    assert(seq![event].drop_first() == Seq::<Event>::empty());
}

/// Whether `event` is what can come of `action`.
pub open spec fn capture_answers<E>(action: CaptureAction<E>, event: CaptureEvent<E>) -> bool {
    match action {
        CaptureAction::CheckRunning => event is Running,
        CaptureAction::Poll { .. } => event is Polled,
        CaptureAction::Read => event is Read,
        CaptureAction::Stop => event is Stopped,
        CaptureAction::Forward(_) => event is Handled,
        CaptureAction::StoreSize(_) => event is SizeStored,
        CaptureAction::AnnounceSize => event is Handled,
        CaptureAction::Finish(_) => false,
    }
}

/// Whether `events` are a course of the loop from its beginning: each answers the
/// action that the one before led to.
pub open spec fn capture_course<E>(events: Seq<CaptureEvent<E>>) -> bool {
    &&& events.len() > 0 ==> capture_answers(CaptureAction::CheckRunning, events[0])
    &&& forall|i: int|
        0 < i < events.len() ==> capture_answers(
            capture_next(events[i - 1]),
            #[trigger] events[i],
        )
}

/// A size is announced only once it is stored: right before, a resize was read
/// and its size was stored, all of it.
pub proof fn law_size_is_stored_before_it_is_announced<E>(events: Seq<CaptureEvent<E>>, i: int)
    requires
        capture_course(events),
        0 <= i < events.len(),
        capture_next(events[i]) is AnnounceSize,
    ensures
        i > 0,
        events[i] is SizeStored,
        exists|width: u16, height: u16|
            events[i - 1] == CaptureEvent::<E>::Read(Ok(Event::Resize(width, height)))
                && capture_next(events[i - 1]) == CaptureAction::<E>::StoreSize(
                #[trigger] crate::size::size_of_cells(width, height),
            ),
{
    assert(events[i] is SizeStored);
    assert(i > 0);
    assert(capture_answers(capture_next(events[i - 1]), events[i]));
    let read = events[i - 1]->Read_0->Ok_0;
    let size = crate::size::size_of_cells(read->Resize_0, read->Resize_1);
    assert(capture_next(events[i - 1]) == CaptureAction::<E>::StoreSize(size));
}

/// A stored size is announced next.
pub proof fn law_stored_size_is_announced<E>(events: Seq<CaptureEvent<E>>, i: int)
    requires
        capture_course(events),
        0 <= i < events.len() - 1,
        capture_next(events[i]) is StoreSize,
    ensures
        capture_next(events[i + 1]) is AnnounceSize,
{
    assert(capture_answers(capture_next(events[i]), events[i + 1]));
}

/// The sizes that are stored when the events `read` are read one after the other.
pub open spec fn stored(read: Seq<Event>) -> Seq<TerminalSize>
    decreases read.len(),
{
    if read.len() == 0 {
        Seq::empty()
    } else {
        match event_action::<()>(read[0]) {
            CaptureAction::Stop => Seq::empty(),
            CaptureAction::StoreSize(size) => seq![size] + stored(read.drop_first()),
            _ => stored(read.drop_first()),
        }
    }
}

/// The sizes of `before` and then those of `after` are stored, if `before` does not
/// hold the exit command, and nothing after the exit command is stored.
pub proof fn law_storing_keeps_order(before: Seq<Event>, after: Seq<Event>)
    ensures
        (forall|i: int| 0 <= i < before.len() ==> !is_exit(before[i])) ==> stored(before + after)
            == stored(before) + stored(after),
        (exists|i: int| 0 <= i < before.len() && is_exit(before[i])) ==> stored(before + after)
            == stored(before),
    decreases before.len(),
{
    if before.len() == 0 {
        assert(before + after == after);
        assert(stored(before) + stored(after) == stored(after));
    } else {
        let rest = before.drop_first();
        assert((before + after).drop_first() == rest + after);
        assert((before + after)[0] == before[0]);
        law_storing_keeps_order(rest, after);
        if forall|i: int| 0 <= i < before.len() ==> !is_exit(before[i]) {
            assert forall|i: int| 0 <= i < rest.len() implies !is_exit(rest[i]) by {
                assert(rest[i] == before[i + 1]);
            }
            assert(stored(before + after) == stored(before) + stored(after));
        }
        if exists|i: int| 0 <= i < before.len() && is_exit(before[i]) {
            let i = choose|i: int| 0 <= i < before.len() && is_exit(before[i]);
            if i > 0 {
                assert(rest[i - 1] == before[i]);
            }
            assert(stored(before + after) == stored(before));
        }
    }
}

/// The events that were read in the course of `events`, in order.
pub open spec fn read_in<E>(events: Seq<CaptureEvent<E>>) -> Seq<Event>
    decreases events.len(),
{
    if events.len() == 0 {
        Seq::empty()
    } else {
        let before = read_in(events.drop_last());
        match events.last() {
            CaptureEvent::Read(Ok(read)) => before.push(read),
            _ => before,
        }
    }
}

/// What the actions after `events` pass on to the game, in order.
pub open spec fn forwarded_in<E>(events: Seq<CaptureEvent<E>>) -> Seq<InputEvent>
    decreases events.len(),
{
    if events.len() == 0 {
        Seq::empty()
    } else {
        let before = forwarded_in(events.drop_last());
        match capture_next(events.last()) {
            CaptureAction::Forward(input) => before.push(input),
            _ => before,
        }
    }
}

/// The sizes that the actions after `events` store, in order.
pub open spec fn stored_in<E>(events: Seq<CaptureEvent<E>>) -> Seq<TerminalSize>
    decreases events.len(),
{
    if events.len() == 0 {
        Seq::empty()
    } else {
        let before = stored_in(events.drop_last());
        match capture_next(events.last()) {
            CaptureAction::StoreSize(size) => before.push(size),
            _ => before,
        }
    }
}

/// Nothing is read after the exit command: the running flag is cleared, and the
/// loop is left.
pub proof fn law_exit_command_is_read_last<E>(events: Seq<CaptureEvent<E>>, i: int, exit: Event)
    requires
        capture_course(events),
        0 <= i < events.len(),
        events[i] == CaptureEvent::<E>::Read(Ok(exit)),
        is_exit(exit),
    ensures
        capture_next(events[i]) is Stop,
        events.len() <= i + 2,
        events.len() == i + 2 ==> events[i + 1] is Stopped && capture_next(events[i + 1])
            == CaptureAction::<E>::Finish(Ok(())),
        read_in(events).len() > 0,
        read_in(events).last() == exit,
{
    if events.len() > i + 1 {
        assert(capture_answers(capture_next(events[i]), events[i + 1]));
    }
    if events.len() > i + 2 {
        assert(capture_answers(capture_next(events[i + 1]), events[i + 2]));
    }
    lemma_last_read(events, i, exit);
}

/// What was read at the end of a course, or right before the flag was cleared
/// there, was read last.
proof fn lemma_last_read<E>(events: Seq<CaptureEvent<E>>, i: int, read: Event)
    requires
        0 <= i < events.len() <= i + 2,
        events[i] == CaptureEvent::<E>::Read(Ok(read)),
        events.len() == i + 2 ==> events[i + 1] is Stopped,
    ensures
        read_in(events).len() > 0,
        read_in(events).last() == read,
{
    reveal_with_fuel(read_in, 2);
    if events.len() == i + 2 {
        assert(events.drop_last().last() == events[i]);
    }
}

/// Every event that was read stands in the course.
proof fn lemma_read_stands_in_course<E>(events: Seq<CaptureEvent<E>>, k: int) -> (i: int)
    requires
        0 <= k < read_in(events).len(),
    ensures
        0 <= i < events.len(),
        events[i] == CaptureEvent::<E>::Read(Ok(read_in(events)[k])),
    decreases events.len(),
{
    let before = events.drop_last();
    if k < read_in(before).len() {
        lemma_read_stands_in_course(before, k)
    } else {
        events.len() - 1
    }
}

/// Whatever the loop goes through, it has passed on and stored what the events
/// call for that it has read so far, in order and nothing else.
pub proof fn law_course_forwards_and_stores<E>(events: Seq<CaptureEvent<E>>)
    requires
        capture_course(events),
    ensures
        forwarded_in(events) == forwarded(read_in(events)),
        stored_in(events) == stored(read_in(events)),
    decreases events.len(),
{
    if events.len() > 0 {
        let before = events.drop_last();
        let read = read_in(before);
        assert(forall|i: int| 0 <= i < before.len() ==> before[i] == events[i]);
        law_course_forwards_and_stores(before);
        match events.last() {
            CaptureEvent::Read(Ok(event)) => {
                assert forall|k: int| 0 <= k < read.len() implies !is_exit(read[k]) by {
                    let i = lemma_read_stands_in_course(before, k);
                    if is_exit(read[k]) {
                        law_exit_command_is_read_last(events, i, read[k]);
                    }
                }
                law_forwarding_keeps_order(read, seq![event]);
                law_storing_keeps_order(read, seq![event]);
                reveal_with_fuel(forwarded, 2);
                reveal_with_fuel(stored, 2);
                assert(seq![event].drop_first() == Seq::<Event>::empty());
                assert(read.push(event) == read + seq![event]);
                assert(forwarded_in(events) == forwarded_in(before) + forwarded(seq![event]));
                assert(stored_in(events) == stored_in(before) + stored(seq![event]));
            },
            _ => {},
        }
    }
}

/// The sizes that the resizes among `events` call for, in order.
pub open spec fn sizes_of_resizes(events: Seq<Event>) -> Seq<TerminalSize>
    decreases events.len(),
{
    if events.len() == 0 {
        Seq::empty()
    } else {
        let rest = sizes_of_resizes(events.drop_first());
        match events[0] {
            Event::Resize(width, height) => seq![crate::size::size_of_cells(width, height)] + rest,
            _ => rest,
        }
    }
}

/// Up to the exit command one size is stored for each resize, in order, and none
/// for anything else.
pub proof fn law_each_resize_is_stored(read: Seq<Event>)
    requires
        forall|i: int| 0 <= i < read.len() ==> !is_exit(read[i]),
    ensures
        stored(read) == sizes_of_resizes(read),
    decreases read.len(),
{
    if read.len() > 0 {
        let rest = read.drop_first();
        assert forall|i: int| 0 <= i < rest.len() implies !is_exit(rest[i]) by {
            assert(rest[i] == read[i + 1]);
        }
        law_each_resize_is_stored(rest);
        assert(!is_exit(read[0]));
    }
}

/// The last resize counts: the size that is stored in the end is the one of the
/// last resize that was read.
pub proof fn law_last_resize_counts(read: Seq<Event>, i: int, width: u16, height: u16)
    requires
        forall|j: int| 0 <= j < read.len() ==> !is_exit(read[j]),
        0 <= i < read.len(),
        read[i] == Event::Resize(width, height),
        forall|j: int| i < j < read.len() ==> !(read[j] is Resize),
    ensures
        stored(read).len() > 0,
        stored(read).last() == crate::size::size_of_cells(width, height),
    decreases read.len(),
{
    let rest = read.drop_first();
    assert(forall|j: int| 0 <= j < rest.len() ==> rest[j] == read[j + 1]);
    assert(!is_exit(read[0]));
    if i > 0 {
        law_last_resize_counts(rest, i - 1, width, height);
    } else {
        lemma_nothing_stored_without_resize(rest);
        assert(stored(read) == seq![crate::size::size_of_cells(width, height)]);
    }
}

/// Without a resize no size is stored.
proof fn lemma_nothing_stored_without_resize(read: Seq<Event>)
    requires
        forall|j: int| 0 <= j < read.len() ==> !(read[j] is Resize),
    ensures
        stored(read).len() == 0,
    decreases read.len(),
{
    if read.len() > 0 {
        let rest = read.drop_first();
        assert(forall|j: int| 0 <= j < rest.len() ==> rest[j] == read[j + 1]);
        lemma_nothing_stored_without_resize(rest);
        assert(!(read[0] is Resize));
    }
}

} // verus!
