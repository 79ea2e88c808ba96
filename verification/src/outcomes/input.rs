//! What comes of the events of the local terminal.

use vstd::prelude::*;

use crate::capture::{
    capture_answers, capture_course, capture_event, capture_next, capture_step, forwarded_in,
    stored_in, CaptureAction, CaptureEvent,
};
use crate::event::{Event, InputEvent, KeyCode, KeyEvent, MouseEvent};

verus! {

/// A key event is the exit command exactly if its key is `c` and the control key,
/// the second bit of the modifiers, is held, whatever else is held.
pub proof fn law_exit_command(key: &KeyEvent, exit: bool)
    requires
        call_ensures(KeyEvent::is_exit_command, (key,), exit),
    ensures
        exit <==> key.code == KeyCode::Char('c') && key.modifiers & 2 == 2,
{
}

/// Whether a key is the exit command depends on its code and on the control bit
/// alone: pressed, repeated or released, with other modifiers or without, it is
/// the same command.
pub proof fn law_exit_command_ignores_the_rest(
    one: &KeyEvent,
    two: &KeyEvent,
    exit: (bool, bool),
)
    requires
        call_ensures(KeyEvent::is_exit_command, (one,), exit.0),
        call_ensures(KeyEvent::is_exit_command, (two,), exit.1),
        one.code == two.code,
        one.modifiers & 2 == two.modifiers & 2,
    ensures
        exit.0 == exit.1,
{
    let bits = one.modifiers;
    assert(bits & 2 == 2 || bits & 2 == 0) by (bit_vector);
}

/// A key that was read stops the capture if it is `c` with the control key held.
/// Every other key goes to the game, unchanged.
pub proof fn law_key_stops_or_is_forwarded<E>(key: KeyEvent, action: CaptureAction<E>)
    requires
        call_ensures(
            capture_step::<E>,
            (CaptureEvent::<E>::Read(Ok(Event::Key(key))),),
            action,
        ),
    ensures
        key.code == KeyCode::Char('c') && key.modifiers & 2 == 2 ==> action
            == CaptureAction::<E>::Stop,
        key.code != KeyCode::Char('c') || key.modifiers & 2 != 2 ==> action
            == CaptureAction::<E>::Forward(InputEvent::Key(key)),
{
}

/// Everything that the mouse does goes to the game, unchanged.
pub proof fn law_mouse_is_forwarded<E>(mouse: MouseEvent, action: CaptureAction<E>)
    requires
        call_ensures(
            capture_step::<E>,
            (CaptureEvent::<E>::Read(Ok(Event::Mouse(mouse))),),
            action,
        ),
    ensures
        action == CaptureAction::<E>::Forward(InputEvent::Mouse(mouse)),
{
}

/// A resize stores the new cells, and the picture that belongs to the new width.
pub proof fn law_resize_is_stored<E>(width: u16, height: u16, action: CaptureAction<E>)
    requires
        call_ensures(
            capture_step::<E>,
            (CaptureEvent::<E>::Read(Ok(Event::Resize(width, height))),),
            action,
        ),
    ensures
        action is StoreSize,
        ({
            let size = action->StoreSize_0;
            &&& size.width == width
            &&& size.height == height
            &&& size.target_width == width
            &&& size.target_height % 2 == 0
            &&& width as int * 9 / 16 <= size.target_height <= width as int * 9 / 16 + 1
        }),
{
}

/// A change of the focus or a paste is passed over: the loop goes on as if nothing
/// had been read.
pub proof fn law_focus_and_paste_are_passed_over<E>(event: Event, action: CaptureAction<E>)
    requires
        call_ensures(capture_step::<E>, (CaptureEvent::<E>::Read(Ok(event)),), action),
        event is FocusGained || event is FocusLost || event is Paste,
    ensures
        action == CaptureAction::<E>::CheckRunning,
{
}

/// An event that was read is dealt with in the same way inside the loop and outside
/// of it.
pub proof fn law_read_event_is_dealt_with<E>(
    event: Event,
    inside: CaptureAction<E>,
    outside: CaptureAction<E>,
)
    requires
        call_ensures(capture_step::<E>, (CaptureEvent::<E>::Read(Ok(event)),), inside),
        call_ensures(capture_event::<E>, (event,), outside),
    ensures
        inside == outside,
{
}

/// While the flag is up, the terminal is polled for a tenth of a second at a time,
/// and read exactly if an event is waiting.
pub proof fn law_capture_polls_then_reads<E>(
    running: bool,
    waiting: bool,
    checked: CaptureAction<E>,
    polled: CaptureAction<E>,
)
    requires
        call_ensures(capture_step::<E>, (CaptureEvent::<E>::Running(running),), checked),
        call_ensures(capture_step::<E>, (CaptureEvent::<E>::Polled(Ok(waiting)),), polled),
    ensures
        running ==> checked == (CaptureAction::<E>::Poll { millis: 100 }),
        !running ==> checked == CaptureAction::<E>::Finish(Ok(())),
        waiting ==> polled == CaptureAction::<E>::Read,
        !waiting ==> polled == CaptureAction::<E>::CheckRunning,
{
}

/// A failure of the terminal ends the loop with that failure, whether it comes with
/// a poll or with a read.
pub proof fn law_capture_failure_is_returned<E>(
    e: E,
    polled: CaptureAction<E>,
    read: CaptureAction<E>,
)
    requires
        call_ensures(capture_step::<E>, (CaptureEvent::<E>::Polled(Err(e)),), polled),
        call_ensures(capture_step::<E>, (CaptureEvent::<E>::Read(Err(e)),), read),
    ensures
        polled == CaptureAction::<E>::Finish(Err(e)),
        read == CaptureAction::<E>::Finish(Err(e)),
{
}

/// A stored size is announced, what was dealt with leads back to the flag, and once
/// the flag was cleared the loop ends without error.
pub proof fn law_capture_goes_on<E>(
    stored: CaptureAction<E>,
    handled: CaptureAction<E>,
    stopped: CaptureAction<E>,
)
    requires
        call_ensures(capture_step::<E>, (CaptureEvent::<E>::SizeStored,), stored),
        call_ensures(capture_step::<E>, (CaptureEvent::<E>::Handled,), handled),
        call_ensures(capture_step::<E>, (CaptureEvent::<E>::Stopped,), stopped),
    ensures
        stored == CaptureAction::<E>::AnnounceSize,
        handled == CaptureAction::<E>::CheckRunning,
        stopped == CaptureAction::<E>::Finish(Ok(())),
{
}

/// Whatever the loop goes through, one event more adds to what the game receives
/// that event itself, if it is a key other than `c` with the control key or a
/// mouse event, and nothing otherwise.
pub proof fn law_course_forwards_input<E>(events: Seq<CaptureEvent<E>>, event: CaptureEvent<E>)
    ensures
        forwarded_in(Seq::<CaptureEvent<E>>::empty()).len() == 0,
        event matches CaptureEvent::Read(Ok(Event::Key(key))) ==> (if key.code == KeyCode::Char(
            'c',
        ) && key.modifiers & 2 == 2 {
            forwarded_in(events.push(event)) == forwarded_in(events)
        } else {
            forwarded_in(events.push(event)) == forwarded_in(events).push(InputEvent::Key(key))
        }),
        event matches CaptureEvent::Read(Ok(Event::Mouse(mouse))) ==> forwarded_in(
            events.push(event),
        ) == forwarded_in(events).push(InputEvent::Mouse(mouse)),
        !(event matches CaptureEvent::Read(Ok(Event::Key(_)))) && !(event matches CaptureEvent::Read(
            Ok(Event::Mouse(_)),
        )) ==> forwarded_in(events.push(event)) == forwarded_in(events),
{
    assert(events.push(event).drop_last() == events);
}

/// Whatever the loop goes through, one event more adds to the stored sizes the one
/// of a resize, and nothing otherwise.
pub proof fn law_course_stores_sizes<E>(events: Seq<CaptureEvent<E>>, event: CaptureEvent<E>)
    ensures
        stored_in(Seq::<CaptureEvent<E>>::empty()).len() == 0,
        event matches CaptureEvent::Read(Ok(Event::Resize(width, height))) ==> {
            let sizes = stored_in(events.push(event));
            &&& sizes.len() == stored_in(events).len() + 1
            &&& sizes.drop_last() == stored_in(events)
            &&& sizes.last().width == width
            &&& sizes.last().height == height
            &&& sizes.last().target_width == width
            &&& sizes.last().target_height % 2 == 0
            &&& width as int * 9 / 16 <= sizes.last().target_height <= width as int * 9 / 16 + 1
        },
        !(event matches CaptureEvent::Read(Ok(Event::Resize(_, _)))) ==> stored_in(
            events.push(event),
        ) == stored_in(events),
{
    assert(events.push(event).drop_last() == events);
    assert(stored_in(events.push(event)).drop_last() == stored_in(events) || !(
    event matches CaptureEvent::Read(Ok(Event::Resize(_, _)))));
}

/// The loop goes round by these turns alone: it looks at the flag, polls, reads,
/// deals with what was read and looks at the flag again. A flag that is down, a
/// failure of the terminal and a cleared flag end it: nothing comes after them.
pub proof fn law_course_takes_turns<E>(events: Seq<CaptureEvent<E>>, i: int)
    requires
        capture_course(events),
        0 <= i < events.len() - 1,
    ensures
        events[0] is Running,
        events[i] is Running ==> events[i] == CaptureEvent::<E>::Running(true) && events[i
            + 1] is Polled,
        events[i] is Polled ==> (events[i] == CaptureEvent::<E>::Polled(Ok(true)) && events[i
            + 1] is Read) || (events[i] == CaptureEvent::<E>::Polled(Ok(false)) && events[i
            + 1] is Running),
        events[i] is Read ==> events[i]->Read_0 is Ok,
        events[i] matches CaptureEvent::Read(Ok(Event::Key(key))) ==> (if key.code == KeyCode::Char(
            'c',
        ) && key.modifiers & 2 == 2 {
            events[i + 1] is Stopped
        } else {
            events[i + 1] is Handled
        }),
        events[i] matches CaptureEvent::Read(Ok(Event::Mouse(_))) ==> events[i + 1] is Handled,
        events[i] matches CaptureEvent::Read(Ok(Event::Resize(_, _))) ==> events[i
            + 1] is SizeStored,
        events[i] matches CaptureEvent::Read(Ok(read)) ==> (read is FocusGained || read is FocusLost
            || read is Paste ==> events[i + 1] is Running),
        events[i] is SizeStored ==> events[i + 1] is Handled,
        events[i] is Handled ==> events[i + 1] is Running,
        !(events[i] is Stopped),
{
    assert(capture_answers(capture_next(events[i]), events[i + 1]));
}

} // verus!
