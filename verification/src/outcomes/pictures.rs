//! What comes of rendering the game for a remote client and of showing the frames.

use vstd::prelude::*;

use crate::clients::Clients;
use crate::frames::{
    pump_answers, pump_course, pump_next, pumped, FramePump, PumpAction, PumpEvent, Received,
};
use crate::outcomes::streams::law_drawing;
use crate::rendering::{
    check_client, look_up, render_answers, render_course, render_next, render_step, RenderAction,
    RenderEvent,
};
use crate::size::TerminalSize;

verus! {

/// A loop starts without a frame.
pub proof fn law_new_pump(pump: FramePump)
    requires
        call_ensures(FramePump::new, (), pump),
    ensures
        pump.last_frame is None,
{
}

/// A frame that comes, in whichever way, is the newest one from then on. Whatever
/// else happens leaves the newest frame as it is.
pub proof fn law_newest_frame_is_kept(pump: &mut FramePump, event: PumpEvent, action: PumpAction)
    requires
        call_ensures(FramePump::step, (pump, event), action),
    ensures
        event matches PumpEvent::Received(Received::Frame(frame)) ==> final(pump).last_frame == Some(
            frame,
        ),
        event matches PumpEvent::Drained(Received::Frame(frame)) ==> final(pump).last_frame == Some(
            frame,
        ),
        event matches PumpEvent::Waited(Some(frame)) ==> final(pump).last_frame == Some(frame),
        event is Running || event is Rechecked || event is Shown || event is Slept || event
            == PumpEvent::Received(Received::Empty) || event == PumpEvent::Received(
            Received::Disconnected,
        ) || event == PumpEvent::Drained(Received::Empty) || event == PumpEvent::Drained(
            Received::Disconnected,
        ) || event == PumpEvent::Waited(None) ==> final(pump).last_frame == old(pump).last_frame,
{
}

/// After a frame was drawn the loop rests for 16 milliseconds, whatever the frame is,
/// and reads the running flag after the rest. If the client is gone, it ends.
pub proof fn law_pump_rests_after_a_frame(pump: &mut FramePump, event: PumpEvent, action: PumpAction)
    requires
        call_ensures(FramePump::step, (pump, event), action),
    ensures
        event == PumpEvent::Shown(true) ==> action == (PumpAction::Sleep { millis: 16 }),
        event == PumpEvent::Shown(false) ==> action == PumpAction::Finish,
        event == PumpEvent::Slept ==> action == PumpAction::CheckRunning,
        action is Sleep <==> event == PumpEvent::Shown(true),
{
}

/// While the flag is up, a frame is asked for. The frames that are waiting are taken
/// one by one, and the newest is drawn when none is left.
pub proof fn law_pump_takes_all_waiting_frames(
    pump: &mut FramePump,
    event: PumpEvent,
    action: PumpAction,
)
    requires
        call_ensures(FramePump::step, (pump, event), action),
    ensures
        event == PumpEvent::Running(true) ==> action == PumpAction::TryReceive,
        event == PumpEvent::Running(false) ==> action == PumpAction::Finish,
        event is Received && event->Received_0 is Frame ==> action == PumpAction::Drain,
        event is Drained && event->Drained_0 is Frame ==> action == PumpAction::Drain,
        event is Drained && !(event->Drained_0 is Frame) ==> action == PumpAction::Show,
        event == PumpEvent::Received(Received::Disconnected) ==> action == PumpAction::Finish,
{
}

/// Where no frame is waiting, the one before is drawn again. Where there is none, the
/// first one is waited for, a tenth of a second at a time, and the flag is read after
/// each wait in vain.
pub proof fn law_pump_waits_for_the_first_frame(
    pump: &mut FramePump,
    event: PumpEvent,
    action: PumpAction,
)
    requires
        call_ensures(FramePump::step, (pump, event), action),
    ensures
        event == PumpEvent::Received(Received::Empty) ==> (if old(pump).last_frame is Some {
            action == PumpAction::Show
        } else {
            action == (PumpAction::Wait { millis: 100 })
        }),
        event is Waited && event->Waited_0 is Some ==> action == PumpAction::Show,
        event == PumpEvent::Waited(None) ==> action == PumpAction::RecheckRunning,
        event == PumpEvent::Rechecked(true) ==> action == PumpAction::CheckRunning,
        event == PumpEvent::Rechecked(false) ==> action == PumpAction::Finish,
{
}

/// The newest frame goes to the client as one chunk with all its bytes, behind what
/// was collected before. The client keeps its size and its viewport, and the others
/// stay as they are. The client counts as gone exactly if there is a frame and the
/// client is not registered.
pub proof fn law_show_newest_frame(
    pump: &FramePump,
    clients: &mut Clients,
    id: usize,
    found: bool,
)
    requires
        call_ensures(FramePump::show, (pump, clients, id), found),
    ensures
        found <==> pump.last_frame is None || old(clients)@.contains_key(id),
        final(clients)@.dom() == old(clients)@.dom(),
        forall|other: usize| #[trigger]
            old(clients)@.contains_key(other) && (other != id || pump.last_frame is None)
                ==> final(clients)@[other] == old(clients)@[other],
        pump.last_frame is Some && old(clients)@.contains_key(id) ==> {
            let before = old(clients)@[id];
            let after = final(clients)@[id];
            let bytes = before.terminal.handle.sink + vstd::utf8::encode_utf8(
                pump.last_frame->Some_0@,
            );
            &&& after.term_size == before.term_size
            &&& after.terminal.area == before.terminal.area
            &&& after.terminal.handle.channel == before.terminal.handle.channel
            &&& after.terminal.handle.offers.len() == before.terminal.handle.offers.len() + 1
            &&& after.terminal.handle.offers.drop_last() == before.terminal.handle.offers
            &&& after.terminal.handle.offers.last().0 == bytes
            &&& after.terminal.handle.offers.last().1 ==> after.terminal.handle.sink.len() == 0
            &&& !after.terminal.handle.offers.last().1 ==> after.terminal.handle.sink == bytes
        },
{
    if pump.last_frame is Some && old(clients)@.contains_key(id) {
        law_drawing(
            old(clients)@[id].terminal.handle,
            pump.last_frame->Some_0@,
            final(clients)@[id].terminal.handle,
        );
    }
    assert(final(clients)@.dom() == old(clients)@.dom());
}

/// In every course, what follows a drawn frame is a rest, a look at the running flag
/// and, if it is up, an attempt to receive, before anything is drawn again.
pub proof fn law_rest_and_look_between_frames(events: Seq<PumpEvent>, i: int, j: int)
    requires
        pump_course(events),
        0 <= i < j < events.len(),
        events[i] is Shown,
        events[j] is Shown,
    ensures
        j > i + 3,
        events[i] == PumpEvent::Shown(true),
        events[i + 1] is Slept,
        events[i + 2] == PumpEvent::Running(true),
        events[i + 3] is Received,
{
    law_pump_takes_turns(events, i);
    if j > i + 1 {
        law_pump_takes_turns(events, i + 1);
    }
    if j > i + 2 {
        law_pump_takes_turns(events, i + 2);
    }
}

/// The loop goes round by these turns alone. A flag that is down, a renderer that is
/// gone and a client that is gone end it: nothing comes after them.
pub proof fn law_pump_takes_turns(events: Seq<PumpEvent>, i: int)
    requires
        pump_course(events),
        0 <= i < events.len() - 1,
    ensures
        events[0] is Running,
        events[i] is Running ==> events[i] == PumpEvent::Running(true) && events[i + 1] is Received,
        events[i] is Received && events[i]->Received_0 is Frame ==> events[i + 1] is Drained,
        events[i] == PumpEvent::Received(Received::Empty) ==> events[i + 1] is Shown || events[i
            + 1] is Waited,
        events[i] != PumpEvent::Received(Received::Disconnected),
        events[i] is Drained && events[i]->Drained_0 is Frame ==> events[i + 1] is Drained,
        events[i] is Drained && !(events[i]->Drained_0 is Frame) ==> events[i + 1] is Shown,
        events[i] is Waited && events[i]->Waited_0 is Some ==> events[i + 1] is Shown,
        events[i] == PumpEvent::Waited(None) ==> events[i + 1] is Rechecked,
        events[i] is Rechecked ==> events[i] == PumpEvent::Rechecked(true) && events[i
            + 1] is Running,
        events[i] is Shown ==> events[i] == PumpEvent::Shown(true) && events[i + 1] is Slept,
        events[i] is Slept ==> events[i + 1] is Running,
{
    assert(pump_answers(
        pump_next(pumped(None, events.take(i)), events[i]).1,
        events[i + 1],
    ));
}

/// The renderer is started with the size that was looked up, as it is. Without a
/// client there is nothing to render.
pub proof fn law_rendering_starts_with_the_size_found(
    found: Option<TerminalSize>,
    action: RenderAction,
)
    requires
        call_ensures(render_step, (RenderEvent::LookedUp(found),), action),
    ensures
        found matches Some(size) ==> action == RenderAction::Spawn(size),
        found is None ==> action == RenderAction::Finish,
{
}

/// The client is looked for every half second. The rendering goes on while it is
/// there. Once it is gone, the rendering is stopped, the loop that shows the frames
/// is waited for, and the task ends.
pub proof fn law_rendering_watches_the_client(event: RenderEvent, action: RenderAction)
    requires
        call_ensures(render_step, (event,), action),
    ensures
        event is Spawned ==> action == (RenderAction::Sleep { millis: 500 }),
        event is Slept ==> action == RenderAction::CheckClient,
        event == RenderEvent::Checked(true) ==> action == (RenderAction::Sleep { millis: 500 }),
        event == RenderEvent::Checked(false) ==> action == RenderAction::Stop,
        event is Stopped ==> action == RenderAction::Join,
        event is Joined ==> action == RenderAction::Finish,
{
}

/// A client that is registered is rendered for in its own size, one that is not is
/// not rendered for.
pub proof fn law_look_up(clients: &Clients, id: usize, action: RenderAction)
    requires
        call_ensures(look_up, (clients, id), action),
    ensures
        clients@.contains_key(id) ==> action == RenderAction::Spawn(clients@[id].term_size),
        !clients@.contains_key(id) ==> action == RenderAction::Finish,
{
}

/// The rendering is stopped exactly if the client is no longer registered.
pub proof fn law_check_client(clients: &Clients, id: usize, action: RenderAction)
    requires
        call_ensures(check_client, (clients, id), action),
    ensures
        clients@.contains_key(id) ==> action == (RenderAction::Sleep { millis: 500 }),
        !clients@.contains_key(id) ==> action == RenderAction::Stop,
{
}

/// The task goes round by these turns alone: the client is looked up, the rendering
/// is started, and the client is looked for after each rest until it is gone.
pub proof fn law_rendering_takes_turns(events: Seq<RenderEvent>, i: int)
    requires
        render_course(events),
        0 <= i < events.len() - 1,
    ensures
        events[0] is LookedUp,
        events[i] is LookedUp ==> i == 0 && events[i]->LookedUp_0 is Some && events[i
            + 1] is Spawned,
        events[i] is Spawned ==> events[i + 1] is Slept,
        events[i] is Slept ==> events[i + 1] is Checked,
        events[i] == RenderEvent::Checked(true) ==> events[i + 1] is Slept,
        events[i] == RenderEvent::Checked(false) ==> events[i + 1] is Stopped,
        events[i] is Stopped ==> events[i + 1] is Joined,
        !(events[i] is Joined),
{
    assert(render_answers(render_next(events[i]), events[i + 1]));
    if i > 0 {
        assert(render_answers(render_next(events[i - 1]), events[i]));
    }
}

} // verus!
