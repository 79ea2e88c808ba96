//! The decisions of the task that renders the game for one remote client.
//!
//! The task starts the renderer and the loop that shows the frames, and watches
//! the client: once it is gone, the rendering is stopped. It performs the action
//! that [`render_step`] returns and hands back what came of it. It begins with
//! [`RenderAction::LookUp`].

use vstd::prelude::*;

use crate::clients::Clients;
use crate::size::TerminalSize;

verus! {

/// How long the task rests between two looks at the client.
pub const WATCH_MILLIS: u64 = 500;

/// What came of the last action.
#[derive(Clone, Copy, Debug, PartialEq, Eq, Structural)]
pub enum RenderEvent {
    /// The client was looked up: the size of its terminal, if it is connected.
    LookedUp(Option<TerminalSize>),
    /// The renderer and the loop that shows the frames are running.
    Spawned,
    /// The rest is over.
    Slept,
    /// The client was looked for: whether it is connected.
    Checked(bool),
    /// The running flag was cleared.
    Stopped,
    /// The loop that shows the frames has ended.
    Joined,
}

/// What the task does next.
#[derive(Clone, Copy, Debug, PartialEq, Eq, Structural)]
pub enum RenderAction {
    /// Look the client up.
    LookUp,
    /// Start the renderer for this size, and the loop that shows the frames.
    Spawn(TerminalSize),
    /// Rest this long.
    Sleep { millis: u64 },
    /// Look whether the client is connected.
    CheckClient,
    /// Clear the running flag.
    Stop,
    /// Wait for the loop that shows the frames.
    Join,
    /// End the task.
    Finish,
}

/// The action that follows an event of the task.
pub open spec fn render_next(event: RenderEvent) -> RenderAction {
    match event {
        RenderEvent::LookedUp(Some(size)) => RenderAction::Spawn(size),
        RenderEvent::LookedUp(None) => RenderAction::Finish,
        RenderEvent::Spawned => RenderAction::Sleep { millis: WATCH_MILLIS },
        RenderEvent::Slept => RenderAction::CheckClient,
        RenderEvent::Checked(connected) => if connected {
            RenderAction::Sleep { millis: WATCH_MILLIS }
        } else {
            RenderAction::Stop
        },
        RenderEvent::Stopped => RenderAction::Join,
        RenderEvent::Joined => RenderAction::Finish,
    }
}

/// Decides what the task does after `event`.
pub fn render_step(event: RenderEvent) -> (action: RenderAction)
    ensures
        action == render_next(event),
{
    match event {
        RenderEvent::LookedUp(found) => match found {
            Some(size) => RenderAction::Spawn(size),
            None => RenderAction::Finish,
        },
        RenderEvent::Spawned => RenderAction::Sleep { millis: WATCH_MILLIS },
        RenderEvent::Slept => RenderAction::CheckClient,
        RenderEvent::Checked(connected) => {
            if connected {
                RenderAction::Sleep { millis: WATCH_MILLIS }
            } else {
                RenderAction::Stop
            }
        },
        RenderEvent::Stopped => RenderAction::Join,
        RenderEvent::Joined => RenderAction::Finish,
    }
}

/// Looks the client `id` up and decides what the task does.
pub fn look_up(clients: &Clients, id: usize) -> (action: RenderAction)
    ensures
        action == if clients@.contains_key(id) {
            RenderAction::Spawn(clients@[id].term_size)
        } else {
            RenderAction::Finish
        },
{
    render_step(RenderEvent::LookedUp(clients.term_size(id)))
}

/// Looks whether the client `id` is connected and decides what the task does.
pub fn check_client(clients: &Clients, id: usize) -> (action: RenderAction)
    ensures
        action == if clients@.contains_key(id) {
            RenderAction::Sleep { millis: WATCH_MILLIS }
        } else {
            RenderAction::Stop
        },
{
    render_step(RenderEvent::Checked(clients.contains(id)))
}

/// Whether `event` is what can come of `action`.
pub open spec fn render_answers(action: RenderAction, event: RenderEvent) -> bool {
    match action {
        RenderAction::LookUp => event is LookedUp,
        RenderAction::Spawn(_) => event is Spawned,
        RenderAction::Sleep { .. } => event is Slept,
        RenderAction::CheckClient => event is Checked,
        RenderAction::Stop => event is Stopped,
        RenderAction::Join => event is Joined,
        RenderAction::Finish => false,
    }
}

/// Whether `events` are a course of the task from its beginning: each answers
/// the action that the one before led to.
pub open spec fn render_course(events: Seq<RenderEvent>) -> bool {
    &&& events.len() > 0 ==> render_answers(RenderAction::LookUp, events[0])
    &&& forall|i: int|
        0 < i < events.len() ==> render_answers(
            render_next(events[i - 1]),
            #[trigger] events[i],
        )
}

/// The rendering is stopped when the client is found to be gone, and then only.
pub proof fn law_rendering_stops_with_client(event: RenderEvent)
    ensures
        render_next(event) is Stop <==> event == RenderEvent::Checked(false),
{
}

/// A task that has started the rendering does not end before it has found the
/// client gone, stopped the rendering and waited for the loop that shows the
/// frames.
pub proof fn law_started_rendering_is_stopped(events: Seq<RenderEvent>)
    requires
        events.len() > 0,
        render_course(events),
        render_next(events.last()) is Finish,
    ensures
        events == seq![RenderEvent::LookedUp(None)] || (events.len() >= 6 && events[events.len() - 3]
            == RenderEvent::Checked(false) && events[events.len() - 2] is Stopped && events.last() is Joined
            && render_next(events[0]) is Spawn),
{
    let n = events.len() as int;
    if n == 1 {
        assert(events =~= seq![RenderEvent::LookedUp(None)]);
    } else {
        assert(render_answers(render_next(events[n - 2]), events[n - 1]));
        assert(events[n - 2] is Stopped);
        assert(n - 2 > 0);
        assert(render_answers(render_next(events[n - 3]), events[n - 2]));
        assert(events[n - 3] == RenderEvent::Checked(false));
        assert(n - 3 > 0);
        assert(render_answers(render_next(events[n - 4]), events[n - 3]));
        assert(events[n - 4] is Slept);
        assert(n - 4 > 0);
        assert(render_answers(render_next(events[n - 5]), events[n - 4]));
        assert(n - 5 > 0) by {
            if n == 5 {
                assert(events[0] is LookedUp);
            }
        }
        assert(render_answers(render_next(events[0]), events[1]));
    }
}

} // verus!
