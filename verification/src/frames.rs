//! The decisions of the loop that shows the newest frame to a remote client.
//!
//! The loop takes frames from the renderer and draws the newest one, over and
//! over, until the rendering is stopped, the renderer is gone or the client is
//! gone. It performs the action that [`FramePump::step`] returns and hands back
//! what came of it. It begins with [`PumpAction::CheckRunning`].

use vstd::prelude::*;

use crate::clients::Clients;

verus! {

/// How long the loop waits for the first frame before it looks at the running
/// flag again.
pub const FIRST_FRAME_MILLIS: u64 = 100;

/// How long the loop rests after a frame.
pub const FRAME_MILLIS: u64 = 16;

/// What an attempt to receive a frame without waiting gave.
#[derive(Debug, PartialEq, Eq)]
pub enum Received {
    /// A frame.
    Frame(String),
    /// No frame is waiting.
    Empty,
    /// No frame is waiting and the renderer is gone.
    Disconnected,
}

/// What came of the last action.
#[derive(Debug, PartialEq, Eq)]
pub enum PumpEvent {
    /// The running flag was read.
    Running(bool),
    /// A first frame was asked for.
    Received(Received),
    /// A newer frame was asked for.
    Drained(Received),
    /// A frame was waited for: it came, or it did not in time or never will.
    Waited(Option<String>),
    /// The running flag was read after a wait in vain.
    Rechecked(bool),
    /// The frame was drawn: whether the client is still connected.
    Shown(bool),
    /// The rest is over.
    Slept,
}

/// What the loop does next.
#[derive(Clone, Copy, Debug, PartialEq, Eq, Structural)]
pub enum PumpAction {
    /// Read the running flag.
    CheckRunning,
    /// Ask for a frame, without waiting.
    TryReceive,
    /// Ask for a frame that is newer than the one that was just received,
    /// without waiting.
    Drain,
    /// Wait for a frame, at most this long.
    Wait { millis: u64 },
    /// Read the running flag after a wait in vain.
    RecheckRunning,
    /// Draw the newest frame.
    Show,
    /// Rest this long.
    Sleep { millis: u64 },
    /// Leave the loop.
    Finish,
}

/// The newest frame and the action after an event, where `last` is the newest
/// frame before it.
pub open spec fn pump_next(last: Option<String>, event: PumpEvent) -> (Option<String>, PumpAction) {
    match event {
        PumpEvent::Running(running) => (
            last,
            if running {
                PumpAction::TryReceive
            } else {
                PumpAction::Finish
            },
        ),
        PumpEvent::Received(Received::Frame(frame)) => (Some(frame), PumpAction::Drain),
        PumpEvent::Received(Received::Empty) => (
            last,
            if last is Some {
                PumpAction::Show
            } else {
                PumpAction::Wait { millis: FIRST_FRAME_MILLIS }
            },
        ),
        PumpEvent::Received(Received::Disconnected) => (last, PumpAction::Finish),
        PumpEvent::Drained(Received::Frame(frame)) => (Some(frame), PumpAction::Drain),
        PumpEvent::Drained(_) => (last, PumpAction::Show),
        PumpEvent::Waited(Some(frame)) => (Some(frame), PumpAction::Show),
        PumpEvent::Waited(None) => (last, PumpAction::RecheckRunning),
        PumpEvent::Rechecked(running) => (
            last,
            if running {
                PumpAction::CheckRunning
            } else {
                PumpAction::Finish
            },
        ),
        PumpEvent::Shown(found) => (
            last,
            if found {
                PumpAction::Sleep { millis: FRAME_MILLIS }
            } else {
                PumpAction::Finish
            },
        ),
        PumpEvent::Slept => (last, PumpAction::CheckRunning),
    }
}

/// The state of the loop: the newest frame that was received, if any was.
#[derive(Debug, PartialEq, Eq)]
pub struct FramePump {
    pub last_frame: Option<String>,
}

impl FramePump {
    /// A loop that has received nothing.
    pub fn new() -> (pump: FramePump)
        ensures
            pump.last_frame is None,
    {
        FramePump { last_frame: None }
    }

    /// Takes in an event and decides what the loop does after it.
    pub fn step(&mut self, event: PumpEvent) -> (action: PumpAction)
        ensures
            (final(self).last_frame, action) == pump_next(old(self).last_frame, event),
    {
        match event {
            PumpEvent::Running(running) => {
                if running {
                    PumpAction::TryReceive
                } else {
                    PumpAction::Finish
                }
            },
            PumpEvent::Received(received) => match received {
                Received::Frame(frame) => {
                    self.last_frame = Some(frame);
                    PumpAction::Drain
                },
                Received::Empty => {
                    if self.last_frame.is_some() {
                        PumpAction::Show
                    } else {
                        PumpAction::Wait { millis: FIRST_FRAME_MILLIS }
                    }
                },
                Received::Disconnected => PumpAction::Finish,
            },
            PumpEvent::Drained(received) => match received {
                Received::Frame(frame) => {
                    self.last_frame = Some(frame);
                    PumpAction::Drain
                },
                _ => PumpAction::Show,
            },
            PumpEvent::Waited(waited) => match waited {
                Some(frame) => {
                    self.last_frame = Some(frame);
                    PumpAction::Show
                },
                None => PumpAction::RecheckRunning,
            },
            PumpEvent::Rechecked(running) => {
                if running {
                    PumpAction::CheckRunning
                } else {
                    PumpAction::Finish
                }
            },
            PumpEvent::Shown(found) => {
                if found {
                    PumpAction::Sleep { millis: FRAME_MILLIS }
                } else {
                    PumpAction::Finish
                }
            },
            PumpEvent::Slept => PumpAction::CheckRunning,
        }
    }

    /// Draws the newest frame, if there is one, to the terminal of the client
    /// `id`. Returns whether the client is still connected; without a frame it is
    /// not looked for and taken to be.
    pub fn show(&self, clients: &mut Clients, id: usize) -> (found: bool)
        ensures
            found == (self.last_frame is None || old(clients)@.contains_key(id)),
            self.last_frame is None || !found ==> final(clients)@ == old(clients)@,
            self.last_frame matches Some(frame) ==> found ==> {
                let before = old(clients)@[id];
                let after = final(clients)@[id];
                &&& final(clients)@ == old(clients)@.insert(id, after)
                &&& after.term_size == before.term_size
                &&& after.terminal.area == before.terminal.area
                &&& crate::terminal::drawn(before.terminal.handle, frame@, after.terminal.handle)
            },
    {
        match &self.last_frame {
            Some(frame) => clients.show(id, frame.as_str()),
            None => true,
        }
    }
}

/// The frame that an event brings, if it brings one.
pub open spec fn frame_of(event: PumpEvent) -> Option<String> {
    match event {
        PumpEvent::Received(Received::Frame(frame)) => Some(frame),
        PumpEvent::Drained(Received::Frame(frame)) => Some(frame),
        PumpEvent::Waited(Some(frame)) => Some(frame),
        _ => None,
    }
}

/// The newest frame after `events`, one after the other.
pub open spec fn pumped(last: Option<String>, events: Seq<PumpEvent>) -> Option<String>
    decreases events.len(),
{
    if events.len() == 0 {
        last
    } else {
        pump_next(pumped(last, events.drop_last()), events.last()).0
    }
}

/// The frame that is drawn is the last one that came: of all the frames that
/// `events` bring, none that came after the one at `i` means that the one at `i`
/// is drawn.
pub proof fn law_newest_frame_wins(last: Option<String>, events: Seq<PumpEvent>, i: int)
    requires
        0 <= i < events.len(),
        frame_of(events[i]) is Some,
        forall|j: int| i < j < events.len() ==> frame_of(events[j]) is None,
    ensures
        pumped(last, events) == frame_of(events[i]),
    decreases events.len(),
{
    if i < events.len() - 1 {
        let rest = events.drop_last();
        assert(forall|j: int| i < j < rest.len() ==> rest[j] == events[j]);
        law_newest_frame_wins(last, rest, i);
        assert(frame_of(events.last()) is None);
    }
}

/// Without a new frame the one before stays.
pub proof fn law_frame_stays_without_a_newer(last: Option<String>, events: Seq<PumpEvent>)
    requires
        forall|j: int| 0 <= j < events.len() ==> frame_of(events[j]) is None,
    ensures
        pumped(last, events) == last,
    decreases events.len(),
{
    if events.len() > 0 {
        let rest = events.drop_last();
        assert(forall|j: int| 0 <= j < rest.len() ==> rest[j] == events[j]);
        law_frame_stays_without_a_newer(last, rest);
        assert(frame_of(events.last()) is None);
    }
}

/// Whether `event` is what can come of `action`.
pub open spec fn pump_answers(action: PumpAction, event: PumpEvent) -> bool {
    match action {
        PumpAction::CheckRunning => event is Running,
        PumpAction::TryReceive => event is Received,
        PumpAction::Drain => event is Drained,
        PumpAction::Wait { .. } => event is Waited,
        PumpAction::RecheckRunning => event is Rechecked,
        PumpAction::Show => event is Shown,
        PumpAction::Sleep { .. } => event is Slept,
        PumpAction::Finish => false,
    }
}

/// Whether `events` are a course of the loop from its beginning: each answers
/// the action that the one before led to.
pub open spec fn pump_course(events: Seq<PumpEvent>) -> bool {
    &&& events.len() > 0 ==> pump_answers(PumpAction::CheckRunning, events[0])
    &&& forall|i: int|
        0 <= i < events.len() - 1 ==> pump_answers(
            pump_next(pumped(None, #[trigger] events.take(i)), events[i]).1,
            events[i + 1],
        )
}

/// The loop never draws before a frame has come, so there always is a frame to
/// draw.
pub proof fn law_nothing_is_drawn_without_a_frame(events: Seq<PumpEvent>)
    requires
        events.len() > 0,
        pump_course(events),
        pump_next(pumped(None, events.drop_last()), events.last()).1 is Show,
    ensures
        pumped(None, events) is Some,
{
    let rest = events.drop_last();
    if events.last() is Drained {
        let i = events.len() - 1;
        if i == 0 {
            assert(pump_answers(PumpAction::CheckRunning, events[0]));
        } else {
            assert(pump_answers(
                pump_next(pumped(None, events.take(i - 1)), events[i - 1]).1,
                events[i],
            ));
            assert(rest.drop_last() == events.take(i - 1));
            assert(rest.last() == events[i - 1]);
            assert(pump_next(pumped(None, events.take(i - 1)), events[i - 1]).1 is Drain);
            assert(pumped(None, rest) is Some);
        }
    }
}

/// The events of a round of the loop in which `frames` are waiting, oldest first,
/// and `end` comes after them.
pub open spec fn busy_round(frames: Seq<String>, end: Received) -> Seq<PumpEvent> {
    Seq::new(
        frames.len() + 2,
        |i: int|
            if i == 0 {
                PumpEvent::Running(true)
            } else if i == 1 && frames.len() > 0 {
                PumpEvent::Received(Received::Frame(frames[0]))
            } else if i <= frames.len() {
                PumpEvent::Drained(Received::Frame(frames[i - 1]))
            } else {
                PumpEvent::Drained(end)
            },
    )
}

/// The action that the event at `i` leads to, when `events` follow the newest
/// frame `last`.
pub open spec fn action_at(last: Option<String>, events: Seq<PumpEvent>, i: int) -> PumpAction {
    pump_next(pumped(last, events.take(i)), events[i]).1
}

/// In a round in which frames are waiting, one frame is drawn, the newest of them,
/// once all of them were taken from the renderer, whether the renderer goes on or
/// is gone. The others are never drawn: none of them is kept.
pub proof fn law_busy_round_draws_newest(
    last: Option<String>,
    frames: Seq<String>,
    end: Received,
)
    requires
        frames.len() > 0,
        !(end is Frame),
    ensures
        forall|i: int|
            0 < i < busy_round(frames, end).len() ==> pump_answers(
                #[trigger] action_at(last, busy_round(frames, end), i - 1),
                busy_round(frames, end)[i],
            ),
        forall|i: int|
            0 <= i < busy_round(frames, end).len() ==> (#[trigger] action_at(
                last,
                busy_round(frames, end),
                i,
            ) is Show <==> i == busy_round(frames, end).len() - 1),
        pumped(last, busy_round(frames, end)) == Some(frames.last()),
{
    let events = busy_round(frames, end);
    let n = frames.len() as int;
    assert(frame_of(events[n]) == Some(frames[n - 1]));
    assert(frame_of(events[n + 1]) is None);
    law_newest_frame_wins(last, events, n);
}

/// The events of a round of the loop in which no frame is waiting and none comes
/// in time.
pub open spec fn idle_round() -> Seq<PumpEvent> {
    seq![
        PumpEvent::Running(true),
        PumpEvent::Received(Received::Empty),
        PumpEvent::Waited(None),
    ]
}

/// In a round in which no frame is waiting, the last frame is drawn again if there
/// is one. If there is none, one is waited for, and if none comes nothing is
/// drawn.
pub proof fn law_idle_round_draws_last(last: Option<String>)
    ensures
        last is Some ==> action_at(last, idle_round(), 1) is Show && pumped(
            last,
            idle_round().take(2),
        ) == last,
        last is None ==> {
            &&& action_at(last, idle_round(), 1) == (PumpAction::Wait { millis: FIRST_FRAME_MILLIS })
            &&& action_at(last, idle_round(), 2) == PumpAction::RecheckRunning
            &&& pumped(last, idle_round()) is None
        },
{
    let events = idle_round();
    law_frame_stays_without_a_newer(last, events);
    law_frame_stays_without_a_newer(last, events.take(1));
    law_frame_stays_without_a_newer(last, events.take(2));
}

/// The loop ends for one of three reasons and for no other: the rendering was
/// stopped, the renderer is gone, or the client is gone.
pub proof fn law_pump_ends(last: Option<String>, event: PumpEvent)
    ensures
        pump_next(last, event).1 is Finish <==> {
            ||| event == PumpEvent::Running(false)
            ||| event == PumpEvent::Rechecked(false)
            ||| event == PumpEvent::Received(Received::Disconnected)
            ||| event == PumpEvent::Shown(false)
        },
{
}

} // verus!
