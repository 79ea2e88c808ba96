//! The order of a session on the local terminal.
//!
//! The terminal is set up, its size is read, four workers run until the one that
//! captures the input ends, and everything is taken down again. The session
//! performs the action that [`session_step`] returns and hands back what came of
//! it. It begins with [`SessionAction::EnterScreen`].

use vstd::prelude::*;

use crate::size::TerminalSize;

verus! {

/// How long the workers get to leave before they are waited for.
pub const GRACE_MILLIS: u64 = 100;

/// How long the workers are waited for after that.
pub const JOIN_LIMIT_MILLIS: u64 = 1000;

/// What came of the last action. `E` is the error of the terminal.
#[derive(Debug, PartialEq, Eq)]
pub enum SessionEvent<E> {
    /// The alternate screen was entered and cleared, and the cursor hidden.
    ScreenEntered(Result<(), E>),
    /// Raw mode was enabled.
    RawModeEnabled(Result<(), E>),
    /// Mouse capture was enabled.
    MouseCaptureEnabled(Result<(), E>),
    /// The panic handler that restores the terminal was installed.
    PanicHandlerInstalled,
    /// The size of the terminal was read, in columns and rows.
    SizeRead(Result<(u16, u16), E>),
    /// The workers are running.
    WorkersSpawned,
    /// The worker that captures the input has ended.
    InputEnded,
    /// The running flag was cleared.
    Stopped,
    /// The terminal was restored.
    TerminalRestored(Result<(), E>),
    /// The grace period is over.
    Paused,
    /// The other workers have ended in time.
    WorkersJoined,
    /// A worker has not ended in time.
    JoinTimedOut,
}

/// What the session does next.
#[derive(Debug, PartialEq, Eq)]
pub enum SessionAction<E> {
    /// Enter the alternate screen, clear it and hide the cursor.
    EnterScreen,
    /// Enable raw mode.
    EnableRawMode,
    /// Enable mouse capture.
    EnableMouseCapture,
    /// Install a panic handler that restores the terminal.
    InstallPanicHandler,
    /// Read the size of the terminal.
    ReadSize,
    /// Start the workers with this size and the running flag up.
    SpawnWorkers(TerminalSize),
    /// Wait for the worker that captures the input.
    AwaitInput,
    /// Clear the running flag.
    Stop,
    /// Restore the terminal.
    RestoreTerminal,
    /// Rest this long.
    Pause { millis: u64 },
    /// Wait for the other workers, at most this long.
    JoinWorkers { limit_millis: u64 },
    /// End the session with this result.
    Finish(Result<(), E>),
}

/// `action` after a step that worked, the end of the session after one that did
/// not.
pub open spec fn if_done<E>(done: Result<(), E>, action: SessionAction<E>) -> SessionAction<E> {
    match done {
        Ok(()) => action,
        Err(e) => SessionAction::Finish(Err(e)),
    }
}

/// The action that follows an event of the session.
pub open spec fn session_next<E>(event: SessionEvent<E>) -> SessionAction<E> {
    match event {
        SessionEvent::ScreenEntered(done) => if_done(done, SessionAction::EnableRawMode),
        SessionEvent::RawModeEnabled(done) => if_done(done, SessionAction::EnableMouseCapture),
        SessionEvent::MouseCaptureEnabled(done) => if_done(
            done,
            SessionAction::InstallPanicHandler,
        ),
        SessionEvent::PanicHandlerInstalled => SessionAction::ReadSize,
        SessionEvent::SizeRead(Ok((cols, rows))) => SessionAction::SpawnWorkers(
            crate::size::size_of_cells(cols, rows),
        ),
        SessionEvent::SizeRead(Err(e)) => SessionAction::Finish(Err(e)),
        SessionEvent::WorkersSpawned => SessionAction::AwaitInput,
        SessionEvent::InputEnded => SessionAction::Stop,
        SessionEvent::Stopped => SessionAction::RestoreTerminal,
        SessionEvent::TerminalRestored(done) => if_done(
            done,
            SessionAction::Pause { millis: GRACE_MILLIS },
        ),
        SessionEvent::Paused => SessionAction::JoinWorkers { limit_millis: JOIN_LIMIT_MILLIS },
        SessionEvent::WorkersJoined => SessionAction::Finish(Ok(())),
        SessionEvent::JoinTimedOut => SessionAction::Finish(Ok(())),
    }
}

/// The executable form of [`if_done`].
fn go_on<E>(done: Result<(), E>, action: SessionAction<E>) -> (next: SessionAction<E>)
    ensures
        next == if_done(done, action),
{
    match done {
        Ok(()) => action,
        Err(e) => SessionAction::Finish(Err(e)),
    }
}

/// Decides what the session does after `event`.
pub fn session_step<E>(event: SessionEvent<E>) -> (action: SessionAction<E>)
    ensures
        action == session_next(event),
{
    match event {
        SessionEvent::ScreenEntered(done) => go_on(done, SessionAction::EnableRawMode),
        SessionEvent::RawModeEnabled(done) => go_on(done, SessionAction::EnableMouseCapture),
        SessionEvent::MouseCaptureEnabled(done) => go_on(done, SessionAction::InstallPanicHandler),
        SessionEvent::PanicHandlerInstalled => SessionAction::ReadSize,
        SessionEvent::SizeRead(read) => match read {
            Ok((cols, rows)) => SessionAction::SpawnWorkers(TerminalSize::from_cells(cols, rows)),
            Err(e) => SessionAction::Finish(Err(e)),
        },
        SessionEvent::WorkersSpawned => SessionAction::AwaitInput,
        SessionEvent::InputEnded => SessionAction::Stop,
        SessionEvent::Stopped => SessionAction::RestoreTerminal,
        SessionEvent::TerminalRestored(done) => go_on(
            done,
            SessionAction::Pause { millis: GRACE_MILLIS },
        ),
        SessionEvent::Paused => SessionAction::JoinWorkers { limit_millis: JOIN_LIMIT_MILLIS },
        SessionEvent::WorkersJoined => SessionAction::Finish(Ok(())),
        SessionEvent::JoinTimedOut => SessionAction::Finish(Ok(())),
    }
}

/// Whether `event` is what can come of `action`.
pub open spec fn session_answers<E>(action: SessionAction<E>, event: SessionEvent<E>) -> bool {
    match action {
        SessionAction::EnterScreen => event is ScreenEntered,
        SessionAction::EnableRawMode => event is RawModeEnabled,
        SessionAction::EnableMouseCapture => event is MouseCaptureEnabled,
        SessionAction::InstallPanicHandler => event is PanicHandlerInstalled,
        SessionAction::ReadSize => event is SizeRead,
        SessionAction::SpawnWorkers(_) => event is WorkersSpawned,
        SessionAction::AwaitInput => event is InputEnded,
        SessionAction::Stop => event is Stopped,
        SessionAction::RestoreTerminal => event is TerminalRestored,
        SessionAction::Pause { .. } => event is Paused,
        SessionAction::JoinWorkers { .. } => event is WorkersJoined || event is JoinTimedOut,
        SessionAction::Finish(_) => false,
    }
}

/// Whether `events` are a course of the session from its beginning: each answers
/// the action that the one before led to.
pub open spec fn session_course<E>(events: Seq<SessionEvent<E>>) -> bool {
    &&& events.len() > 0 ==> session_answers(SessionAction::EnterScreen, events[0])
    &&& forall|i: int|
        0 < i < events.len() ==> session_answers(
            session_next(events[i - 1]),
            #[trigger] events[i],
        )
}

/// The error that an event reports, if it reports one.
pub open spec fn error_of<E>(event: SessionEvent<E>) -> Option<E> {
    match event {
        SessionEvent::ScreenEntered(Err(e)) => Some(e),
        SessionEvent::RawModeEnabled(Err(e)) => Some(e),
        SessionEvent::MouseCaptureEnabled(Err(e)) => Some(e),
        SessionEvent::SizeRead(Err(e)) => Some(e),
        SessionEvent::TerminalRestored(Err(e)) => Some(e),
        _ => None,
    }
}

/// The place of an event in the order of the session.
pub open spec fn place<E>(event: SessionEvent<E>) -> int {
    match event {
        SessionEvent::ScreenEntered(_) => 0,
        SessionEvent::RawModeEnabled(_) => 1,
        SessionEvent::MouseCaptureEnabled(_) => 2,
        SessionEvent::PanicHandlerInstalled => 3,
        SessionEvent::SizeRead(_) => 4,
        SessionEvent::WorkersSpawned => 5,
        SessionEvent::InputEnded => 6,
        SessionEvent::Stopped => 7,
        SessionEvent::TerminalRestored(_) => 8,
        SessionEvent::Paused => 9,
        SessionEvent::WorkersJoined => 10,
        SessionEvent::JoinTimedOut => 10,
    }
}

/// Every course of the session goes through its steps in their order, without
/// leaving one out.
pub proof fn law_session_keeps_its_order<E>(events: Seq<SessionEvent<E>>, i: int)
    requires
        session_course(events),
        0 <= i < events.len(),
    ensures
        place(events[i]) == i,
    decreases i,
{
    if i > 0 {
        law_session_keeps_its_order(events, i - 1);
        assert(session_answers(session_next(events[i - 1]), events[i]));
    }
}

/// A session ends with the error of its last step, or without error after its
/// last step. An error before the end is never passed over.
pub proof fn law_session_ends_at_first_error<E>(events: Seq<SessionEvent<E>>)
    requires
        events.len() > 0,
        session_course(events),
    ensures
        forall|i: int|
            0 <= i < events.len() - 1 ==> error_of(#[trigger] events[i]) is None,
        error_of(events.last()) matches Some(e) ==> session_next(events.last())
            == SessionAction::<E>::Finish(Err(e)),
        session_next(events.last()) == SessionAction::<E>::Finish(Ok(())) <==> events.len() == 11,
{
    law_session_keeps_its_order(events, events.len() - 1);
    assert forall|i: int| 0 <= i < events.len() - 1 implies error_of(#[trigger] events[i]) is None by {
        assert(session_answers(session_next(events[i]), events[i + 1]));
    }
}

/// Once the workers run, the session does not end before the input has ended,
/// the running flag was cleared and the terminal was restored, in this order.
pub proof fn law_started_session_restores_terminal<E>(events: Seq<SessionEvent<E>>, i: int)
    requires
        session_course(events),
        0 <= i < events.len(),
        session_next(events[i]) is SpawnWorkers,
        session_next(events.last()) is Finish,
    ensures
        i == 4,
        events.len() >= 9,
        events[6] is InputEnded,
        session_next(events[6]) is Stop,
        session_next(events[7]) is RestoreTerminal,
        events[8] is TerminalRestored,
{
    law_session_keeps_its_order(events, i);
    law_session_keeps_its_order(events, events.len() - 1);
    if events.len() > 6 {
        law_session_keeps_its_order(events, 6);
    }
    if events.len() > 7 {
        law_session_keeps_its_order(events, 7);
    }
    if events.len() > 8 {
        law_session_keeps_its_order(events, 8);
    }
}

/// The session waits without a limit for the input alone: the pause and the wait
/// for the other workers are bounded.
pub proof fn law_closing_waits_are_bounded<E>(event: SessionEvent<E>)
    ensures
        session_next(event) is Pause ==> session_next(event) == (SessionAction::<E>::Pause {
            millis: GRACE_MILLIS,
        }),
        session_next(event) is JoinWorkers ==> session_next(event)
            == (SessionAction::<E>::JoinWorkers { limit_millis: JOIN_LIMIT_MILLIS }),
{
}

/// A worker that does not end in time does not keep the session from ending, and
/// from ending without error.
pub proof fn law_session_ends_without_its_workers<E>(events: Seq<SessionEvent<E>>)
    requires
        session_course(events),
        events.len() > 0,
        events.last() is JoinTimedOut,
    ensures
        session_next(events.last()) == SessionAction::<E>::Finish(Ok(())),
        events.len() == 11,
{
    law_session_keeps_its_order(events, events.len() - 1);
}

} // verus!
