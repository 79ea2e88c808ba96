//! What comes of the steps of a session on the local terminal.

use vstd::prelude::*;

use crate::interactive::{
    law_session_keeps_its_order, session_answers, session_course, session_next, session_step,
    SessionAction, SessionEvent,
};
use crate::mode::{
    current_mode, is_interactive, select_mode, server_exit, Mode, ServerFailure,
};

verus! {

/// The workers are started with the size that was read: its columns and rows, and
/// the picture that belongs to its columns, whose height is the least even number
/// not below nine sixteenths of them, rounded down. Without a size the session
/// ends with the error.
pub proof fn law_workers_start_with_the_size_read<E>(
    read: Result<(u16, u16), E>,
    action: SessionAction<E>,
)
    requires
        call_ensures(session_step::<E>, (SessionEvent::<E>::SizeRead(read),), action),
    ensures
        read matches Ok((cols, rows)) ==> {
            &&& action is SpawnWorkers
            &&& action->SpawnWorkers_0.width == cols
            &&& action->SpawnWorkers_0.height == rows
            &&& action->SpawnWorkers_0.target_width == cols
            &&& action->SpawnWorkers_0.target_height % 2 == 0
            &&& cols as int * 9 / 16 <= action->SpawnWorkers_0.target_height <= cols as int * 9 / 16
                + 1
        },
        read matches Err(e) ==> action == SessionAction::<E>::Finish(Err(e)),
{
}

/// The terminal is set up in this order: the screen, raw mode, the mouse, the
/// handler for panics, and then its size is read.
pub proof fn law_setting_up_keeps_its_order<E>(
    entered: SessionAction<E>,
    raw: SessionAction<E>,
    mouse: SessionAction<E>,
    handler: SessionAction<E>,
)
    requires
        call_ensures(session_step::<E>, (SessionEvent::<E>::ScreenEntered(Ok(())),), entered),
        call_ensures(session_step::<E>, (SessionEvent::<E>::RawModeEnabled(Ok(())),), raw),
        call_ensures(session_step::<E>, (SessionEvent::<E>::MouseCaptureEnabled(Ok(())),), mouse),
        call_ensures(session_step::<E>, (SessionEvent::<E>::PanicHandlerInstalled,), handler),
    ensures
        entered == SessionAction::<E>::EnableRawMode,
        raw == SessionAction::<E>::EnableMouseCapture,
        mouse == SessionAction::<E>::InstallPanicHandler,
        handler == SessionAction::<E>::ReadSize,
{
}

/// The workers run until the input ends. The flag is cleared then, the terminal is
/// restored, and the workers get a tenth of a second to leave.
pub proof fn law_taking_down_keeps_its_order<E>(
    spawned: SessionAction<E>,
    ended: SessionAction<E>,
    stopped: SessionAction<E>,
    restored: SessionAction<E>,
)
    requires
        call_ensures(session_step::<E>, (SessionEvent::<E>::WorkersSpawned,), spawned),
        call_ensures(session_step::<E>, (SessionEvent::<E>::InputEnded,), ended),
        call_ensures(session_step::<E>, (SessionEvent::<E>::Stopped,), stopped),
        call_ensures(session_step::<E>, (SessionEvent::<E>::TerminalRestored(Ok(())),), restored),
    ensures
        spawned == SessionAction::<E>::AwaitInput,
        ended == SessionAction::<E>::Stop,
        stopped == SessionAction::<E>::RestoreTerminal,
        restored == (SessionAction::<E>::Pause { millis: 100 }),
{
}

/// The workers are waited for for a second at most. The session ends without error
/// whether they have ended or not.
pub proof fn law_session_ends_in_time<E>(
    paused: SessionAction<E>,
    joined: SessionAction<E>,
    late: SessionAction<E>,
)
    requires
        call_ensures(session_step::<E>, (SessionEvent::<E>::Paused,), paused),
        call_ensures(session_step::<E>, (SessionEvent::<E>::WorkersJoined,), joined),
        call_ensures(session_step::<E>, (SessionEvent::<E>::JoinTimedOut,), late),
    ensures
        paused == (SessionAction::<E>::JoinWorkers { limit_millis: 1000 }),
        joined == SessionAction::<E>::Finish(Ok(())),
        late == SessionAction::<E>::Finish(Ok(())),
{
}

/// A step that fails ends the session with its error.
pub proof fn law_session_failure_is_returned<E>(
    e: E,
    entered: SessionAction<E>,
    raw: SessionAction<E>,
    mouse: SessionAction<E>,
    restored: SessionAction<E>,
)
    requires
        call_ensures(session_step::<E>, (SessionEvent::<E>::ScreenEntered(Err(e)),), entered),
        call_ensures(session_step::<E>, (SessionEvent::<E>::RawModeEnabled(Err(e)),), raw),
        call_ensures(session_step::<E>, (SessionEvent::<E>::MouseCaptureEnabled(Err(e)),), mouse),
        call_ensures(session_step::<E>, (SessionEvent::<E>::TerminalRestored(Err(e)),), restored),
    ensures
        entered == SessionAction::<E>::Finish(Err(e)),
        raw == SessionAction::<E>::Finish(Err(e)),
        mouse == SessionAction::<E>::Finish(Err(e)),
        restored == SessionAction::<E>::Finish(Err(e)),
{
}

/// The steps of a session come in this order and no other, and each that another
/// follows has worked.
pub proof fn law_session_steps<E>(events: Seq<SessionEvent<E>>, i: int)
    requires
        session_course(events),
        0 <= i < events.len(),
    ensures
        i <= 10,
        events[i] is ScreenEntered <==> i == 0,
        events[i] is RawModeEnabled <==> i == 1,
        events[i] is MouseCaptureEnabled <==> i == 2,
        events[i] is PanicHandlerInstalled <==> i == 3,
        events[i] is SizeRead <==> i == 4,
        events[i] is WorkersSpawned <==> i == 5,
        events[i] is InputEnded <==> i == 6,
        events[i] is Stopped <==> i == 7,
        events[i] is TerminalRestored <==> i == 8,
        events[i] is Paused <==> i == 9,
        events[i] is WorkersJoined || events[i] is JoinTimedOut <==> i == 10,
        i < events.len() - 1 ==> {
            &&& i == 0 ==> events[i]->ScreenEntered_0 is Ok
            &&& i == 1 ==> events[i]->RawModeEnabled_0 is Ok
            &&& i == 2 ==> events[i]->MouseCaptureEnabled_0 is Ok
            &&& i == 4 ==> events[i]->SizeRead_0 is Ok
            &&& i == 8 ==> events[i]->TerminalRestored_0 is Ok
        },
{
    law_session_keeps_its_order(events, i);
    if i < events.len() - 1 {
        assert(session_answers(session_next(events[i]), events[i + 1]));
    }
}

/// In every course, the workers are started once at most, with the columns and the
/// rows that were read right before and the picture that belongs to the columns.
pub proof fn law_course_starts_workers_with_the_size_read<E>(
    events: Seq<SessionEvent<E>>,
    i: int,
)
    requires
        session_course(events),
        0 <= i < events.len(),
        session_next(events[i]) is SpawnWorkers,
    ensures
        i == 4,
        events[i] is SizeRead && events[i]->SizeRead_0 is Ok,
        ({
            let (cols, rows) = events[i]->SizeRead_0->Ok_0;
            let size = session_next(events[i])->SpawnWorkers_0;
            &&& size.width == cols
            &&& size.height == rows
            &&& size.target_width == cols
            &&& size.target_height % 2 == 0
            &&& cols as int * 9 / 16 <= size.target_height <= cols as int * 9 / 16 + 1
        }),
{
    law_session_keeps_its_order(events, i);
}

/// The program is the viewer exactly where its standard output is a terminal, and
/// the server exactly where it is not.
pub proof fn law_mode_follows_the_terminal(interactive: bool, mode: Mode)
    requires
        call_ensures(select_mode, (interactive,), mode),
    ensures
        mode is Interactive <==> interactive,
        mode is Server <==> !interactive,
{
}

/// The mode of the program is the one for what it found its standard output to be.
pub proof fn law_current_mode(mode: Mode)
    requires
        call_ensures(current_mode, (), mode),
    ensures
        exists|interactive: bool| #[trigger]
            call_ensures(is_interactive, (), interactive) && (mode is Interactive <==> interactive),
{
}

/// The program ends without error exactly if the server did. An error is reported
/// with its text.
pub proof fn law_server_failure_is_reported(
    result: Result<(), String>,
    exit: Result<(), ServerFailure>,
)
    requires
        call_ensures(server_exit, (result,), exit),
    ensures
        exit is Ok <==> result is Ok,
        exit is Err ==> exit->Err_0.report@ == "SSH server error: "@ + result->Err_0@
            && exit->Err_0.message@ == "SSH server error"@,
{
}

} // verus!
