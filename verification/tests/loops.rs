use minecraft_terminal_viewer::frames::{FramePump, PumpAction, PumpEvent, Received};
use minecraft_terminal_viewer::interactive::{session_step, SessionAction, SessionEvent};
use minecraft_terminal_viewer::mode::{
    current_mode, is_interactive, select_mode, server_exit, Mode,
};
use minecraft_terminal_viewer::rendering::{render_step, RenderAction, RenderEvent};
use minecraft_terminal_viewer::size::TerminalSize;

fn frame(text: &str) -> Received {
    Received::Frame(text.to_string())
}

#[test]
fn newest_waiting_frame_is_shown() {
    let mut pump = FramePump::new();
    assert_eq!(pump.step(PumpEvent::Running(true)), PumpAction::TryReceive);
    assert_eq!(pump.step(PumpEvent::Received(frame("one"))), PumpAction::Drain);
    assert_eq!(pump.step(PumpEvent::Drained(frame("two"))), PumpAction::Drain);
    assert_eq!(pump.step(PumpEvent::Drained(frame("three"))), PumpAction::Drain);
    assert_eq!(pump.step(PumpEvent::Drained(Received::Empty)), PumpAction::Show);
    assert_eq!(pump.last_frame, Some("three".to_string()));
    assert_eq!(pump.step(PumpEvent::Shown(true)), PumpAction::Sleep { millis: 16 });
    assert_eq!(pump.step(PumpEvent::Slept), PumpAction::CheckRunning);
}

#[test]
fn frame_of_a_gone_renderer_is_shown_once_more() {
    let mut pump = FramePump::new();
    assert_eq!(pump.step(PumpEvent::Received(frame("last"))), PumpAction::Drain);
    assert_eq!(pump.step(PumpEvent::Drained(Received::Disconnected)), PumpAction::Show);
    assert_eq!(pump.last_frame, Some("last".to_string()));
    assert_eq!(pump.step(PumpEvent::Received(Received::Disconnected)), PumpAction::Finish);
}

#[test]
fn newest_frame_of_a_gone_renderer_is_shown() {
    let mut pump = FramePump { last_frame: Some("old".to_string()) };
    assert_eq!(pump.step(PumpEvent::Running(true)), PumpAction::TryReceive);
    assert_eq!(pump.step(PumpEvent::Received(frame("one"))), PumpAction::Drain);
    assert_eq!(pump.step(PumpEvent::Drained(frame("two"))), PumpAction::Drain);
    assert_eq!(pump.step(PumpEvent::Drained(Received::Disconnected)), PumpAction::Show);
    assert_eq!(pump.last_frame, Some("two".to_string()));
}

#[test]
fn last_frame_is_shown_again() {
    let mut pump = FramePump::new();
    pump.step(PumpEvent::Received(frame("still")));
    assert_eq!(pump.step(PumpEvent::Received(Received::Empty)), PumpAction::Show);
    assert_eq!(pump.last_frame, Some("still".to_string()));
}

#[test]
fn first_frame_is_waited_for() {
    let mut pump = FramePump::new();
    assert_eq!(
        pump.step(PumpEvent::Received(Received::Empty)),
        PumpAction::Wait { millis: 100 }
    );
    assert_eq!(pump.step(PumpEvent::Waited(None)), PumpAction::RecheckRunning);
    assert_eq!(pump.step(PumpEvent::Rechecked(true)), PumpAction::CheckRunning);
    assert_eq!(pump.last_frame, None);
    assert_eq!(pump.step(PumpEvent::Waited(Some("first".to_string()))), PumpAction::Show);
    assert_eq!(pump.last_frame, Some("first".to_string()));
}

#[test]
fn pump_ends_when_stopped_or_alone() {
    let mut pump = FramePump::new();
    assert_eq!(pump.step(PumpEvent::Running(false)), PumpAction::Finish);
    assert_eq!(pump.step(PumpEvent::Rechecked(false)), PumpAction::Finish);
    assert_eq!(pump.step(PumpEvent::Shown(false)), PumpAction::Finish);
}

#[test]
fn rendering_is_watched_and_stopped() {
    let size = TerminalSize::from_cells(80, 24);
    assert_eq!(render_step(RenderEvent::LookedUp(None)), RenderAction::Finish);
    let mut actions = Vec::new();
    for event in [
        RenderEvent::LookedUp(Some(size)),
        RenderEvent::Spawned,
        RenderEvent::Slept,
        RenderEvent::Checked(true),
        RenderEvent::Slept,
        RenderEvent::Checked(false),
        RenderEvent::Stopped,
        RenderEvent::Joined,
    ] {
        actions.push(render_step(event));
    }
    assert_eq!(
        actions,
        vec![
            RenderAction::Spawn(size),
            RenderAction::Sleep { millis: 500 },
            RenderAction::CheckClient,
            RenderAction::Sleep { millis: 500 },
            RenderAction::CheckClient,
            RenderAction::Stop,
            RenderAction::Join,
            RenderAction::Finish,
        ]
    );
}

#[test]
fn session_goes_through_its_steps() {
    let events: Vec<SessionEvent<String>> = vec![
        SessionEvent::ScreenEntered(Ok(())),
        SessionEvent::RawModeEnabled(Ok(())),
        SessionEvent::MouseCaptureEnabled(Ok(())),
        SessionEvent::PanicHandlerInstalled,
        SessionEvent::SizeRead(Ok((80, 24))),
        SessionEvent::WorkersSpawned,
        SessionEvent::InputEnded,
        SessionEvent::Stopped,
        SessionEvent::TerminalRestored(Ok(())),
        SessionEvent::Paused,
        SessionEvent::WorkersJoined,
    ];
    let mut actions = Vec::new();
    for event in events {
        actions.push(session_step(event));
    }
    let size = TerminalSize { width: 80, height: 24, target_width: 80, target_height: 46 };
    assert_eq!(
        actions,
        vec![
            SessionAction::EnableRawMode,
            SessionAction::EnableMouseCapture,
            SessionAction::InstallPanicHandler,
            SessionAction::ReadSize,
            SessionAction::SpawnWorkers(size),
            SessionAction::AwaitInput,
            SessionAction::Stop,
            SessionAction::RestoreTerminal,
            SessionAction::Pause { millis: 100 },
            SessionAction::JoinWorkers { limit_millis: 1000 },
            SessionAction::Finish(Ok(())),
        ]
    );
}

#[test]
fn session_ends_though_a_worker_does_not() {
    let timed_out: SessionEvent<String> = SessionEvent::JoinTimedOut;
    assert_eq!(session_step(timed_out), SessionAction::Finish(Ok(())));
}

#[test]
fn session_ends_at_an_error() {
    let failures: Vec<SessionEvent<u8>> = vec![
        SessionEvent::ScreenEntered(Err(1)),
        SessionEvent::RawModeEnabled(Err(2)),
        SessionEvent::MouseCaptureEnabled(Err(3)),
        SessionEvent::SizeRead(Err(4)),
        SessionEvent::TerminalRestored(Err(5)),
    ];
    let mut wanted: u8 = 1;
    for failure in failures {
        assert_eq!(session_step(failure), SessionAction::Finish(Err(wanted)));
        wanted += 1;
    }
}

#[test]
fn mode_follows_the_standard_output() {
    assert_eq!(select_mode(true), Mode::Interactive);
    assert_eq!(select_mode(false), Mode::Server);
    assert_eq!(current_mode(), select_mode(is_interactive()));
}

#[test]
fn server_failure_is_reported() {
    assert_eq!(server_exit(Ok(())), Ok(()));
    let failure = server_exit(Err("address in use".to_string())).unwrap_err();
    assert_eq!(failure.report, "SSH server error: address in use");
    assert_eq!(failure.message, "SSH server error");
}
