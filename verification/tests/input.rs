use minecraft_terminal_viewer::capture::{capture_step, CaptureAction, CaptureEvent};
use minecraft_terminal_viewer::event::{
    Event, InputEvent, KeyCode, KeyEvent, KeyEventKind, MouseButton, MouseEvent, MouseEventKind,
};
use minecraft_terminal_viewer::size::TerminalSize;

fn key(code: KeyCode, modifiers: u8) -> KeyEvent {
    KeyEvent { code, modifiers, kind: KeyEventKind::Press, state: 0 }
}

fn read(event: Event) -> CaptureAction<String> {
    capture_step(CaptureEvent::Read(Ok(event)))
}

#[test]
fn control_bit_is_the_one_of_crossterm() {
    assert_eq!(crossterm::event::KeyModifiers::CONTROL.bits(), 2);
    for modifiers in 0..=255u8 {
        let held = key(KeyCode::Char('c'), modifiers).is_exit_command();
        assert_eq!(held, modifiers & 2 == 2);
    }
}

#[test]
fn exit_command_stops() {
    assert_eq!(read(Event::Key(key(KeyCode::Char('c'), 0b0000_0010))), CaptureAction::Stop);
    assert_eq!(read(Event::Key(key(KeyCode::Char('c'), 0b0000_0111))), CaptureAction::Stop);
    let stopped: CaptureAction<String> = capture_step(CaptureEvent::Stopped);
    assert_eq!(stopped, CaptureAction::Finish(Ok(())));
}

#[test]
fn other_keys_are_forwarded_unchanged() {
    for k in [
        key(KeyCode::Char('c'), 0),
        key(KeyCode::Char('c'), 0b0000_0101),
        key(KeyCode::Char('C'), 0b0000_0010),
        key(KeyCode::Char('d'), 0b0000_0010),
        key(KeyCode::F(5), 0b0000_0010),
        KeyEvent { code: KeyCode::Esc, modifiers: 4, kind: KeyEventKind::Release, state: 2 },
    ] {
        assert_eq!(read(Event::Key(k)), CaptureAction::Forward(InputEvent::Key(k)));
    }
}

#[test]
fn mouse_is_forwarded_unchanged() {
    let mouse = MouseEvent {
        kind: MouseEventKind::Drag(MouseButton::Right),
        column: 7,
        row: 9,
        modifiers: 2,
    };
    assert_eq!(read(Event::Mouse(mouse)), CaptureAction::Forward(InputEvent::Mouse(mouse)));
}

#[test]
fn resize_gives_the_new_size() {
    assert_eq!(
        read(Event::Resize(100, 30)),
        CaptureAction::StoreSize(TerminalSize {
            width: 100,
            height: 30,
            target_width: 100,
            target_height: 56,
        })
    );
    let stored: CaptureAction<String> = capture_step(CaptureEvent::SizeStored);
    assert_eq!(stored, CaptureAction::AnnounceSize);
}

#[test]
fn last_resize_counts() {
    let mut sizes = Vec::new();
    for event in [Event::Resize(10, 1), Event::FocusLost, Event::Resize(20, 2)] {
        if let CaptureAction::StoreSize(size) = read(event) {
            sizes.push(size);
        }
    }
    assert_eq!(
        sizes,
        vec![TerminalSize::from_cells(10, 1), TerminalSize::from_cells(20, 2)]
    );
}

#[test]
fn other_events_are_ignored() {
    assert_eq!(read(Event::FocusGained), CaptureAction::CheckRunning);
    assert_eq!(read(Event::FocusLost), CaptureAction::CheckRunning);
    assert_eq!(read(Event::Paste("c".to_string())), CaptureAction::CheckRunning);
}

#[test]
fn loop_polls_while_running() {
    let step = |event: CaptureEvent<String>| capture_step(event);
    assert_eq!(step(CaptureEvent::Running(true)), CaptureAction::Poll { millis: 100 });
    assert_eq!(step(CaptureEvent::Running(false)), CaptureAction::Finish(Ok(())));
    assert_eq!(step(CaptureEvent::Polled(Ok(true))), CaptureAction::Read);
    assert_eq!(step(CaptureEvent::Polled(Ok(false))), CaptureAction::CheckRunning);
    assert_eq!(step(CaptureEvent::Handled), CaptureAction::CheckRunning);
}

#[test]
fn terminal_errors_end_the_loop() {
    assert_eq!(
        capture_step(CaptureEvent::Polled(Err("poll"))),
        CaptureAction::Finish(Err("poll"))
    );
    assert_eq!(
        capture_step(CaptureEvent::Read(Err("read"))),
        CaptureAction::Finish(Err("read"))
    );
}

#[test]
fn input_keeps_its_order_up_to_the_exit_command() {
    let events = vec![
        Event::Key(key(KeyCode::Char('w'), 0)),
        Event::FocusLost,
        Event::Key(key(KeyCode::Char('a'), 1)),
        Event::Resize(80, 24),
        Event::Key(key(KeyCode::Char('c'), 2)),
        Event::Key(key(KeyCode::Char('s'), 0)),
    ];
    let mut forwarded = Vec::new();
    for event in events {
        match read(event) {
            CaptureAction::Stop => break,
            CaptureAction::Forward(input) => forwarded.push(input),
            _ => {}
        }
    }
    assert_eq!(
        forwarded,
        vec![
            InputEvent::Key(key(KeyCode::Char('w'), 0)),
            InputEvent::Key(key(KeyCode::Char('a'), 1)),
        ]
    );
}

#[test]
fn course_forwards_and_stores_up_to_the_exit_command() {
    let mut waiting = vec![
        Event::Key(key(KeyCode::Char('w'), 0)),
        Event::Resize(80, 24),
        Event::FocusLost,
        Event::Key(key(KeyCode::Char('a'), 1)),
        Event::Resize(100, 30),
        Event::Key(key(KeyCode::Char('c'), 2)),
        Event::Key(key(KeyCode::Char('s'), 0)),
        Event::Resize(10, 10),
    ];
    waiting.reverse();
    let mut forwarded = Vec::new();
    let mut stored = Vec::new();
    let mut announced = 0;
    let mut action: CaptureAction<String> = CaptureAction::CheckRunning;
    let result = loop {
        let event = match action {
            CaptureAction::CheckRunning => CaptureEvent::Running(true),
            CaptureAction::Poll { .. } => CaptureEvent::Polled(Ok(true)),
            CaptureAction::Read => CaptureEvent::Read(Ok(waiting.pop().unwrap())),
            CaptureAction::Stop => CaptureEvent::Stopped,
            CaptureAction::Forward(input) => {
                forwarded.push(input);
                CaptureEvent::Handled
            }
            CaptureAction::StoreSize(size) => {
                stored.push((size.width, size.height));
                CaptureEvent::SizeStored
            }
            CaptureAction::AnnounceSize => {
                announced += 1;
                assert_eq!(announced, stored.len());
                CaptureEvent::Handled
            }
            CaptureAction::Finish(result) => break result,
        };
        action = capture_step(event);
    };
    assert_eq!(result, Ok(()));
    assert_eq!(waiting.len(), 2);
    assert_eq!(
        forwarded,
        vec![
            InputEvent::Key(key(KeyCode::Char('w'), 0)),
            InputEvent::Key(key(KeyCode::Char('a'), 1)),
        ]
    );
    assert_eq!(stored, vec![(80, 24), (100, 30)]);
    assert_eq!(announced, 2);
}
