use minecraft_terminal_viewer::clients::Clients;
use minecraft_terminal_viewer::handle::{
    feed_step, FeedAction, FeedEvent, HandleError, TerminalHandle,
};
use minecraft_terminal_viewer::size::Area;
use minecraft_terminal_viewer::terminal::SshTerminal;
use tokio::sync::mpsc::UnboundedReceiver;

fn chunks(receiver: &mut UnboundedReceiver<Vec<u8>>) -> Vec<Vec<u8>> {
    let mut all = Vec::new();
    while let Ok(chunk) = receiver.try_recv() {
        all.push(chunk);
    }
    all
}

#[test]
fn flush_sends_what_was_written_as_one_chunk() {
    let (mut handle, mut receiver) = TerminalHandle::start(&Clients::new());
    assert_eq!(handle.write(b"mine"), 4);
    assert_eq!(handle.write(b""), 0);
    assert_eq!(handle.write(b"craft"), 5);
    assert_eq!(handle.pending(), b"minecraft".to_vec());
    assert!(chunks(&mut receiver).is_empty());
    assert_eq!(handle.flush(), Ok(()));
    assert!(handle.pending().is_empty());
    assert_eq!(chunks(&mut receiver), vec![b"minecraft".to_vec()]);
}

#[test]
fn flush_of_nothing_sends_an_empty_chunk() {
    let (mut handle, mut receiver) = TerminalHandle::start(&Clients::new());
    assert_eq!(handle.flush(), Ok(()));
    assert_eq!(chunks(&mut receiver), vec![Vec::<u8>::new()]);
}

#[test]
fn refused_chunk_stays_collected() {
    let (mut handle, receiver) = TerminalHandle::start(&Clients::new());
    drop(receiver);
    handle.write(b"ab");
    assert_eq!(handle.flush(), Err(HandleError::BrokenPipe));
    handle.write(b"cd");
    assert_eq!(handle.flush(), Err(HandleError::BrokenPipe));
    assert_eq!(handle.pending(), b"abcd".to_vec());
}

#[test]
fn settling_decides_what_stays() {
    let (mut handle, mut receiver) = TerminalHandle::start(&Clients::new());
    handle.write(b"x");
    assert_eq!(handle.settle(false), Err(HandleError::BrokenPipe));
    assert_eq!(handle.pending(), b"x".to_vec());
    assert_eq!(handle.settle(true), Ok(()));
    assert!(handle.pending().is_empty());
    assert!(chunks(&mut receiver).is_empty());
}

#[test]
fn stream_is_what_was_written() {
    let (mut handle, mut receiver) = TerminalHandle::start(&Clients::new());
    let mut written = Vec::new();
    for i in 0..20u8 {
        let piece = vec![i; (i % 4) as usize];
        handle.write(&piece);
        written.extend(piece);
        if i % 3 == 0 {
            handle.flush().unwrap();
        }
    }
    let mut stream = chunks(&mut receiver).concat();
    stream.extend(handle.pending());
    assert_eq!(stream, written);
}

#[test]
fn resize_clears_row_by_row() {
    let (handle, mut receiver) = TerminalHandle::start(&Clients::new());
    let mut terminal = SshTerminal::new(handle);
    assert!(chunks(&mut receiver).is_empty());
    let area = Area { x: 0, y: 0, width: 20, height: 12 };
    assert_eq!(terminal.resize(area), Ok(()));
    let mut wanted = Vec::new();
    for row in 1..=12 {
        wanted.push(format!("\x1b[{};1H", row).into_bytes());
        wanted.push(b"\x1b[J".to_vec());
    }
    assert_eq!(chunks(&mut receiver), wanted);
}

#[test]
fn resize_output_does_not_depend_on_the_width() {
    for (width, height) in [(0u16, 3u16), (1, 3), (300, 3), (3, 1001), (5, 65535)] {
        let (handle, mut receiver) = TerminalHandle::start(&Clients::new());
        let mut terminal = SshTerminal::new(handle);
        assert_eq!(terminal.resize(Area { x: 0, y: 0, width, height }), Ok(()));
        let sent = chunks(&mut receiver);
        assert_eq!(sent.len(), 2 * height as usize);
        assert_eq!(sent[sent.len() - 2], format!("\x1b[{};1H", height).into_bytes());
        assert_eq!(sent[sent.len() - 1], b"\x1b[J".to_vec());
    }
}

#[test]
fn resize_clears_from_the_top_of_the_viewport() {
    let (handle, mut receiver) = TerminalHandle::start(&Clients::new());
    let mut terminal = SshTerminal::new(handle);
    assert_eq!(terminal.resize(Area { x: 4, y: 9, width: 3, height: 2 }), Ok(()));
    assert_eq!(
        chunks(&mut receiver).concat(),
        b"\x1b[10;1H\x1b[J\x1b[11;1H\x1b[J".to_vec()
    );
    assert_eq!(terminal.resize(Area { x: 0, y: 65534, width: 1, height: 9 }), Ok(()));
    assert_eq!(chunks(&mut receiver).concat(), b"\x1b[65535;1H\x1b[J".to_vec());
}

#[test]
fn resize_to_no_rows_sends_nothing() {
    let (handle, mut receiver) = TerminalHandle::start(&Clients::new());
    let mut terminal = SshTerminal::new(handle);
    assert_eq!(terminal.resize(Area { x: 0, y: 0, width: 80, height: 0 }), Ok(()));
    assert!(chunks(&mut receiver).is_empty());
}

#[test]
fn resize_fails_when_the_channel_is_gone() {
    let (handle, receiver) = TerminalHandle::start(&Clients::new());
    drop(receiver);
    let mut terminal = SshTerminal::new(handle);
    let area = Area { x: 0, y: 0, width: 80, height: 2 };
    assert_eq!(terminal.resize(area), Err(HandleError::BrokenPipe));
    assert_eq!(terminal.resize(Area { height: 0, ..area }), Ok(()));
}

#[test]
fn frames_are_drawn_as_they_are() {
    let (handle, mut receiver) = TerminalHandle::start(&Clients::new());
    let mut terminal = SshTerminal::new(handle);
    terminal.show("\x1b[H\u{2580}");
    terminal.show("");
    assert_eq!(chunks(&mut receiver), vec![b"\x1b[H\xe2\x96\x80".to_vec(), Vec::new()]);
}

#[test]
fn handles_have_channels_of_their_own() {
    let (mut first, mut a) = TerminalHandle::start(&Clients::new());
    let (mut second, mut b) = TerminalHandle::start(&Clients::new());
    first.write(b"one");
    second.write(b"two");
    first.flush().unwrap();
    assert_eq!(chunks(&mut a), vec![b"one".to_vec()]);
    assert!(chunks(&mut b).is_empty());
    second.flush().unwrap();
    assert!(chunks(&mut a).is_empty());
    assert_eq!(chunks(&mut b), vec![b"two".to_vec()]);
}

#[test]
fn chunks_are_fed_in_order_whichever_fail() {
    let mut fed = Vec::new();
    for (byte, taken) in [(1u8, true), (2, false), (3, false), (4, true)] {
        match feed_step(FeedEvent::Received(Some(vec![byte]))) {
            FeedAction::Send(chunk) => fed.extend(chunk),
            other => panic!("{:?}", other),
        }
        let mut action = feed_step(FeedEvent::Sent(taken));
        if action == FeedAction::Report {
            action = feed_step(FeedEvent::Reported);
        }
        assert_eq!(action, FeedAction::Receive);
    }
    assert_eq!(fed, vec![1, 2, 3, 4]);
}

#[test]
fn fed_chunks_are_the_flushed_ones() {
    let (mut handle, mut receiver) = TerminalHandle::start(&Clients::new());
    for text in ["one", "", "three"] {
        handle.write(text.as_bytes());
        handle.flush().unwrap();
    }
    handle.write(b"kept");
    drop(handle);
    let mut fed: Vec<Vec<u8>> = Vec::new();
    let mut action = FeedAction::Receive;
    while action != FeedAction::Finish {
        let event = match action {
            FeedAction::Receive => FeedEvent::Received(receiver.try_recv().ok()),
            FeedAction::Send(chunk) => {
                fed.push(chunk);
                FeedEvent::Sent(fed.len() != 2)
            }
            FeedAction::Report => FeedEvent::Reported,
            FeedAction::Finish => unreachable!(),
        };
        action = feed_step(event);
    }
    assert_eq!(fed, vec![b"one".to_vec(), Vec::new(), b"three".to_vec()]);
}

#[test]
fn feeding_goes_on_after_a_failure() {
    assert_eq!(
        feed_step(FeedEvent::Received(Some(vec![1, 2]))),
        FeedAction::Send(vec![1, 2])
    );
    assert_eq!(feed_step(FeedEvent::Sent(true)), FeedAction::Receive);
    assert_eq!(feed_step(FeedEvent::Sent(false)), FeedAction::Report);
    assert_eq!(feed_step(FeedEvent::Reported), FeedAction::Receive);
    assert_eq!(feed_step(FeedEvent::Received(None)), FeedAction::Finish);
}
