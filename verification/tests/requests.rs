use minecraft_terminal_viewer::clients::Clients;
use minecraft_terminal_viewer::frames::FramePump;
use minecraft_terminal_viewer::handle::HandleError;
use minecraft_terminal_viewer::rendering::{check_client, look_up, RenderAction};
use minecraft_terminal_viewer::server::{
    host_keys, only_host_key, server_settings, AuthDecision, DataAction, HostKeyError,
    MinecraftSshServer, PtyReply,
};
use minecraft_terminal_viewer::size::TerminalSize;
use tokio::sync::mpsc::UnboundedReceiver;

fn connect(
    server: &mut MinecraftSshServer,
    clients: &mut Clients,
) -> (MinecraftSshServer, UnboundedReceiver<Vec<u8>>) {
    let connection = server.new_client();
    let (granted, receiver) = connection.channel_open_session(clients);
    assert!(granted);
    (connection, receiver)
}

#[test]
fn connections_are_numbered_from_zero() {
    let mut server = MinecraftSshServer::new();
    assert_eq!(server.id, 0);
    assert_eq!(server.new_client().id, 0);
    assert_eq!(server.new_client().id, 1);
    assert_eq!(server.new_client().id, 2);
    assert_eq!(server.id, 3);
}

#[test]
fn session_registers_the_client() {
    let mut server = MinecraftSshServer::new();
    let mut clients = Clients::new();
    assert_eq!(clients.len(), 0);
    assert_eq!(clients.term_size(0), None);
    let (first, _a) = connect(&mut server, &mut clients);
    assert!(clients.contains(first.id));
    assert_eq!(clients.len(), 1);
    assert_eq!(clients.term_size(first.id), Some(TerminalSize::initial()));
    let (second, _b) = connect(&mut server, &mut clients);
    assert!(clients.contains(first.id) && clients.contains(second.id));
    assert_eq!(clients.len(), 2);
}

#[test]
fn reopened_session_starts_over() {
    let mut server = MinecraftSshServer::new();
    let mut clients = Clients::new();
    let (client, mut a) = connect(&mut server, &mut clients);
    client.window_change_request(&mut clients, 100, 5).unwrap();
    while a.try_recv().is_ok() {}
    let (_granted, mut b) = client.channel_open_session(&mut clients);
    assert!(b.try_recv().is_err());
    assert_eq!(clients.len(), 1);
    assert_eq!(clients.term_size(client.id), Some(TerminalSize::initial()));
    assert!(clients.show(client.id, "new"));
    assert_eq!(b.try_recv().unwrap(), b"new".to_vec());
    assert!(a.try_recv().is_err());
}

#[test]
fn sessions_have_channels_of_their_own() {
    let mut server = MinecraftSshServer::new();
    let mut clients = Clients::new();
    let mut sessions = Vec::new();
    for _ in 0..3 {
        sessions.push(connect(&mut server, &mut clients));
    }
    sessions[1].0.window_change_request(&mut clients, 90, 2).unwrap();
    assert_eq!(clients.term_size(0), Some(TerminalSize::initial()));
    assert_eq!(clients.term_size(2), Some(TerminalSize::initial()));
    assert!(sessions[0].1.try_recv().is_err());
    assert!(sessions[2].1.try_recv().is_err());
    while sessions[1].1.try_recv().is_ok() {}
    for id in [2usize, 0, 1] {
        assert!(clients.show(id, &format!("frame {}", id)));
    }
    for id in 0..3usize {
        let receiver = &mut sessions[id].1;
        assert_eq!(receiver.try_recv().unwrap(), format!("frame {}", id).into_bytes());
        assert!(receiver.try_recv().is_err());
    }
}

#[test]
fn equal_answers_have_equal_effects() {
    let mut outcomes = Vec::new();
    for _ in 0..2 {
        let mut server = MinecraftSshServer::new();
        let mut clients = Clients::new();
        let (client, receiver) = connect(&mut server, &mut clients);
        drop(receiver);
        let reply = client.pty_request(&mut clients, 33, 3);
        outcomes.push((reply, clients.term_size(client.id), clients.len()));
    }
    assert_eq!(outcomes[0], outcomes[1]);
    assert_eq!(outcomes[0].0, Err(HandleError::BrokenPipe));
}

#[test]
fn equal_requests_have_equal_effects() {
    let mut outcomes = Vec::new();
    for _ in 0..2 {
        let mut server = MinecraftSshServer::new();
        let mut clients = Clients::new();
        let (client, mut receiver) = connect(&mut server, &mut clients);
        let reply = client.pty_request(&mut clients, 33, 3);
        let mut sent = Vec::new();
        while let Ok(chunk) = receiver.try_recv() {
            sent.push(chunk);
        }
        outcomes.push((reply, clients.term_size(client.id), sent));
    }
    assert_eq!(outcomes[0], outcomes[1]);
}

#[test]
fn registered_sizes_fit_their_pictures() {
    let mut server = MinecraftSshServer::new();
    let mut clients = Clients::new();
    let (client, _receiver) = connect(&mut server, &mut clients);
    for cols in [0u32, 1, 79, 80, 500, 65535, 65536, 70000, u32::MAX] {
        client.window_change_request(&mut clients, cols, 1).unwrap();
        let size = clients.term_size(client.id).unwrap();
        assert_eq!(size.target_height % 2, 0);
        assert!(size.target_height >= size.width as usize * 9 / 16);
        assert_eq!(size.width as usize, size.target_width % 65536);
    }
}

#[test]
fn every_authentication_is_accepted() {
    let server = MinecraftSshServer::new();
    assert_eq!(server.auth_publickey("steve"), AuthDecision::Accept);
    assert_eq!(server.auth_password("alex", ""), AuthDecision::Accept);
}

#[test]
fn lone_q_quits() {
    let mut server = MinecraftSshServer::new();
    let mut clients = Clients::new();
    let (first, _a) = connect(&mut server, &mut clients);
    let (second, _b) = connect(&mut server, &mut clients);
    assert_eq!(first.data(&mut clients, b"q"), DataAction::CloseChannel);
    assert!(!clients.contains(first.id));
    assert!(clients.contains(second.id));
    assert_eq!(first.data(&mut clients, b"q"), DataAction::CloseChannel);
    first.disconnect(&mut clients);
    assert_eq!(clients.len(), 1);
}

#[test]
fn other_data_is_ignored() {
    let mut server = MinecraftSshServer::new();
    let mut clients = Clients::new();
    let (client, mut receiver) = connect(&mut server, &mut clients);
    for data in [&b""[..], b"Q", b"qq", b"q\n", b"w", b"\x03", b"hello"] {
        assert_eq!(client.data(&mut clients, data), DataAction::Ignore);
    }
    assert!(clients.contains(client.id));
    assert!(receiver.try_recv().is_err());
}

#[test]
fn terminal_request_takes_the_size_over() {
    let mut server = MinecraftSshServer::new();
    let mut clients = Clients::new();
    let (client, mut receiver) = connect(&mut server, &mut clients);
    assert_eq!(
        client.pty_request(&mut clients, 120, 2),
        Ok(PtyReply { start_rendering: Some(0) })
    );
    assert_eq!(
        clients.term_size(0),
        Some(TerminalSize { width: 120, height: 2, target_width: 120, target_height: 68 })
    );
    let mut sent = Vec::new();
    while let Ok(chunk) = receiver.try_recv() {
        sent.extend(chunk);
    }
    assert_eq!(sent, b"\x1b[1;1H\x1b[J\x1b[2;1H\x1b[J".to_vec());
}

#[test]
fn only_client_gets_the_rendering() {
    let mut server = MinecraftSshServer::new();
    let mut clients = Clients::new();
    let (first, _a) = connect(&mut server, &mut clients);
    let (second, _b) = connect(&mut server, &mut clients);
    let none = Ok(PtyReply { start_rendering: None });
    assert_eq!(first.pty_request(&mut clients, 80, 24), none);
    assert_eq!(second.pty_request(&mut clients, 80, 24), none);
    first.disconnect(&mut clients);
    assert_eq!(
        second.pty_request(&mut clients, 80, 24),
        Ok(PtyReply { start_rendering: Some(1) })
    );
}

#[test]
fn failed_resize_still_updates_the_size() {
    let mut server = MinecraftSshServer::new();
    let mut clients = Clients::new();
    let (client, receiver) = connect(&mut server, &mut clients);
    drop(receiver);
    assert_eq!(client.pty_request(&mut clients, 90, 30), Err(HandleError::BrokenPipe));
    assert_eq!(clients.term_size(client.id), Some(TerminalSize::from_cells(90, 30)));
    assert_eq!(
        client.window_change_request(&mut clients, 70, 20),
        Err(HandleError::BrokenPipe)
    );
    assert_eq!(clients.term_size(client.id), Some(TerminalSize::from_cells(70, 20)));
    assert_eq!(
        client.pty_reply(&clients, Err(HandleError::BrokenPipe)),
        Err(HandleError::BrokenPipe)
    );
}

#[test]
fn window_change_concerns_one_client() {
    let mut server = MinecraftSshServer::new();
    let mut clients = Clients::new();
    let (first, _a) = connect(&mut server, &mut clients);
    let (second, mut other) = connect(&mut server, &mut clients);
    assert_eq!(first.window_change_request(&mut clients, 65536 + 10, 7), Ok(()));
    assert_eq!(
        clients.term_size(first.id),
        Some(TerminalSize { width: 10, height: 7, target_width: 65546, target_height: 36870 })
    );
    assert_eq!(clients.term_size(second.id), Some(TerminalSize::initial()));
    assert!(other.try_recv().is_err());
}

#[test]
fn leaving_ends_the_rendering() {
    let mut server = MinecraftSshServer::new();
    let mut clients = Clients::new();
    let (client, _receiver) = connect(&mut server, &mut clients);
    client.pty_request(&mut clients, 64, 4).unwrap();
    let size = TerminalSize { width: 64, height: 4, target_width: 64, target_height: 36 };
    assert_eq!(look_up(&clients, client.id), RenderAction::Spawn(size));
    assert_eq!(check_client(&clients, client.id), RenderAction::Sleep { millis: 500 });
    client.data(&mut clients, b"q");
    assert_eq!(look_up(&clients, client.id), RenderAction::Finish);
    assert_eq!(check_client(&clients, client.id), RenderAction::Stop);
    let pump = FramePump { last_frame: Some("frame".to_string()) };
    assert!(!pump.show(&mut clients, client.id));
}

#[test]
fn frames_reach_their_client_alone() {
    let mut server = MinecraftSshServer::new();
    let mut clients = Clients::new();
    let (first, mut a) = connect(&mut server, &mut clients);
    let (_second, mut b) = connect(&mut server, &mut clients);
    let pump = FramePump { last_frame: Some("\u{2584}!".to_string()) };
    assert!(pump.show(&mut clients, first.id));
    assert_eq!(a.try_recv().unwrap(), b"\xe2\x96\x84!".to_vec());
    assert!(a.try_recv().is_err());
    assert!(b.try_recv().is_err());
    let empty = FramePump::new();
    assert!(empty.show(&mut clients, first.id));
    assert!(empty.show(&mut clients, 99));
    assert!(a.try_recv().is_err());
}

#[test]
fn server_listens_on_all_interfaces() {
    let settings = server_settings();
    assert_eq!(settings.host, "0.0.0.0");
    assert_eq!(settings.port, 2222);
    assert_eq!(settings.inactivity_timeout_secs, 3600);
    assert_eq!(settings.auth_rejection_secs, 3);
    assert_eq!(settings.initial_auth_rejection_secs, 0);
    assert!(settings.nodelay);
}

#[test]
fn host_key_is_a_new_ed25519_key() {
    let first = host_keys().unwrap();
    let second = host_keys().unwrap();
    assert_eq!(first.len(), 1);
    assert_eq!(second.len(), 1);
    assert_eq!(first[0].algorithm(), russh::keys::ssh_key::Algorithm::Ed25519);
    assert!(first[0].public_key() != second[0].public_key());
}

#[test]
fn host_key_failure_is_reported() {
    let failed = only_host_key(Err(russh::keys::ssh_key::Error::AlgorithmUnknown));
    assert_eq!(failed.unwrap_err(), HostKeyError::Generation);
}
