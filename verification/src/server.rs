//! The SSH server: its settings, and what it does for each request of a client.
//!
//! Each connection has a [`MinecraftSshServer`] of its own as its handler. The
//! registry of the clients is shared by all of them and is handed to each
//! operation by the caller, who holds the lock on it.

use russh::keys::ssh_key;
use russh::keys::PrivateKey;
use tokio::sync::mpsc::UnboundedReceiver;
use vstd::prelude::*;

use crate::clients::{holds_channel, resized, ClientData, ClientView, Clients};
use crate::handle::{receiver_channel, HandleError, HandleView, TerminalHandle};
use crate::size::{Area, TerminalSize};
use crate::terminal::{SshTerminal, TerminalView};

verus! {

/// The byte of the key that closes the connection, `q`.
pub const QUIT_KEY: u8 = 0x71;

/// A private SSH key.
#[verifier::external_type_specification]
#[verifier::external_body]
pub struct ExPrivateKey(PrivateKey);

/// The error of an operation on SSH keys.
#[verifier::external_type_specification]
#[verifier::external_body]
pub struct ExKeyError(ssh_key::Error);

/// How the server listens and how it treats connections.
#[derive(Clone, Copy, Debug, PartialEq, Eq)]
pub struct ServerSettings {
    /// The address that is listened on.
    pub host: &'static str,
    /// The port that is listened on.
    pub port: u16,
    /// After how many seconds a silent connection is closed.
    pub inactivity_timeout_secs: u64,
    /// How many seconds the rejection of an authentication takes.
    pub auth_rejection_secs: u64,
    /// How many seconds the rejection of the first, empty attempt takes.
    pub initial_auth_rejection_secs: u64,
    /// Whether small packets are sent at once.
    pub nodelay: bool,
}

/// The answer to an attempt to authenticate.
#[derive(Clone, Copy, Debug, PartialEq, Eq, Structural)]
pub enum AuthDecision {
    Accept,
    Reject,
}

/// What follows the data that a client sent.
#[derive(Clone, Copy, Debug, PartialEq, Eq, Structural)]
pub enum DataAction {
    /// Close the channel.
    CloseChannel,
    /// Nothing.
    Ignore,
}

/// What follows a granted request for a terminal.
#[derive(Clone, Copy, Debug, PartialEq, Eq, Structural)]
pub struct PtyReply {
    /// The client to start the rendering for, if it is to be started. The
    /// request is then confirmed.
    pub start_rendering: Option<usize>,
}

/// The algorithm of a host key.
#[derive(Clone, Copy, Debug, PartialEq, Eq, Structural)]
pub enum HostKeyAlgorithm {
    Ed25519,
    Rsa,
}

/// Why the server has no host key.
#[derive(Clone, Copy, Debug, PartialEq, Eq, Structural)]
pub enum HostKeyError {
    /// The key could not be made.
    Generation,
}

/// Listens on all interfaces, on port 2222; a silent connection lasts an hour.
pub fn server_settings() -> (settings: ServerSettings)
    ensures
        settings.host@ == "0.0.0.0"@,
        settings.port == 2222,
        settings.inactivity_timeout_secs == 3600,
        settings.auth_rejection_secs == 3,
        settings.initial_auth_rejection_secs == 0,
        settings.nodelay,
{
    ServerSettings {
        host: "0.0.0.0",
        port: 2222,
        inactivity_timeout_secs: 3600,
        auth_rejection_secs: 3,
        initial_auth_rejection_secs: 0,
        nodelay: true,
    }
}

/// Calls ssh-key's `PrivateKey::random`, with rand_core's `OsRng`, for a new key
/// of the given algorithm. The key is made of random numbers, so nothing is
/// claimed of it; that it is a key of the algorithm is left unsaid too, as the
/// key is opaque here. A system that cannot give random numbers makes the call
/// panic.
#[verifier::external_body]
fn random_host_key(algorithm: HostKeyAlgorithm) -> (key: Result<PrivateKey, ssh_key::Error>) {
    let algorithm = match algorithm {
        HostKeyAlgorithm::Ed25519 => ssh_key::Algorithm::Ed25519,
        HostKeyAlgorithm::Rsa => ssh_key::Algorithm::Rsa { hash: None },
    };
    PrivateKey::random(&mut rand_core::OsRng, algorithm)
}

/// Whether `key` came of an attempt to make a new host key of `algorithm`.
pub closed spec fn attempted(
    algorithm: HostKeyAlgorithm,
    key: Result<PrivateKey, ssh_key::Error>,
) -> bool {
    call_ensures(random_host_key, (algorithm,), key)
}

/// Whether `keys` are the host keys of a server whose only key is `key`, or the
/// error that there is none.
pub open spec fn holds_only(
    keys: Result<Vec<PrivateKey>, HostKeyError>,
    key: Result<PrivateKey, ssh_key::Error>,
) -> bool {
    match key {
        Ok(k) => keys is Ok && keys->Ok_0@ == seq![k],
        Err(_) => keys == Err::<Vec<PrivateKey>, HostKeyError>(HostKeyError::Generation),
    }
}

/// The host keys of a server whose only key is `key`.
pub fn only_host_key(key: Result<PrivateKey, ssh_key::Error>) -> (keys: Result<
    Vec<PrivateKey>,
    HostKeyError,
>)
    ensures
        holds_only(keys, key),
{
    match key {
        Ok(key) => {
            let mut keys = Vec::new();
            keys.push(key);
            assert(keys@ == seq![key]);
            Ok(keys)
        },
        Err(_) => Err(HostKeyError::Generation),
    }
}

/// Makes the host keys of a server: one Ed25519 key, new each time. It fails
/// exactly if the key could not be made.
pub fn host_keys() -> (keys: Result<Vec<PrivateKey>, HostKeyError>)
    ensures
        exists|key: Result<PrivateKey, ssh_key::Error>| #[trigger]
            attempted(HostKeyAlgorithm::Ed25519, key) && holds_only(keys, key),
{
    let key = random_host_key(HostKeyAlgorithm::Ed25519);
    assert(attempted(HostKeyAlgorithm::Ed25519, key));
    only_host_key(key)
}

/// The server, and the handler of one connection. `id` is the number of the
/// connection; of the server itself, the number that the next connection gets.
#[derive(Debug, PartialEq, Eq)]
pub struct MinecraftSshServer {
    pub id: usize,
}

impl MinecraftSshServer {
    /// A server that has had no connection yet.
    pub fn new() -> (server: MinecraftSshServer)
        ensures
            server.id == 0,
    {
        MinecraftSshServer { id: 0 }
    }

    /// The handler of a new connection. The numbers of connections go up by
    /// one.
    pub fn new_client(&mut self) -> (client: MinecraftSshServer)
        requires
            old(self).id < usize::MAX,
        ensures
            client.id == old(self).id,
            final(self).id == old(self).id + 1,
    {
        let client = MinecraftSshServer { id: self.id };
        self.id = self.id + 1;
        client
    }

    /// Registers the client with its terminal when it opens a session. The
    /// session is always granted. The terminal has a byte channel that none of
    /// the clients had, whose receiving half is returned too, an empty viewport, and
    /// the initial size until the client reports one.
    pub fn channel_open_session(&self, clients: &mut Clients) -> (session: (
        bool,
        UnboundedReceiver<Vec<u8>>,
    ))
        ensures
            session.0,
            final(clients)@ == old(clients)@.insert(
                self.id,
                opened(receiver_channel(session.1)),
            ),
            !holds_channel(old(clients)@, receiver_channel(session.1)),
    {
        let (handle, receiver) = TerminalHandle::start(clients);
        let terminal = SshTerminal::new(handle);
        let term_size = TerminalSize::initial();
        clients.insert(self.id, ClientData { terminal, term_size });
        (true, receiver)
    }

    /// Any public key is accepted.
    pub fn auth_publickey(&self, user: &str) -> (decision: AuthDecision)
        ensures
            decision == AuthDecision::Accept,
    {
        AuthDecision::Accept
    }

    /// Any password is accepted.
    pub fn auth_password(&self, user: &str, password: &str) -> (decision: AuthDecision)
        ensures
            decision == AuthDecision::Accept,
    {
        AuthDecision::Accept
    }

    /// A lone `q` removes the client and closes the connection. All other data
    /// is ignored.
    pub fn data(&self, clients: &mut Clients, data: &[u8]) -> (action: DataAction)
        ensures
            data@ == seq![QUIT_KEY] ==> action == DataAction::CloseChannel && final(clients)@ == old(
                clients,
            )@.remove(self.id),
            data@ != seq![QUIT_KEY] ==> action == DataAction::Ignore && final(clients)@ == old(
                clients,
            )@,
    {
        if data.len() == 1 && data[0] == QUIT_KEY {
            assert(data@ == seq![QUIT_KEY]);
            clients.remove(self.id);
            DataAction::CloseChannel
        } else {
            assert(data@ != seq![QUIT_KEY]) by {
                assert(seq![QUIT_KEY].len() == 1);
                assert(seq![QUIT_KEY][0] == QUIT_KEY);
            }
            DataAction::Ignore
        }
    }

    /// The client's window has a new size: it is taken over, and the terminal is
    /// resized to it.
    pub fn window_change_request(&self, clients: &mut Clients, cols: u32, rows: u32) -> (result:
        Result<(), HandleError>)
        requires
            old(clients)@.contains_key(self.id),
        ensures
            resized(old(clients)@[self.id], cols, rows, result, final(clients)@[self.id]),
            final(clients)@ == old(clients)@.insert(self.id, final(clients)@[self.id]),
    {
        clients.resize(self.id, cols, rows)
    }

    /// What follows a request for a terminal whose resize ended with `result`:
    /// the rendering is started if the client is the only one that is connected.
    pub fn pty_reply(&self, clients: &Clients, result: Result<(), HandleError>) -> (reply: Result<
        PtyReply,
        HandleError,
    >)
        ensures
            reply == pty_reply_for(self.id, clients@, result),
    {
        match result {
            Err(e) => Err(e),
            Ok(()) => {
                if clients.len() == 1 {
                    Ok(PtyReply { start_rendering: Some(self.id) })
                } else {
                    Ok(PtyReply { start_rendering: None })
                }
            },
        }
    }

    /// The client asks for a terminal: the size is taken over, the terminal is
    /// resized to it, and the first client gets the rendering started.
    pub fn pty_request(&self, clients: &mut Clients, cols: u32, rows: u32) -> (reply: Result<
        PtyReply,
        HandleError,
    >)
        requires
            old(clients)@.contains_key(self.id),
        ensures
            final(clients)@ == old(clients)@.insert(self.id, final(clients)@[self.id]),
            resized(
                old(clients)@[self.id],
                cols,
                rows,
                resize_result(reply),
                final(clients)@[self.id],
            ),
            reply == pty_reply_for(self.id, old(clients)@, resize_result(reply)),
    {
        let result = clients.resize(self.id, cols, rows);
        assert(clients@.dom() == old(clients)@.dom());
        self.pty_reply(clients, result)
    }

    /// The connection is gone: its client, if it is still registered, is
    /// removed.
    pub fn disconnect(&self, clients: &mut Clients)
        ensures
            final(clients)@ == old(clients)@.remove(self.id),
    {
        clients.remove(self.id);
    }
}

/// A client that has just opened a session over `channel`: nothing was written to
/// it or handed to its channel.
pub open spec fn opened(channel: int) -> ClientView {
    ClientView {
        terminal: TerminalView {
            handle: HandleView::fresh(channel),
            area: Area { x: 0, y: 0, width: 0, height: 0 },
        },
        term_size: crate::size::default_size(),
    }
}

/// The reply to a request for a terminal by the client `id` among `clients`,
/// whose resize ended with `result`.
pub open spec fn pty_reply_for(
    id: usize,
    clients: Map<usize, ClientView>,
    result: Result<(), HandleError>,
) -> Result<PtyReply, HandleError> {
    match result {
        Err(e) => Err(e),
        Ok(()) => Ok(
            PtyReply {
                start_rendering: if clients.len() == 1 {
                    Some(id)
                } else {
                    None
                },
            },
        ),
    }
}

/// The result of the resize that led to `reply`.
pub open spec fn resize_result(reply: Result<PtyReply, HandleError>) -> Result<(), HandleError> {
    match reply {
        Ok(_) => Ok(()),
        Err(e) => Err(e),
    }
}

} // verus!
