//! What comes of the operations on the clients and of their requests.

use russh::keys::ssh_key;
use russh::keys::PrivateKey;
use tokio::sync::mpsc::UnboundedReceiver;
use vstd::prelude::*;

use crate::clients::{law_registry_is_finite, resized, ClientData, ClientView, Clients};
use crate::handle::{receiver_channel, HandleError};
use crate::laws::law_only_client_gets_rendering;
use crate::outcomes::streams::{cleared, law_clearing, law_drawing};
use crate::rendering::{look_up, RenderAction};
use crate::server::{
    attempted, host_keys, only_host_key, resize_result, server_settings, AuthDecision, DataAction,
    HostKeyAlgorithm, HostKeyError, MinecraftSshServer, PtyReply, ServerSettings,
};
use crate::size::{area_of_request, TerminalSize};

verus! {

/// A new registry has no clients.
pub proof fn law_new_registry(clients: Clients, id: usize)
    requires
        call_ensures(Clients::new, (), clients),
    ensures
        !clients@.contains_key(id),
        clients@.len() == 0,
{
}

/// The registry answers what it holds: how many clients there are, whether one is
/// there, and its size if it is.
pub proof fn law_registry_answers(
    clients: &Clients,
    id: usize,
    len: usize,
    found: bool,
    size: Option<TerminalSize>,
)
    requires
        call_ensures(Clients::len, (clients,), len),
        call_ensures(Clients::contains, (clients, id), found),
        call_ensures(Clients::term_size, (clients, id), size),
    ensures
        len == clients@.dom().len(),
        found <==> clients@.contains_key(id),
        size is Some <==> found,
        size matches Some(size) ==> size == clients@[id].term_size,
        found ==> len > 0,
{
    law_registry_is_finite(*clients);
    if found && len == 0 {
        assert(clients@.dom().contains(id));
        assert(clients@.dom() == Set::<usize>::empty());
    }
}

/// A client that is registered is there with its data. The others stay.
pub proof fn law_insert(clients: &mut Clients, id: usize, data: ClientData, other: usize)
    requires
        call_ensures(Clients::insert, (clients, id, data), ()),
    ensures
        final(clients)@.contains_key(id),
        final(clients)@[id].terminal == data.terminal@,
        final(clients)@[id].term_size == data.term_size,
        other != id ==> final(clients)@.contains_key(other) == old(clients)@.contains_key(other),
        other != id && old(clients)@.contains_key(other) ==> final(clients)@[other]
            == old(clients)@[other],
{
}

/// A client that is removed is no longer there. The others stay.
pub proof fn law_remove(clients: &mut Clients, id: usize, other: usize)
    requires
        call_ensures(Clients::remove, (clients, id), ()),
    ensures
        !final(clients)@.contains_key(id),
        other != id ==> final(clients)@.contains_key(other) == old(clients)@.contains_key(other),
        other != id && old(clients)@.contains_key(other) ==> final(clients)@[other]
            == old(clients)@[other],
{
}

/// A reported size is taken over, whether the terminal takes it or not: the low 16
/// bits of the counts are the cells, all the columns are the width of the picture,
/// and its height is the least even number not below nine sixteenths of them,
/// rounded down. The viewport has these cells and is cleared row by row.
pub proof fn law_report(
    before: ClientView,
    cols: u32,
    rows: u32,
    result: Result<(), HandleError>,
    after: ClientView,
)
    requires
        resized(before, cols, rows, result, after),
    ensures
        after.term_size.width == cols % 0x1_0000,
        after.term_size.height == rows % 0x1_0000,
        after.term_size.target_width == cols,
        after.term_size.target_height % 2 == 0,
        cols as int * 9 / 16 <= after.term_size.target_height <= cols as int * 9 / 16 + 1,
        after.terminal.area.x == 0,
        after.terminal.area.y == 0,
        after.terminal.area.width == cols % 0x1_0000,
        after.terminal.area.height == rows % 0x1_0000,
        cleared(
            before.terminal.handle,
            0,
            rows as int % 0x1_0000,
            result is Ok,
            after.terminal.handle,
        ),
        result is Err ==> result == Err::<(), HandleError>(HandleError::BrokenPipe),
{
    law_clearing(
        before.terminal.handle,
        area_of_request(cols, rows),
        result is Ok,
        after.terminal.handle,
    );
}

/// The data of a client takes over the size that it reports.
pub proof fn law_resize_data(
    data: &mut ClientData,
    cols: u32,
    rows: u32,
    result: Result<(), HandleError>,
)
    requires
        call_ensures(ClientData::resize, (data, cols, rows), result),
    ensures
        final(data).term_size.width == cols % 0x1_0000,
        final(data).term_size.height == rows % 0x1_0000,
        final(data).term_size.target_width == cols,
        final(data).term_size.target_height % 2 == 0,
        cols as int * 9 / 16 <= final(data).term_size.target_height <= cols as int * 9 / 16 + 1,
        final(data).terminal@.area.x == 0,
        final(data).terminal@.area.y == 0,
        final(data).terminal@.area.width == cols % 0x1_0000,
        final(data).terminal@.area.height == rows % 0x1_0000,
        cleared(
            old(data).terminal@.handle,
            0,
            rows as int % 0x1_0000,
            result is Ok,
            final(data).terminal@.handle,
        ),
        result is Err ==> result == Err::<(), HandleError>(HandleError::BrokenPipe),
{
    law_report(old(data)@, cols, rows, result, final(data)@);
}

/// A client that is registered takes over the size that it reports. The others stay
/// as they are.
pub proof fn law_resize_client(
    clients: &mut Clients,
    id: usize,
    cols: u32,
    rows: u32,
    result: Result<(), HandleError>,
    other: usize,
)
    requires
        old(clients)@.contains_key(id),
        call_ensures(Clients::resize, (clients, id, cols, rows), result),
    ensures
        final(clients)@.dom() == old(clients)@.dom(),
        other != id && old(clients)@.contains_key(other) ==> final(clients)@[other]
            == old(clients)@[other],
        result is Err ==> result == Err::<(), HandleError>(HandleError::BrokenPipe),
        ({
            let after = final(clients)@[id];
            &&& after.term_size.width == cols % 0x1_0000
            &&& after.term_size.height == rows % 0x1_0000
            &&& after.term_size.target_width == cols
            &&& after.term_size.target_height % 2 == 0
            &&& cols as int * 9 / 16 <= after.term_size.target_height <= cols as int * 9 / 16 + 1
            &&& after.terminal.area.x == 0
            &&& after.terminal.area.y == 0
            &&& after.terminal.area.width == cols % 0x1_0000
            &&& after.terminal.area.height == rows % 0x1_0000
            &&& cleared(
                old(clients)@[id].terminal.handle,
                0,
                rows as int % 0x1_0000,
                result is Ok,
                after.terminal.handle,
            )
        }),
{
    law_report(old(clients)@[id], cols, rows, result, final(clients)@[id]);
    assert(final(clients)@.dom() == old(clients)@.dom());
}

/// A frame is drawn to a client exactly if it is registered. It goes out as one chunk
/// with all its bytes, behind what was collected before. The client keeps its size
/// and its viewport, and the others stay as they are.
pub proof fn law_show_to_client(clients: &mut Clients, id: usize, frame: &str, found: bool)
    requires
        call_ensures(Clients::show, (clients, id, frame), found),
    ensures
        found <==> old(clients)@.contains_key(id),
        final(clients)@.dom() == old(clients)@.dom(),
        forall|other: usize| #[trigger]
            old(clients)@.contains_key(other) && other != id ==> final(clients)@[other]
                == old(clients)@[other],
        found ==> {
            let before = old(clients)@[id];
            let after = final(clients)@[id];
            let bytes = before.terminal.handle.sink + vstd::utf8::encode_utf8(frame@);
            &&& after.term_size == before.term_size
            &&& after.terminal.area == before.terminal.area
            &&& after.terminal.handle.channel == before.terminal.handle.channel
            &&& after.terminal.handle.offers.len() == before.terminal.handle.offers.len() + 1
            &&& after.terminal.handle.offers.drop_last() == before.terminal.handle.offers
            &&& after.terminal.handle.offers.last().0 == bytes
            &&& after.terminal.handle.offers.last().1 ==> after.terminal.handle.sink.len() == 0
            &&& !after.terminal.handle.offers.last().1 ==> after.terminal.handle.sink == bytes
        },
{
    if found {
        law_drawing(
            old(clients)@[id].terminal.handle,
            frame@,
            final(clients)@[id].terminal.handle,
        );
    }
    assert(final(clients)@.dom() == old(clients)@.dom());
}

/// The server listens on port 2222 of all interfaces. A silent connection is closed
/// after an hour, a rejection takes three seconds but for the first, empty attempt,
/// and small packets are sent at once.
pub proof fn law_settings(settings: ServerSettings)
    requires
        call_ensures(server_settings, (), settings),
    ensures
        settings.host@ == "0.0.0.0"@,
        settings.port == 2222,
        settings.inactivity_timeout_secs == 60 * 60,
        settings.auth_rejection_secs == 3,
        settings.initial_auth_rejection_secs == 0,
        settings.nodelay,
{
}

/// The key that was made is the one and only host key. Where none was made, the
/// server has none.
pub proof fn law_only_host_key(
    key: Result<PrivateKey, ssh_key::Error>,
    keys: Result<Vec<PrivateKey>, HostKeyError>,
)
    requires
        call_ensures(only_host_key, (key,), keys),
    ensures
        key is Ok <==> keys is Ok,
        key is Ok ==> keys->Ok_0@.len() == 1 && keys->Ok_0@[0] == key->Ok_0,
        key is Err ==> keys->Err_0 == HostKeyError::Generation,
{
}

/// A server has one host key, which came of an attempt to make an Ed25519 key, or it
/// has none because the attempt failed.
pub proof fn law_host_keys(keys: Result<Vec<PrivateKey>, HostKeyError>)
    requires
        call_ensures(host_keys, (), keys),
    ensures
        keys is Ok ==> keys->Ok_0@.len() == 1,
        keys is Ok ==> exists|key: Result<PrivateKey, ssh_key::Error>| #[trigger]
            attempted(HostKeyAlgorithm::Ed25519, key) && key is Ok && keys->Ok_0@[0] == key->Ok_0,
        keys is Err ==> exists|key: Result<PrivateKey, ssh_key::Error>| #[trigger]
            attempted(HostKeyAlgorithm::Ed25519, key) && key is Err,
{
}

/// A new server gives its first connection the number 0.
pub proof fn law_new_server(server: MinecraftSshServer)
    requires
        call_ensures(MinecraftSshServer::new, (), server),
    ensures
        server.id == 0,
{
}

/// Two connections in a row get different numbers, the second the next one after the
/// first.
pub proof fn law_connections_are_numbered(
    before: &mut MinecraftSshServer,
    one: MinecraftSshServer,
    between: &mut MinecraftSshServer,
    two: MinecraftSshServer,
)
    requires
        old(before).id < usize::MAX,
        call_ensures(MinecraftSshServer::new_client, (before,), one),
        *old(between) == *final(before),
        old(between).id < usize::MAX,
        call_ensures(MinecraftSshServer::new_client, (between,), two),
    ensures
        one.id == old(before).id,
        two.id == one.id + 1,
        final(between).id == two.id + 1,
{
}

/// A session is granted to whoever asks. The client is then registered with an empty
/// viewport, as a terminal of 80 by 24 cells with a picture of 80 by 48, with nothing
/// written to it or handed over, and over a channel that no client had. The others
/// stay as they are.
pub proof fn law_open_session(
    server: &MinecraftSshServer,
    clients: &mut Clients,
    granted: bool,
    receiver: UnboundedReceiver<Vec<u8>>,
    other: usize,
)
    requires
        call_ensures(
            MinecraftSshServer::channel_open_session,
            (server, clients),
            (granted, receiver),
        ),
    ensures
        granted,
        final(clients)@.contains_key(server.id),
        ({
            let client = final(clients)@[server.id];
            &&& client.term_size.width == 80
            &&& client.term_size.height == 24
            &&& client.term_size.target_width == 80
            &&& client.term_size.target_height == 48
            &&& client.terminal.area.x == 0
            &&& client.terminal.area.y == 0
            &&& client.terminal.area.width == 0
            &&& client.terminal.area.height == 0
            &&& client.terminal.handle.channel == receiver_channel(receiver)
            &&& client.terminal.handle.offers.len() == 0
            &&& client.terminal.handle.sink.len() == 0
        }),
        old(clients)@.contains_key(other) ==> old(clients)@[other].terminal.handle.channel
            != receiver_channel(receiver),
        other != server.id ==> final(clients)@.contains_key(other) == old(clients)@.contains_key(
            other,
        ),
        other != server.id && old(clients)@.contains_key(other) ==> final(clients)@[other]
            == old(clients)@[other],
{
}

/// Everyone is let in, with any key and with any password.
pub proof fn law_everyone_is_let_in(
    server: &MinecraftSshServer,
    user: &str,
    password: &str,
    by_key: AuthDecision,
    by_password: AuthDecision,
)
    requires
        call_ensures(MinecraftSshServer::auth_publickey, (server, user), by_key),
        call_ensures(MinecraftSshServer::auth_password, (server, user, password), by_password),
    ensures
        by_key == AuthDecision::Accept,
        by_password == AuthDecision::Accept,
{
}

/// A client quits exactly if it sends the single byte `q`. It is then no longer
/// registered, and its channel is closed. The others stay as they are, and whatever
/// else a client sends changes nothing.
pub proof fn law_lone_q_quits(
    server: &MinecraftSshServer,
    clients: &mut Clients,
    data: &[u8],
    action: DataAction,
    other: usize,
)
    requires
        call_ensures(MinecraftSshServer::data, (server, clients, data), action),
    ensures
        action == DataAction::CloseChannel <==> data@.len() == 1 && data@[0] == 0x71,
        action == DataAction::Ignore <==> !(data@.len() == 1 && data@[0] == 0x71),
        action == DataAction::CloseChannel ==> !final(clients)@.contains_key(server.id),
        action == DataAction::Ignore ==> final(clients)@ == old(clients)@,
        other != server.id ==> final(clients)@.contains_key(other) == old(clients)@.contains_key(
            other,
        ),
        other != server.id && old(clients)@.contains_key(other) ==> final(clients)@[other]
            == old(clients)@[other],
{
    if data@.len() == 1 && data@[0] == 0x71 {
        assert(data@ == seq![0x71u8]);
    }
}

/// A connection that goes down takes its client with it and no other.
pub proof fn law_disconnect(server: &MinecraftSshServer, clients: &mut Clients, other: usize)
    requires
        call_ensures(MinecraftSshServer::disconnect, (server, clients), ()),
    ensures
        !final(clients)@.contains_key(server.id),
        other != server.id ==> final(clients)@.contains_key(other) == old(clients)@.contains_key(
            other,
        ),
        other != server.id && old(clients)@.contains_key(other) ==> final(clients)@[other]
            == old(clients)@[other],
{
}

/// A window that changes gives the client its new size and no other client any. It
/// fails exactly where the channel refuses a chunk, with a broken pipe.
pub proof fn law_window_change(
    server: &MinecraftSshServer,
    clients: &mut Clients,
    cols: u32,
    rows: u32,
    result: Result<(), HandleError>,
    other: usize,
)
    requires
        old(clients)@.contains_key(server.id),
        call_ensures(
            MinecraftSshServer::window_change_request,
            (server, clients, cols, rows),
            result,
        ),
    ensures
        final(clients)@.dom() == old(clients)@.dom(),
        other != server.id && old(clients)@.contains_key(other) ==> final(clients)@[other]
            == old(clients)@[other],
        result is Err ==> result == Err::<(), HandleError>(HandleError::BrokenPipe),
        rows % 0x1_0000 == 0 ==> result is Ok,
        ({
            let after = final(clients)@[server.id];
            &&& after.term_size.width == cols % 0x1_0000
            &&& after.term_size.height == rows % 0x1_0000
            &&& after.term_size.target_width == cols
            &&& after.term_size.target_height % 2 == 0
            &&& cols as int * 9 / 16 <= after.term_size.target_height <= cols as int * 9 / 16 + 1
            &&& after.terminal.area.x == 0
            &&& after.terminal.area.y == 0
            &&& after.terminal.area.width == cols % 0x1_0000
            &&& after.terminal.area.height == rows % 0x1_0000
            &&& cleared(
                old(clients)@[server.id].terminal.handle,
                0,
                rows as int % 0x1_0000,
                result is Ok,
                after.terminal.handle,
            )
        }),
{
    law_report(old(clients)@[server.id], cols, rows, result, final(clients)@[server.id]);
    assert(final(clients)@.dom() == old(clients)@.dom());
}

/// A client that is registered gets the rendering exactly if it is the only one. A
/// resize that failed is answered with its error.
pub proof fn law_pty_reply(
    server: &MinecraftSshServer,
    clients: &Clients,
    result: Result<(), HandleError>,
    reply: Result<PtyReply, HandleError>,
)
    requires
        clients@.contains_key(server.id),
        call_ensures(MinecraftSshServer::pty_reply, (server, clients, result), reply),
    ensures
        reply is Ok <==> result is Ok,
        reply is Err ==> reply->Err_0 == result->Err_0,
        reply is Ok ==> (reply->Ok_0.start_rendering == Some(server.id) <==> forall|id: usize|
         #[trigger]
            clients@.contains_key(id) ==> id == server.id),
        reply is Ok ==> reply->Ok_0.start_rendering is None || reply->Ok_0.start_rendering == Some(
            server.id,
        ),
{
    law_registry_is_finite(*clients);
    lemma_only_client(server.id, clients@);
    if result is Ok {
        assert(result->Ok_0 == ());
    }
}

/// A client is the only one exactly if there is no other.
proof fn lemma_only_client(id: usize, clients: Map<usize, ClientView>)
    requires
        clients.dom().finite(),
        clients.contains_key(id),
    ensures
        clients.len() == 1 <==> forall|other: usize| #[trigger]
            clients.contains_key(other) ==> other == id,
{
    law_only_client_gets_rendering(id, clients);
    if clients.len() == 1 {
        assert(clients.dom() == set![id]);
        assert forall|other: usize| #[trigger] clients.contains_key(other) implies other == id by {
            assert(clients.dom().contains(other));
        }
    }
    if forall|other: usize| #[trigger] clients.contains_key(other) ==> other == id {
        assert(clients.dom() == set![id]) by {
            assert forall|other: usize| clients.dom().contains(other) <==> set![id].contains(
                other,
            ) by {
                assert(clients.dom().contains(other) == clients.contains_key(other));
            }
        }
    }
}

/// A request for a terminal gives the client its size and no other client any. It is
/// granted unless the channel refuses a chunk, and starts the rendering exactly if
/// the client is the only one.
pub proof fn law_pty_request(
    server: &MinecraftSshServer,
    clients: &mut Clients,
    cols: u32,
    rows: u32,
    reply: Result<PtyReply, HandleError>,
    other: usize,
)
    requires
        old(clients)@.contains_key(server.id),
        call_ensures(MinecraftSshServer::pty_request, (server, clients, cols, rows), reply),
    ensures
        final(clients)@.dom() == old(clients)@.dom(),
        other != server.id && old(clients)@.contains_key(other) ==> final(clients)@[other]
            == old(clients)@[other],
        reply is Err ==> reply == Err::<PtyReply, HandleError>(HandleError::BrokenPipe),
        rows % 0x1_0000 == 0 ==> reply is Ok,
        reply is Ok ==> (reply->Ok_0.start_rendering == Some(server.id) <==> forall|id: usize|
         #[trigger]
            old(clients)@.contains_key(id) ==> id == server.id),
        reply is Ok ==> reply->Ok_0.start_rendering is None || reply->Ok_0.start_rendering == Some(
            server.id,
        ),
        ({
            let after = final(clients)@[server.id];
            &&& after.term_size.width == cols % 0x1_0000
            &&& after.term_size.height == rows % 0x1_0000
            &&& after.term_size.target_width == cols
            &&& after.term_size.target_height % 2 == 0
            &&& cols as int * 9 / 16 <= after.term_size.target_height <= cols as int * 9 / 16 + 1
            &&& after.terminal.area.x == 0
            &&& after.terminal.area.y == 0
            &&& after.terminal.area.width == cols % 0x1_0000
            &&& after.terminal.area.height == rows % 0x1_0000
            &&& cleared(
                old(clients)@[server.id].terminal.handle,
                0,
                rows as int % 0x1_0000,
                reply is Ok,
                after.terminal.handle,
            )
        }),
{
    law_report(
        old(clients)@[server.id],
        cols,
        rows,
        resize_result(reply),
        final(clients)@[server.id],
    );
    assert(final(clients)@.dom() == old(clients)@.dom());
    law_registry_is_finite(*old(clients));
    lemma_only_client(server.id, old(clients)@);
}

/// The rendering of a client is started with the size that it has reported last.
pub proof fn law_rendering_has_the_reported_size(
    server: &MinecraftSshServer,
    clients: &mut Clients,
    cols: u32,
    rows: u32,
    reply: Result<PtyReply, HandleError>,
    action: RenderAction,
)
    requires
        old(clients)@.contains_key(server.id),
        call_ensures(MinecraftSshServer::pty_request, (server, clients, cols, rows), reply),
        call_ensures(look_up, (&*final(clients), server.id), action),
    ensures
        action is Spawn,
        action->Spawn_0.width == cols % 0x1_0000,
        action->Spawn_0.height == rows % 0x1_0000,
        action->Spawn_0.target_width == cols,
        action->Spawn_0.target_height % 2 == 0,
        cols as int * 9 / 16 <= action->Spawn_0.target_height <= cols as int * 9 / 16 + 1,
{
    law_pty_request(server, clients, cols, rows, reply, server.id);
    assert(final(clients)@.dom().contains(server.id));
}

} // verus!
