//! What holds of the server as a whole, across requests and connections.

use tokio::sync::mpsc::UnboundedReceiver;
use vstd::prelude::*;

use crate::clients::{holds_channel, resized, ClientView, Clients};
use crate::frames::{pump_next, PumpAction, PumpEvent};
use crate::handle::{receiver_channel, HandleError, HandleView};
use crate::rendering::{render_next, RenderAction, RenderEvent};
use crate::server::{
    opened, pty_reply_for, resize_result, DataAction, MinecraftSshServer, PtyReply,
};
use crate::size::{area_of_request, size_of_request, TerminalSize};
use crate::terminal::{clear_chunks, drawn};

verus! {

/// Whether every client has a number that `server` has given away already.
pub open spec fn numbered(server: MinecraftSshServer, clients: Map<usize, ClientView>) -> bool {
    forall|id: usize| #[trigger] clients.contains_key(id) ==> id < server.id
}

/// A server without clients is numbered.
pub proof fn law_new_server_is_numbered(server: MinecraftSshServer)
    ensures
        numbered(server, Map::empty()),
{
}

/// A new connection gets a number that no client has: the session that it opens
/// takes no other client's place, and the registry stays numbered.
pub proof fn law_new_connection_is_fresh(
    server: MinecraftSshServer,
    next: MinecraftSshServer,
    clients: Map<usize, ClientView>,
    channel: int,
)
    requires
        numbered(server, clients),
        next.id == server.id + 1,
    ensures
        !clients.contains_key(server.id),
        numbered(next, clients),
        numbered(next, clients.insert(server.id, opened(channel))),
        clients.submap_of(clients.insert(server.id, opened(channel))),
{
}

/// Whatever a connection that was given its number by `server` does to its own
/// client keeps the registry numbered and the other clients as they are.
pub proof fn law_connections_stay_apart(
    server: MinecraftSshServer,
    connection: MinecraftSshServer,
    clients: Map<usize, ClientView>,
    client: ClientView,
    other: usize,
)
    requires
        numbered(server, clients),
        connection.id < server.id,
        other != connection.id,
    ensures
        numbered(server, clients.insert(connection.id, client)),
        numbered(server, clients.remove(connection.id)),
        clients.insert(connection.id, client).contains_key(other) == clients.contains_key(other),
        clients.remove(connection.id).contains_key(other) == clients.contains_key(other),
        clients.contains_key(other) ==> clients.insert(connection.id, client)[other]
            == clients[other] && clients.remove(connection.id)[other] == clients[other],
{
}

/// A client that has quit or whose connection is gone is no longer drawn to, and
/// its rendering is stopped at the next look. That the connection goes down
/// after the client has quit changes nothing more.
pub proof fn law_leaving_ends_rendering(
    clients: Map<usize, ClientView>,
    id: usize,
    last: Option<String>,
)
    ensures
        !clients.remove(id).contains_key(id),
        pump_next(last, PumpEvent::Shown(clients.remove(id).contains_key(id))).1
            == PumpAction::Finish,
        render_next(RenderEvent::Checked(clients.remove(id).contains_key(id)))
            == RenderAction::Stop,
        clients.remove(id).remove(id) == clients.remove(id),
{
    assert(clients.remove(id).remove(id) == clients.remove(id));
}

/// A granted request for a terminal starts the rendering exactly when the client
/// that asks is the only one.
pub proof fn law_only_client_gets_rendering(id: usize, clients: Map<usize, ClientView>)
    requires
        clients.dom().finite(),
        clients.contains_key(id),
    ensures
        pty_reply_for(id, clients, Ok(())) == Ok::<PtyReply, HandleError>(
            PtyReply { start_rendering: Some(id) },
        ) <==> clients.dom() == set![id],
        pty_reply_for(id, clients, Ok(())) == Ok::<PtyReply, HandleError>(
            PtyReply { start_rendering: None },
        ) <==> clients.dom() != set![id],
{
    assert(clients.dom().contains(id));
    if clients.len() == 1 {
        assert(clients.dom() =~= set![id]) by {
            Set::lemma_is_singleton(clients.dom());
        }
    }
    if clients.dom() == set![id] {
        assert(set![id].len() == 1);
    }
}

/// The first client to open a session on an empty server gets the rendering.
pub proof fn law_first_client_gets_rendering(id: usize, channel: int)
    ensures
        pty_reply_for(id, Map::<usize, ClientView>::empty().insert(id, opened(channel)), Ok(()))
            == Ok::<PtyReply, HandleError>(PtyReply { start_rendering: Some(id) }),
{
    let clients = Map::<usize, ClientView>::empty().insert(id, opened(channel));
    assert(clients.len() == 1);
}

/// Of two reports of a client's size the later one counts, and the viewport is
/// always the one of the size, even where a resize failed. What was handed to the
/// channel before stays handed over.
pub proof fn law_last_report_counts(
    first: ClientView,
    second: ClientView,
    third: ClientView,
    earlier: (u32, u32, Result<(), HandleError>),
    later: (u32, u32, Result<(), HandleError>),
)
    requires
        resized(first, earlier.0, earlier.1, earlier.2, second),
        resized(second, later.0, later.1, later.2, third),
    ensures
        third.term_size == size_of_request(later.0, later.1),
        third.terminal.area == area_of_request(later.0, later.1),
        third.terminal.area.width == third.term_size.width,
        third.terminal.area.height == third.term_size.height,
        third.terminal.handle.channel == first.terminal.handle.channel,
        first.terminal.handle.offers.is_prefix_of(third.terminal.handle.offers),
{
    lemma_resize_offers(first, earlier.0, earlier.1, earlier.2, second);
    lemma_resize_offers(second, later.0, later.1, later.2, third);
}

/// How the offers of a client grow when its terminal is resized: by one for each
/// chunk if the channel takes them all, and else up to the refused one.
proof fn lemma_resize_offers(
    before: ClientView,
    cols: u32,
    rows: u32,
    result: Result<(), HandleError>,
    after: ClientView,
)
    requires
        resized(before, cols, rows, result, after),
    ensures
        after.terminal.handle.channel == before.terminal.handle.channel,
        before.terminal.handle.offers.is_prefix_of(after.terminal.handle.offers),
        result is Ok ==> after.terminal.handle.offers.len() == before.terminal.handle.offers.len()
            + clear_chunks(area_of_request(cols, rows)).len(),
        result is Ok && clear_chunks(area_of_request(cols, rows)).len() > 0
            ==> after.terminal.handle.offers.last().1,
        result is Err ==> {
            let chunks = clear_chunks(area_of_request(cols, rows));
            let taken = after.terminal.handle.offers.len() - before.terminal.handle.offers.len() - 1;
            &&& 0 <= taken < chunks.len()
            &&& !after.terminal.handle.offers.last().1
            &&& after.terminal.handle == before.terminal.handle.delivered(
                chunks.take(taken),
            ).written(chunks[taken]).flushed(false)
        },
{
    let chunks = clear_chunks(area_of_request(cols, rows));
    let handle = before.terminal.handle;
    lemma_delivery_offers(handle, chunks);
    if result is Err {
        let taken = choose|taken: int|
            0 <= taken < chunks.len() && after.terminal.handle == handle.delivered(
                #[trigger] chunks.take(taken),
            ).written(chunks[taken]).flushed(false);
        lemma_delivery_offers(handle, chunks.take(taken));
    }
}

/// How the offers of a handle grow when chunks are delivered.
proof fn lemma_delivery_offers(handle: HandleView, chunks: Seq<Seq<u8>>)
    ensures
        handle.delivered(chunks).channel == handle.channel,
        handle.offers.is_prefix_of(handle.delivered(chunks).offers),
        handle.delivered(chunks).offers.len() == handle.offers.len() + chunks.len(),
        chunks.len() > 0 ==> handle.delivered(chunks).offers.last().1,
    decreases chunks.len(),
{
    if chunks.len() > 0 {
        lemma_delivery_offers(handle, chunks.drop_last());
    }
}

/// The answers that the channel gave to what was handed to it between `before`
/// and `after`: for each chunk, whether it was taken.
pub open spec fn answers(before: ClientView, after: ClientView) -> Seq<bool> {
    after.terminal.handle.offers.skip(before.terminal.handle.offers.len() as int).map_values(
        |offer: (Seq<u8>, bool)| offer.1,
    )
}

/// Two requests for a terminal, or two reports of a size, that start from the same
/// clients and give the same counts have the same result, the same reply and the
/// same effects, if the channel gives them the same answers. Each leaves the other
/// clients and the numbers of all of them as they are.
pub proof fn law_equal_requests_have_equal_effects(
    clients: Map<usize, ClientView>,
    id: usize,
    counts: (u32, u32),
    one: (Result<(), HandleError>, ClientView),
    two: (Result<(), HandleError>, ClientView),
    other: usize,
)
    requires
        clients.contains_key(id),
        resized(clients[id], counts.0, counts.1, one.0, one.1),
        resized(clients[id], counts.0, counts.1, two.0, two.1),
        other != id,
    ensures
        one.1.term_size == two.1.term_size,
        one.1.terminal.area == two.1.terminal.area,
        one.0 is Ok && two.0 is Ok ==> one.1 == two.1,
        answers(clients[id], one.1) == answers(clients[id], two.1) ==> one == two && pty_reply_for(
            id,
            clients,
            one.0,
        ) == pty_reply_for(id, clients, two.0),
        clients.insert(id, one.1).dom() == clients.dom(),
        clients.contains_key(other) ==> clients.insert(id, one.1)[other] == clients[other],
{
    let before = clients[id].terminal.handle.offers;
    lemma_resize_offers(clients[id], counts.0, counts.1, one.0, one.1);
    lemma_resize_offers(clients[id], counts.0, counts.1, two.0, two.1);
    assert(clients.insert(id, one.1).dom() == clients.dom());
    if answers(clients[id], one.1) == answers(clients[id], two.1) {
        let first = one.1.terminal.handle.offers;
        let second = two.1.terminal.handle.offers;
        assert(answers(clients[id], one.1).len() == first.len() - before.len());
        assert(answers(clients[id], two.1).len() == second.len() - before.len());
        assert(first.len() == second.len());
        if first.len() > before.len() {
            assert(answers(clients[id], one.1).last() == first.last().1);
            assert(answers(clients[id], two.1).last() == second.last().1);
        }
        assert(one.0 is Ok <==> two.0 is Ok);
        if one.0 is Ok {
            assert(one.0->Ok_0 == () && two.0->Ok_0 == ());
        } else {
            assert(one.0->Err_0 == two.0->Err_0);
        }
        assert(one.0 == two.0);
        assert(one.1.terminal.handle == two.1.terminal.handle);
        assert(one.1.terminal == two.1.terminal);
    }
}

/// Whether no two of `clients` are drawn to over the same channel.
pub open spec fn channels_apart(clients: Map<usize, ClientView>) -> bool {
    forall|a: usize, b: usize|
        #![trigger clients.contains_key(a), clients.contains_key(b)]
        clients.contains_key(a) && clients.contains_key(b) && a != b
            ==> clients[a].terminal.handle.channel != clients[b].terminal.handle.channel
}

/// A new session over a channel that no client had shares neither its byte channel
/// nor its size with another client, nor with the one whose place it takes: both
/// start anew, and the other clients stay as they are.
pub proof fn law_new_session_shares_nothing(
    clients: Map<usize, ClientView>,
    id: usize,
    channel: int,
    other: usize,
)
    requires
        channels_apart(clients),
        !holds_channel(clients, channel),
    ensures
        ({
            let after = clients.insert(id, opened(channel));
            &&& channels_apart(after)
            &&& after[id].terminal.handle.channel == channel
            &&& after[id].terminal.handle.offers.len() == 0
            &&& after[id].terminal.handle.stream().len() == 0
            &&& after[id].term_size == crate::size::default_size()
            &&& clients.contains_key(other) ==> clients[other].terminal.handle.channel != channel
            &&& clients.contains_key(other) && other != id ==> after[other] == clients[other]
        }),
{
    let after = clients.insert(id, opened(channel));
    assert forall|a: usize, b: usize|
        #![trigger after.contains_key(a), after.contains_key(b)]
        after.contains_key(a) && after.contains_key(b) && a != b implies
        after[a].terminal.handle.channel != after[b].terminal.handle.channel by {
        if a != id {
            assert(clients.contains_key(a));
        }
        if b != id {
            assert(clients.contains_key(b));
        }
    }
}

/// Something that happens to the clients.
pub enum Change {
    /// A connection opens a session over a channel.
    Open { channel: int },
    /// A client quits, or its connection is gone.
    Leave,
    /// A client asks for a terminal or reports a size.
    Report { cols: u32, rows: u32, result: Result<(), HandleError> },
    /// A frame is drawn to a client.
    Draw { frame: Seq<char> },
}

/// Whether `change`, for the client `id`, leads from `before` to `after`.
pub open spec fn changed(
    before: Map<usize, ClientView>,
    id: usize,
    change: Change,
    after: Map<usize, ClientView>,
) -> bool {
    match change {
        Change::Open { channel } => {
            &&& !holds_channel(before, channel)
            &&& after == before.insert(id, opened(channel))
        },
        Change::Leave => after == before.remove(id),
        Change::Report { cols, rows, result } => {
            &&& before.contains_key(id)
            &&& resized(before[id], cols, rows, result, after[id])
            &&& after == before.insert(id, after[id])
        },
        Change::Draw { frame } => if before.contains_key(id) {
            &&& after == before.insert(id, after[id])
            &&& after[id].term_size == before[id].term_size
            &&& after[id].terminal.area == before[id].terminal.area
            &&& drawn(before[id].terminal.handle, frame, after[id].terminal.handle)
        } else {
            after == before
        },
    }
}

/// Whether `states` are what the clients went through from an empty server on,
/// by `changes`.
pub open spec fn history(
    states: Seq<Map<usize, ClientView>>,
    changes: Seq<(usize, Change)>,
) -> bool {
    &&& states.len() == changes.len() + 1
    &&& states[0] == Map::<usize, ClientView>::empty()
    &&& forall|i: int|
        0 <= i < changes.len() ==> changed(
            states[i],
            (#[trigger] changes[i]).0,
            changes[i].1,
            states[i + 1],
        )
}

/// A change concerns one client alone: every other one keeps its number, its size,
/// its channel, what it has collected and what was handed to its channel.
pub proof fn law_change_concerns_one_client(
    before: Map<usize, ClientView>,
    id: usize,
    change: Change,
    after: Map<usize, ClientView>,
    other: usize,
)
    requires
        changed(before, id, change, after),
        other != id,
    ensures
        after.contains_key(other) == before.contains_key(other),
        before.contains_key(other) ==> after[other] == before[other],
{
}

/// Only opening a session gives a client a channel: a report or a frame leaves it
/// the one it has.
pub proof fn law_channel_stays(
    before: Map<usize, ClientView>,
    id: usize,
    change: Change,
    after: Map<usize, ClientView>,
)
    requires
        changed(before, id, change, after),
        !(change is Open),
        after.contains_key(id),
    ensures
        before.contains_key(id),
        after[id].terminal.handle.channel == before[id].terminal.handle.channel,
{
    match change {
        Change::Report { cols, rows, result } => {
            lemma_resize_offers(before[id], cols, rows, result, after[id]);
        },
        _ => {},
    }
}

/// Whatever the clients went through, no two of them are ever drawn to over the
/// same channel.
pub proof fn law_channels_stay_apart(
    states: Seq<Map<usize, ClientView>>,
    changes: Seq<(usize, Change)>,
    i: int,
)
    requires
        history(states, changes),
        0 <= i < states.len(),
    ensures
        channels_apart(states[i]),
    decreases i,
{
    if i > 0 {
        let before = states[i - 1];
        let after = states[i];
        let (id, change) = changes[i - 1];
        assert(changed(before, id, change, after));
        law_channels_stay_apart(states, changes, i - 1);
        assert forall|a: usize, b: usize|
            #![trigger after.contains_key(a), after.contains_key(b)]
            after.contains_key(a) && after.contains_key(b) && a != b implies
            after[a].terminal.handle.channel != after[b].terminal.handle.channel by {
            if a != id {
                law_change_concerns_one_client(before, id, change, after, a);
            }
            if b != id {
                law_change_concerns_one_client(before, id, change, after, b);
            }
            if !(change is Open) && (a == id || b == id) {
                law_channel_stays(before, id, change, after);
            }
        }
    }
}

/// Whatever happens to one client, a resize or a frame among it, leaves the size
/// and the stream of every other one as they are, and goes over a channel that no
/// other client has.
pub proof fn law_change_reaches_no_other_client(
    states: Seq<Map<usize, ClientView>>,
    changes: Seq<(usize, Change)>,
    i: int,
    other: usize,
)
    requires
        history(states, changes),
        0 <= i < changes.len(),
        other != changes[i].0,
        states[i].contains_key(other),
    ensures
        states[i + 1].contains_key(other),
        states[i + 1][other] == states[i][other],
        states[i + 1].contains_key(changes[i].0) ==> states[i
            + 1][changes[i].0].terminal.handle.channel
            != states[i][other].terminal.handle.channel,
{
    let (id, change) = changes[i];
    law_change_concerns_one_client(states[i], id, change, states[i + 1], other);
    law_channels_stay_apart(states, changes, i + 1);
}

/// Whether the picture of a size is the one that belongs to its columns: its height
/// is even, and the least such number that is not below nine sixteenths of its
/// width, rounded down. The width in cells is the low 16 bits of the picture's.
pub open spec fn fits(size: TerminalSize) -> bool {
    &&& size.target_height % 2 == 0
    &&& size.target_width * 9 / 16 <= size.target_height <= size.target_width * 9 / 16 + 1
    &&& size.target_height >= size.width * 9 / 16
    &&& size.width == size.target_width % 0x1_0000
}

/// Whatever the clients went through, every registered size fits its picture, or it
/// is the one of a client that has not reported any: 80 by 24 cells, with a picture
/// of 80 by 48. The picture is never lower than its columns ask for.
pub proof fn law_registered_sizes_fit(
    states: Seq<Map<usize, ClientView>>,
    changes: Seq<(usize, Change)>,
    i: int,
    id: usize,
)
    requires
        history(states, changes),
        0 <= i < states.len(),
        states[i].contains_key(id),
    ensures
        ({
            let size = states[i][id].term_size;
            &&& size.target_height % 2 == 0
            &&& size.target_height >= size.target_width * 9 / 16
            &&& size.target_height >= size.width * 9 / 16
            &&& size.width == size.target_width % 0x1_0000
            &&& size.target_height <= size.target_width * 9 / 16 + 1 || size == (TerminalSize {
                width: 80,
                height: 24,
                target_width: 80,
                target_height: 48,
            })
        }),
    decreases i,
{
    if i > 0 {
        let (touched, change) = changes[i - 1];
        assert(changed(states[i - 1], touched, change, states[i]));
        if id == touched && change is Report {
            lemma_reported_sizes_fit(change->cols, change->rows);
        } else if id == touched && change is Open {
            assert(states[i][id] == opened(change->channel));
        } else {
            assert(states[i - 1].contains_key(id));
            law_registered_sizes_fit(states, changes, i - 1, id);
        }
    }
}

/// The size that a client is registered with is the one that it reported last,
/// whatever was drawn to it since and whatever the others did: the low 16 bits of
/// the counts, and the picture that belongs to the columns.
pub proof fn law_registered_size_is_the_last_report(
    states: Seq<Map<usize, ClientView>>,
    changes: Seq<(usize, Change)>,
    j: int,
    i: int,
    id: usize,
)
    requires
        history(states, changes),
        0 <= j < i < states.len(),
        changes[j].0 == id,
        changes[j].1 is Report,
        forall|k: int| j < k < i && (#[trigger] changes[k]).0 == id ==> changes[k].1 is Draw,
    ensures
        states[i].contains_key(id),
        ({
            let size = states[i][id].term_size;
            let cols = changes[j].1->cols;
            let rows = changes[j].1->rows;
            &&& size.width == cols % 0x1_0000
            &&& size.height == rows % 0x1_0000
            &&& size.target_width == cols
            &&& size.target_height % 2 == 0
            &&& cols as int * 9 / 16 <= size.target_height <= cols as int * 9 / 16 + 1
        }),
    decreases i,
{
    let (touched, change) = changes[i - 1];
    assert(changed(states[i - 1], touched, change, states[i]));
    if i == j + 1 {
        lemma_reported_sizes_fit(change->cols, change->rows);
    } else {
        law_registered_size_is_the_last_report(states, changes, j, i - 1, id);
    }
}

/// Until it reports a size, a client counts as one of 80 by 24 cells with a picture
/// of 80 by 48.
pub proof fn law_unreported_size_is_the_initial_one(
    states: Seq<Map<usize, ClientView>>,
    changes: Seq<(usize, Change)>,
    j: int,
    i: int,
    id: usize,
)
    requires
        history(states, changes),
        0 <= j < i < states.len(),
        changes[j].0 == id,
        changes[j].1 is Open,
        forall|k: int| j < k < i && (#[trigger] changes[k]).0 == id ==> changes[k].1 is Draw,
    ensures
        states[i].contains_key(id),
        states[i][id].term_size.width == 80,
        states[i][id].term_size.height == 24,
        states[i][id].term_size.target_width == 80,
        states[i][id].term_size.target_height == 48,
    decreases i,
{
    let (touched, change) = changes[i - 1];
    assert(changed(states[i - 1], touched, change, states[i]));
    if i > j + 1 {
        law_unreported_size_is_the_initial_one(states, changes, j, i - 1, id);
    }
}

/// The picture of a registered size is the same for the same columns: two reports
/// that differ in their rows alone lead to the same picture.
pub proof fn law_rows_do_not_change_the_registered_picture(
    before: (ClientView, ClientView),
    cols: u32,
    rows: (u32, u32),
    results: (Result<(), HandleError>, Result<(), HandleError>),
    after: (ClientView, ClientView),
)
    requires
        resized(before.0, cols, rows.0, results.0, after.0),
        resized(before.1, cols, rows.1, results.1, after.1),
    ensures
        after.0.term_size.width == after.1.term_size.width,
        after.0.term_size.target_width == after.1.term_size.target_width,
        after.0.term_size.target_height == after.1.term_size.target_height,
{
}

/// Opening a session, quitting, a connection that goes down, a report of a size, a
/// request for a terminal and a drawn frame are the changes that a history is made
/// of.
pub proof fn law_operations_are_changes(
    server: &MinecraftSshServer,
    clients: &mut Clients,
    counts: (u32, u32),
    frame: &str,
)
    ensures
        forall|granted: bool, receiver: UnboundedReceiver<Vec<u8>>| #[trigger]
            call_ensures(
                MinecraftSshServer::channel_open_session,
                (server, clients),
                (granted, receiver),
            ) ==> changed(
                old(clients)@,
                server.id,
                Change::Open { channel: receiver_channel(receiver) },
                final(clients)@,
            ),
        call_ensures(MinecraftSshServer::disconnect, (server, clients), ()) ==> changed(
            old(clients)@,
            server.id,
            Change::Leave,
            final(clients)@,
        ),
        forall|data: &[u8]| #[trigger]
            call_ensures(MinecraftSshServer::data, (server, clients, data), DataAction::CloseChannel)
                ==> changed(old(clients)@, server.id, Change::Leave, final(clients)@),
        forall|data: &[u8]| #[trigger]
            call_ensures(MinecraftSshServer::data, (server, clients, data), DataAction::Ignore)
                ==> final(clients)@ == old(clients)@,
        old(clients)@.contains_key(server.id) ==> forall|result: Result<(), HandleError>| #[trigger]
            call_ensures(
                MinecraftSshServer::window_change_request,
                (server, clients, counts.0, counts.1),
                result,
            ) ==> changed(
                old(clients)@,
                server.id,
                Change::Report { cols: counts.0, rows: counts.1, result },
                final(clients)@,
            ),
        old(clients)@.contains_key(server.id) ==> forall|reply: Result<PtyReply, HandleError>|
         #[trigger]
            call_ensures(
                MinecraftSshServer::pty_request,
                (server, clients, counts.0, counts.1),
                reply,
            ) ==> changed(
                old(clients)@,
                server.id,
                Change::Report { cols: counts.0, rows: counts.1, result: resize_result(reply) },
                final(clients)@,
            ),
        forall|found: bool| #[trigger]
            call_ensures(Clients::show, (clients, server.id, frame), found) ==> changed(
                old(clients)@,
                server.id,
                Change::Draw { frame: frame@ },
                final(clients)@,
            ),
{
}

/// Every size that a client can report fits its picture.
proof fn lemma_reported_sizes_fit(cols: u32, rows: u32)
    ensures
        fits(size_of_request(cols, rows)),
{
}

} // verus!
