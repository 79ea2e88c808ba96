//! The registry of the clients that are connected.

use std::collections::HashMap;

use vstd::prelude::*;
use vstd::std_specs::hash::*;

use crate::handle::HandleError;
use crate::size::{Area, TerminalSize};
use crate::terminal::{SshTerminal, TerminalView};

verus! {

/// What there is to know of a client.
pub struct ClientView {
    pub terminal: TerminalView,
    pub term_size: TerminalSize,
}

/// The data of one client.
pub struct ClientData {
    pub terminal: SshTerminal,
    pub term_size: TerminalSize,
}

impl View for ClientData {
    type V = ClientView;

    open spec fn view(&self) -> ClientView {
        ClientView { terminal: self.terminal@, term_size: self.term_size }
    }
}

/// The clients that are connected, each under the number of its connection.
pub struct Clients {
    map: HashMap<usize, ClientData>,
}

impl View for Clients {
    type V = Map<usize, ClientView>;

    closed spec fn view(&self) -> Map<usize, ClientView> {
        self.map@.map_values(|data: ClientData| data@)
    }
}

/// Whether `after` is the client `before` once it has reported `cols` columns
/// and `rows` rows and its terminal was resized with `result`. The size is
/// updated whatever the result is.
pub open spec fn resized(
    before: ClientView,
    cols: u32,
    rows: u32,
    result: Result<(), HandleError>,
    after: ClientView,
) -> bool {
    let area = crate::size::area_of_request(cols, rows);
    let chunks = crate::terminal::clear_chunks(area);
    &&& after.term_size == crate::size::size_of_request(cols, rows)
    &&& after.terminal.area == area
    &&& match result {
        Ok(()) => after.terminal.handle == before.terminal.handle.delivered(chunks),
        Err(e) => e == HandleError::BrokenPipe && crate::terminal::refused_within(
            before.terminal.handle,
            chunks,
            after.terminal.handle,
        ),
    }
}

/// Whether one of `clients` is drawn to over `channel`.
pub open spec fn holds_channel(clients: Map<usize, ClientView>, channel: int) -> bool {
    exists|id: usize| #[trigger]
        clients.contains_key(id) && clients[id].terminal.handle.channel == channel
}

/// There are never more than finitely many clients.
pub proof fn law_registry_is_finite(clients: Clients)
    ensures
        clients@.dom().finite(),
{
    broadcast use group_hash_axioms;

    assert(clients@.dom() == clients.map@.dom());
}

impl ClientData {
    /// Takes over the size that the client reports and resizes its terminal.
    pub fn resize(&mut self, cols: u32, rows: u32) -> (result: Result<(), HandleError>)
        ensures
            resized(old(self)@, cols, rows, result, final(self)@),
    {
        self.term_size = TerminalSize::from_request(cols, rows);
        self.terminal.resize(Area::from_request(cols, rows))
    }
}

impl Clients {
    /// A registry without clients.
    pub fn new() -> (clients: Clients)
        ensures
            clients@ == Map::<usize, ClientView>::empty(),
    {
        broadcast use group_hash_axioms;

        let clients = Clients { map: HashMap::new() };
        assert(clients@ == Map::<usize, ClientView>::empty());
        clients
    }

    /// How many clients are connected.
    pub fn len(&self) -> (len: usize)
        ensures
            len == self@.len(),
    {
        broadcast use group_hash_axioms;

        assert(self@.dom() == self.map@.dom());
        self.map.len()
    }

    /// Whether the client `id` is connected.
    pub fn contains(&self, id: usize) -> (found: bool)
        ensures
            found == self@.contains_key(id),
    {
        broadcast use group_hash_axioms;

        self.map.contains_key(&id)
    }

    /// The size of the terminal of the client `id`, if it is connected.
    pub fn term_size(&self, id: usize) -> (size: Option<TerminalSize>)
        ensures
            size == if self@.contains_key(id) {
                Some(self@[id].term_size)
            } else {
                None
            },
    {
        broadcast use group_hash_axioms;

        match self.map.get(&id) {
            Some(data) => Some(data.term_size),
            None => None,
        }
    }

    /// Registers the client `id`, in place of one that has the number already.
    pub fn insert(&mut self, id: usize, data: ClientData)
        ensures
            final(self)@ == old(self)@.insert(id, data@),
    {
        broadcast use group_hash_axioms;

        self.map.insert(id, data);
        assert(self@ == old(self)@.insert(id, data@));
    }

    /// Removes the client `id`, if it is connected.
    pub fn remove(&mut self, id: usize)
        ensures
            final(self)@ == old(self)@.remove(id),
    {
        broadcast use group_hash_axioms;

        self.map.remove(&id);
        assert(self@ == old(self)@.remove(id));
    }

    /// Takes over the size that the client `id` reports and resizes its
    /// terminal. The other clients stay as they are.
    pub fn resize(&mut self, id: usize, cols: u32, rows: u32) -> (result: Result<(), HandleError>)
        requires
            old(self)@.contains_key(id),
        ensures
            resized(old(self)@[id], cols, rows, result, final(self)@[id]),
            final(self)@ == old(self)@.insert(id, final(self)@[id]),
    {
        broadcast use group_hash_axioms;

        let mut data = self.map.remove(&id).unwrap();
        let result = data.resize(cols, rows);
        self.map.insert(id, data);
        assert(self@ == old(self)@.insert(id, data@));
        result
    }

    /// Draws a frame to the terminal of the client `id`. Returns whether the
    /// client is connected.
    pub fn show(&mut self, id: usize, frame: &str) -> (found: bool)
        ensures
            found == old(self)@.contains_key(id),
            !found ==> final(self)@ == old(self)@,
            found ==> {
                let before = old(self)@[id];
                let after = final(self)@[id];
                &&& final(self)@ == old(self)@.insert(id, after)
                &&& after.term_size == before.term_size
                &&& after.terminal.area == before.terminal.area
                &&& crate::terminal::drawn(before.terminal.handle, frame@, after.terminal.handle)
            },
    {
        broadcast use group_hash_axioms;

        match self.map.remove(&id) {
            Some(mut data) => {
                data.terminal.show(frame);
                self.map.insert(id, data);
                assert(self@ == old(self)@.insert(id, data@));
                true
            },
            None => {
                assert(self@ == old(self)@);
                false
            },
        }
    }
}

} // verus!
