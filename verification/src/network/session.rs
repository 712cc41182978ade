use vstd::prelude::*;

verus! {

/// Where a connection stands.
#[derive(Clone, Copy, Debug, PartialEq, Eq, Structural)]
pub enum ConnectionState {
    Disconnected,
    Handshaking,
    Connected,
}

/// What the transport reports of one connection.
#[derive(Clone, Copy, Debug, PartialEq, Eq, Structural)]
pub enum TransportEvent {
    /// The handshake was sent to the server.
    HandshakeSent,
    /// The server accepted the handshake.
    HandshakeAccepted,
    /// Nothing came from the peer for too long.
    TimedOut,
    /// The peer said that it disconnects.
    DisconnectReceived,
}

/// What the lifecycle controller is told of a connection.
#[derive(Clone, Copy, Debug, PartialEq, Eq, Structural)]
pub enum SessionNotice {
    Nothing,
    Connected,
    Disconnected,
}

/// The state of a connection after a report of the transport.
pub open spec fn next_state(state: ConnectionState, event: TransportEvent) -> ConnectionState {
    match (state, event) {
        (ConnectionState::Disconnected, TransportEvent::HandshakeSent) => {
            ConnectionState::Handshaking
        },
        (ConnectionState::Handshaking, TransportEvent::HandshakeAccepted) => {
            ConnectionState::Connected
        },
        (ConnectionState::Handshaking, TransportEvent::TimedOut) => ConnectionState::Disconnected,
        (ConnectionState::Handshaking, TransportEvent::DisconnectReceived) => {
            ConnectionState::Disconnected
        },
        (ConnectionState::Connected, TransportEvent::TimedOut) => ConnectionState::Disconnected,
        (ConnectionState::Connected, TransportEvent::DisconnectReceived) => {
            ConnectionState::Disconnected
        },
        _ => state,
    }
}

/// What the lifecycle controller is told on a report of the transport: that a
/// session began when the handshake is accepted, that it ended when a
/// connected session times out or is closed, and nothing otherwise. A
/// handshake that fails is told to nobody.
pub open spec fn notice_on(state: ConnectionState, event: TransportEvent) -> SessionNotice {
    if state == ConnectionState::Handshaking && next_state(state, event)
        == ConnectionState::Connected {
        SessionNotice::Connected
    } else if state == ConnectionState::Connected && next_state(state, event)
        == ConnectionState::Disconnected {
        SessionNotice::Disconnected
    } else {
        SessionNotice::Nothing
    }
}

/// Moves a connection on by one report of the transport.
pub fn advance(state: ConnectionState, event: TransportEvent) -> (out: (
    ConnectionState,
    SessionNotice,
))
    ensures
        out.0 == next_state(state, event),
        out.1 == notice_on(state, event),
{
    match state {
        ConnectionState::Disconnected => match event {
            TransportEvent::HandshakeSent => (ConnectionState::Handshaking, SessionNotice::Nothing),
            _ => (state, SessionNotice::Nothing),
        },
        ConnectionState::Handshaking => match event {
            TransportEvent::HandshakeAccepted => (
                ConnectionState::Connected,
                SessionNotice::Connected,
            ),
            TransportEvent::TimedOut => (ConnectionState::Disconnected, SessionNotice::Nothing),
            TransportEvent::DisconnectReceived => (
                ConnectionState::Disconnected,
                SessionNotice::Nothing,
            ),
            TransportEvent::HandshakeSent => (state, SessionNotice::Nothing),
        },
        ConnectionState::Connected => match event {
            TransportEvent::TimedOut => (
                ConnectionState::Disconnected,
                SessionNotice::Disconnected,
            ),
            TransportEvent::DisconnectReceived => (
                ConnectionState::Disconnected,
                SessionNotice::Disconnected,
            ),
            _ => (state, SessionNotice::Nothing),
        },
    }
}

/// The state after a run of reports, taken in order.
pub open spec fn state_after(state: ConnectionState, events: Seq<TransportEvent>) -> ConnectionState
    decreases events.len(),
{
    if events.len() == 0 {
        state
    } else {
        next_state(state_after(state, events.drop_last()), events.last())
    }
}

/// The report with which a connection ends: that the peer said so, or that
/// nothing came for too long.
pub open spec fn closing(by_peer: bool) -> TransportEvent {
    if by_peer {
        TransportEvent::DisconnectReceived
    } else {
        TransportEvent::TimedOut
    }
}

/// The reports that take a connection from where it was last seen to where
/// it is seen now: none where it has not moved, the handshake's steps on the
/// way up, the closing report on the way down, and the closing report and a
/// new handshake where a connected session has given way to a handshake.
pub open spec fn reports_between(
    state: ConnectionState,
    observed: ConnectionState,
    by_peer: bool,
) -> Seq<TransportEvent> {
    match (state, observed) {
        (ConnectionState::Disconnected, ConnectionState::Handshaking) => seq![
            TransportEvent::HandshakeSent,
        ],
        (ConnectionState::Disconnected, ConnectionState::Connected) => seq![
            TransportEvent::HandshakeSent,
            TransportEvent::HandshakeAccepted,
        ],
        (ConnectionState::Handshaking, ConnectionState::Connected) => seq![
            TransportEvent::HandshakeAccepted,
        ],
        (ConnectionState::Handshaking, ConnectionState::Disconnected) => seq![closing(by_peer)],
        (ConnectionState::Connected, ConnectionState::Disconnected) => seq![closing(by_peer)],
        (ConnectionState::Connected, ConnectionState::Handshaking) => seq![
            closing(by_peer),
            TransportEvent::HandshakeSent,
        ],
        _ => Seq::empty(),
    }
}

/// The reports that take a connection from where it was last seen to where
/// the transport shows it now. `by_peer` says whether a connection that has
/// ended was closed by the peer.
pub fn catch_up(state: ConnectionState, observed: ConnectionState, by_peer: bool) -> (events: Vec<
    TransportEvent,
>)
    ensures
        events@ == reports_between(state, observed, by_peer),
        state_after(state, events@) == observed,
{
    let closing = if by_peer {
        TransportEvent::DisconnectReceived
    } else {
        TransportEvent::TimedOut
    };
    let mut events: Vec<TransportEvent> = Vec::new();
    match (state, observed) {
        (ConnectionState::Disconnected, ConnectionState::Handshaking) => {
            events.push(TransportEvent::HandshakeSent);
        },
        (ConnectionState::Disconnected, ConnectionState::Connected) => {
            events.push(TransportEvent::HandshakeSent);
            events.push(TransportEvent::HandshakeAccepted);
        },
        (ConnectionState::Handshaking, ConnectionState::Connected) => {
            events.push(TransportEvent::HandshakeAccepted);
        },
        (ConnectionState::Handshaking, ConnectionState::Disconnected) => {
            events.push(closing);
        },
        (ConnectionState::Connected, ConnectionState::Disconnected) => {
            events.push(closing);
        },
        (ConnectionState::Connected, ConnectionState::Handshaking) => {
            events.push(closing);
            events.push(TransportEvent::HandshakeSent);
        },
        _ => {},
    }
    proof {
        let expected = reports_between(state, observed, by_peer);
        assert(events@ =~= expected);
        reveal_with_fuel(state_after, 3);
        if expected.len() == 2 {
            assert(expected.drop_last() =~= seq![expected[0]]);
            assert(expected.drop_last().drop_last() =~= Seq::<TransportEvent>::empty());
        } else if expected.len() == 1 {
            assert(expected.drop_last() =~= Seq::<TransportEvent>::empty());
        }
    }
    events
}

/// How often the lifecycle controller is told of a session's end over a run of
/// reports.
pub open spec fn ends_told(state: ConnectionState, events: Seq<TransportEvent>) -> nat
    decreases events.len(),
{
    if events.len() == 0 {
        0
    } else if notice_on(state_after(state, events.drop_last()), events.last())
        == SessionNotice::Disconnected {
        ends_told(state, events.drop_last()) + 1
    } else {
        ends_told(state, events.drop_last())
    }
}

/// How often the lifecycle controller is told of a session's begin over a run
/// of reports.
pub open spec fn begins_told(state: ConnectionState, events: Seq<TransportEvent>) -> nat
    decreases events.len(),
{
    if events.len() == 0 {
        0
    } else if notice_on(state_after(state, events.drop_last()), events.last())
        == SessionNotice::Connected {
        begins_told(state, events.drop_last()) + 1
    } else {
        begins_told(state, events.drop_last())
    }
}

/// The end of a session is told once: from a connection that is not
/// connected at the start, whatever the transport reports, each session that
/// began has been told to have ended once, but for the one that still runs.
pub proof fn lemma_end_told_once_per_session(events: Seq<TransportEvent>, start: ConnectionState)
    requires
        start != ConnectionState::Connected,
    ensures
        state_after(start, events) == ConnectionState::Connected ==> begins_told(start, events)
            == ends_told(start, events) + 1,
        state_after(start, events) != ConnectionState::Connected ==> begins_told(start, events)
            == ends_told(start, events),
    decreases events.len(),
{
    if events.len() > 0 {
        lemma_end_told_once_per_session(events.drop_last(), start);
    }
}

/// Why the server turns a handshake down.
#[derive(Clone, Copy, Debug, PartialEq, Eq, Structural)]
pub enum Rejection {
    /// The client's build speaks another protocol.
    ProtocolMismatch,
    /// A client of that identifier is connected.
    AlreadyConnected,
    /// As many clients as the server admits are connected.
    ServerFull,
}

/// The server's answer to a handshake. A client is not told of a rejection:
/// its handshake just never completes.
#[derive(Clone, Copy, Debug, PartialEq, Eq, Structural)]
pub enum Handshake {
    Accepted,
    Rejected(Rejection),
}

/// The server's answer to a handshake of `client_id` that presents
/// `protocol_id`, while `clients` are connected.
pub open spec fn answer(
    clients: Seq<u64>,
    max_clients: usize,
    own_protocol_id: u64,
    client_id: u64,
    protocol_id: u64,
) -> Handshake {
    if protocol_id != own_protocol_id {
        Handshake::Rejected(Rejection::ProtocolMismatch)
    } else if clients.contains(client_id) {
        Handshake::Rejected(Rejection::AlreadyConnected)
    } else if clients.len() >= max_clients {
        Handshake::Rejected(Rejection::ServerFull)
    } else {
        Handshake::Accepted
    }
}

/// The connected clients once `client_id` is gone from them.
pub open spec fn without(clients: Seq<u64>, client_id: u64) -> Seq<u64> {
    clients.filter(|id: u64| id != client_id)
}

/// The server's side of the handshakes: who is connected, under a ceiling.
pub struct ServerSession {
    max_clients: usize,
    protocol_id: u64,
    clients: Vec<u64>,
}

impl ServerSession {
    /// No client is connected twice, and no more are connected than the
    /// ceiling admits.
    #[verifier::type_invariant]
    spec fn well_formed(self) -> bool {
        self.clients@.no_duplicates() && self.clients@.len() <= self.max_clients
    }

    /// The identifiers of the connected clients, in the order in which they
    /// connected.
    pub closed spec fn clients(self) -> Seq<u64> {
        self.clients@
    }

    /// The most clients that are admitted at a time.
    pub closed spec fn max_clients(self) -> usize {
        self.max_clients
    }

    /// The protocol identifier that a handshake has to present.
    pub closed spec fn protocol_id(self) -> u64 {
        self.protocol_id
    }

    /// A server that admits up to `max_clients` clients of the given protocol,
    /// none of which is connected yet.
    pub fn new(max_clients: usize, protocol_id: u64) -> (session: Self)
        ensures
            session.clients() == Seq::<u64>::empty(),
            session.max_clients() == max_clients,
            session.protocol_id() == protocol_id,
    {
        ServerSession { max_clients, protocol_id, clients: Vec::new() }
    }

    /// The most clients that are admitted at a time.
    pub fn ceiling(&self) -> (max_clients: usize)
        ensures
            max_clients == self.max_clients(),
    {
        self.max_clients
    }

    /// The protocol identifier that a handshake has to present.
    pub fn protocol(&self) -> (protocol_id: u64)
        ensures
            protocol_id == self.protocol_id(),
    {
        self.protocol_id
    }

    /// What a handshake of `client_id` that presents `protocol_id` would be
    /// answered.
    pub fn admits(&self, client_id: u64, protocol_id: u64) -> (out: Handshake)
        ensures
            out == answer(
                self.clients(),
                self.max_clients(),
                self.protocol_id(),
                client_id,
                protocol_id,
            ),
    {
        if protocol_id != self.protocol_id {
            Handshake::Rejected(Rejection::ProtocolMismatch)
        } else if self.is_connected(client_id) {
            Handshake::Rejected(Rejection::AlreadyConnected)
        } else if self.clients.len() >= self.max_clients {
            Handshake::Rejected(Rejection::ServerFull)
        } else {
            Handshake::Accepted
        }
    }

    /// How many clients are connected.
    pub fn connected_count(&self) -> (count: usize)
        ensures
            count == self.clients().len(),
            count <= self.max_clients(),
            self.clients().no_duplicates(),
    {
        proof {
            use_type_invariant(self);
        }
        self.clients.len()
    }

    /// Whether the client is connected.
    pub fn is_connected(&self, client_id: u64) -> (connected: bool)
        ensures
            connected == self.clients().contains(client_id),
    {
        let mut i: usize = 0;
        while i < self.clients.len()
            invariant
                i <= self.clients@.len(),
                forall|k: int| 0 <= k < i ==> self.clients@[k] != client_id,
            decreases self.clients@.len() - i,
        {
            if self.clients[i] == client_id {
                return true;
            }
            i = i + 1;
        }
        false
    }

    /// Answers a handshake, and counts the client as connected where the
    /// answer is `Accepted`.
    pub fn handshake(&mut self, client_id: u64, protocol_id: u64) -> (out: Handshake)
        ensures
            out == answer(
                old(self).clients(),
                old(self).max_clients(),
                old(self).protocol_id(),
                client_id,
                protocol_id,
            ),
            final(self).max_clients() == old(self).max_clients(),
            final(self).protocol_id() == old(self).protocol_id(),
            out == Handshake::Accepted ==> final(self).clients() == old(self).clients().push(
                client_id,
            ),
            out != Handshake::Accepted ==> final(self).clients() == old(self).clients(),
    {
        proof {
            use_type_invariant(&*self);
        }
        if protocol_id != self.protocol_id {
            Handshake::Rejected(Rejection::ProtocolMismatch)
        } else if self.is_connected(client_id) {
            Handshake::Rejected(Rejection::AlreadyConnected)
        } else if self.clients.len() >= self.max_clients {
            Handshake::Rejected(Rejection::ServerFull)
        } else {
            let ghost before = self.clients@;
            // The list is taken out while it grows, so that it is never seen half done.
            let mut clients: Vec<u64> = Vec::new();
            core::mem::swap(&mut clients, &mut self.clients);
            clients.push(client_id);
            proof {
                assert(clients@ == before.push(client_id));
                assert(before.push(client_id).no_duplicates()) by {
                    assert forall|a: int, b: int|
                        0 <= a < before.len() + 1 && 0 <= b < before.len() + 1 && a
                            != b implies before.push(client_id)[a] != before.push(client_id)[b] by {
                        if a < before.len() && b < before.len() {
                        } else if a < before.len() {
                            assert(before.contains(before[a]));
                        } else {
                            assert(before.contains(before[b]));
                        }
                    }
                }
            }
            self.clients = clients;
            Handshake::Accepted
        }
    }

    /// Ends the session of a client, and says whether there was one to end.
    pub fn disconnect(&mut self, client_id: u64) -> (ended: bool)
        ensures
            ended == old(self).clients().contains(client_id),
            final(self).clients() == without(old(self).clients(), client_id),
            !final(self).clients().contains(client_id),
            final(self).max_clients() == old(self).max_clients(),
            final(self).protocol_id() == old(self).protocol_id(),
    {
        proof {
            use_type_invariant(&*self);
        }
        let ghost before = self.clients@;
        let mut kept: Vec<u64> = Vec::new();
        let mut ended = false;
        let mut i: usize = 0;
        assert(before.take(0) =~= Seq::empty());
        while i < self.clients.len()
            invariant
                self.clients@ == before,
                i <= before.len(),
                kept@ == without(before.take(i as int), client_id),
                ended == before.take(i as int).contains(client_id),
            decreases before.len() - i,
        {
            let id = self.clients[i];
            proof {
                let shorter = before.take(i as int);
                let longer = before.take(i + 1);
                lemma_without_push(shorter, id, client_id);
                assert(longer =~= shorter.push(id));
                if id == client_id {
                    assert(longer[i as int] == client_id);
                } else if longer.contains(client_id) {
                    let k = choose|k: int| 0 <= k < longer.len() && longer[k] == client_id;
                    assert(shorter[k] == client_id);
                } else if shorter.contains(client_id) {
                    let k = choose|k: int| 0 <= k < shorter.len() && shorter[k] == client_id;
                    assert(longer[k] == client_id);
                }
            }
            if id == client_id {
                ended = true;
            } else {
                kept.push(id);
            }
            i = i + 1;
        }
        proof {
            assert(before.take(i as int) =~= before);
            lemma_without(before, client_id);
        }
        self.clients = kept;
        ended
    }
}

/// Taking a client out after one more client came is taking it out before,
/// and then the newcomer comes unless it is the one to take out.
pub proof fn lemma_without_push(clients: Seq<u64>, newcomer: u64, client_id: u64)
    ensures
        without(clients.push(newcomer), client_id) == if newcomer == client_id {
            without(clients, client_id)
        } else {
            without(clients, client_id).push(newcomer)
        },
{
    let keep = |id: u64| id != client_id;
    assert(clients.push(newcomer).drop_last() =~= clients);
    reveal(Seq::filter);
    assert(clients.push(newcomer).filter(keep) == if keep(newcomer) {
        clients.filter(keep).push(newcomer)
    } else {
        clients.filter(keep)
    });
}

/// Among the clients that are left the one that was taken out is not, every
/// other client still is, none is there twice that was not before, and they
/// are no more than before.
pub proof fn lemma_without(clients: Seq<u64>, client_id: u64)
    ensures
        !without(clients, client_id).contains(client_id),
        forall|id: u64|
            id != client_id ==> (#[trigger] without(clients, client_id).contains(id)
                <==> clients.contains(id)),
        without(clients, client_id).len() <= clients.len(),
        clients.no_duplicates() ==> without(clients, client_id).no_duplicates(),
        clients.no_duplicates() && clients.contains(client_id) ==> without(
            clients,
            client_id,
        ).len() == clients.len() - 1,
    decreases clients.len(),
{
    let keep = |id: u64| id != client_id;
    if clients.len() == 0 {
        reveal(Seq::filter);
        assert(without(clients, client_id) =~= Seq::empty());
    } else {
        let earlier = clients.drop_last();
        let last = clients.last();
        lemma_without(earlier, client_id);
        assert(clients =~= earlier.push(last));
        lemma_without_push(earlier, last, client_id);
        let left = without(clients, client_id);
        let left_earlier = without(earlier, client_id);
        assert forall|id: u64| id != client_id implies (#[trigger] left.contains(id)
            <==> clients.contains(id)) by {
            if left.contains(id) {
                let k = choose|k: int| 0 <= k < left.len() && left[k] == id;
                if last != client_id && k == left.len() - 1 {
                    assert(clients[clients.len() - 1] == id);
                } else {
                    assert(left_earlier[k] == id);
                    assert(left_earlier.contains(id));
                    let j = choose|j: int| 0 <= j < earlier.len() && earlier[j] == id;
                    assert(clients[j] == id);
                }
            }
            if clients.contains(id) {
                let j = choose|j: int| 0 <= j < clients.len() && clients[j] == id;
                if j == clients.len() - 1 {
                    assert(left[left.len() - 1] == id);
                } else {
                    assert(earlier[j] == id);
                    assert(earlier.contains(id));
                    assert(left_earlier.contains(id));
                    let k = choose|k: int| 0 <= k < left_earlier.len() && left_earlier[k] == id;
                    assert(left[k] == id);
                }
            }
        }
        if left.contains(client_id) {
            let k = choose|k: int| 0 <= k < left.len() && left[k] == client_id;
            if last != client_id && k == left.len() - 1 {
            } else {
                assert(left_earlier[k] == client_id);
                assert(left_earlier.contains(client_id));
            }
        }
        if clients.no_duplicates() {
            assert(earlier.no_duplicates());
            if last != client_id {
                assert(!earlier.contains(last)) by {
                    if earlier.contains(last) {
                        let j = choose|j: int| 0 <= j < earlier.len() && earlier[j] == last;
                        assert(clients[j] == clients[clients.len() - 1]);
                    }
                }
                assert(!left_earlier.contains(last));
                assert(left.no_duplicates()) by {
                    assert forall|a: int, b: int|
                        0 <= a < left.len() && 0 <= b < left.len() && a != b implies left[a]
                        != left[b] by {
                        if a < left_earlier.len() && b < left_earlier.len() {
                        } else if a < left_earlier.len() {
                            assert(left_earlier.contains(left_earlier[a]));
                        } else {
                            assert(left_earlier.contains(left_earlier[b]));
                        }
                    }
                }
                if clients.contains(client_id) {
                    let j = choose|j: int| 0 <= j < clients.len() && clients[j] == client_id;
                    assert(earlier[j] == client_id);
                    assert(earlier.contains(client_id));
                }
            } else {
                assert(!earlier.contains(client_id)) by {
                    if earlier.contains(client_id) {
                        let j = choose|j: int| 0 <= j < earlier.len() && earlier[j] == client_id;
                        assert(clients[j] == clients[clients.len() - 1]);
                    }
                }
                lemma_without_absent(earlier, client_id);
            }
        }
    }
}

/// Taking out a client that is not there changes nothing.
pub proof fn lemma_without_absent(clients: Seq<u64>, client_id: u64)
    requires
        !clients.contains(client_id),
    ensures
        without(clients, client_id) == clients,
    decreases clients.len(),
{
    if clients.len() == 0 {
        reveal(Seq::filter);
        assert(without(clients, client_id) =~= clients);
    } else {
        let earlier = clients.drop_last();
        let last = clients.last();
        assert(clients =~= earlier.push(last));
        assert(!earlier.contains(client_id)) by {
            if earlier.contains(client_id) {
                let j = choose|j: int| 0 <= j < earlier.len() && earlier[j] == client_id;
                assert(clients[j] == client_id);
            }
        }
        assert(last != client_id) by {
            assert(clients[clients.len() - 1] == last);
        }
        lemma_without_absent(earlier, client_id);
        lemma_without_push(earlier, last, client_id);
    }
}

/// A server at its ceiling turns down the handshake of one more client, and
/// once one of the connected clients is gone it accepts that handshake.
pub proof fn lemma_ceiling(
    clients: Seq<u64>,
    max_clients: usize,
    protocol_id: u64,
    newcomer: u64,
    leaver: u64,
)
    requires
        clients.no_duplicates(),
        clients.len() == max_clients,
        !clients.contains(newcomer),
        clients.contains(leaver),
    ensures
        answer(clients, max_clients, protocol_id, newcomer, protocol_id) == Handshake::Rejected(
            Rejection::ServerFull,
        ),
        answer(without(clients, leaver), max_clients, protocol_id, newcomer, protocol_id)
            == Handshake::Accepted,
{
    lemma_without(clients, leaver);
    assert(newcomer != leaver);
}

} // verus!
