use super::channel::{
    decode_frames, decoded, pumps_for, ChannelRegistry, NetworkEventDirection, Pump, Side,
};
use super::client_entity_mapper::ClientEntityMapper;
use super::configuration::PROTOCOL_ID;
use super::event_types::{Addressee, ReceiveFromClient, SendToClient};
use super::events::{
    CreateEntity, DestroyEntity, Entity, EntityPosition, GetPlayerEntity, GetWorldState, Message,
    MessageKind, PlayerEntity, PlayerInput,
};
use super::identity_map::lookup;
use vstd::prelude::*;

verus! {

/// What the transport reports of a connection. A client that connected comes
/// with the entity that was spawned as its avatar.
#[derive(Clone, Copy, Debug, PartialEq, Eq, Structural)]
pub enum ServerEvent {
    ClientConnected { client_id: u64, entity: Entity },
    ClientDisconnected { client_id: u64 },
}

/// What the server does about one report of the transport.
#[derive(Clone, Copy, Debug, PartialEq, Eq)]
pub enum Notice {
    /// Tell the other clients of a newcomer's avatar.
    Created(SendToClient<CreateEntity>),
    /// Destroy the avatar of a client that left, and tell the clients.
    Destroyed(SendToClient<DestroyEntity>),
    /// A client left that had no avatar: worth a warning, nothing else.
    Unmapped(u64),
}

/// The message that tells every client but the newcomer of the newcomer's
/// avatar.
pub open spec fn created(client: u64, entity: Entity) -> SendToClient<CreateEntity> {
    SendToClient { client: Addressee::AllBut(client), message: CreateEntity { entity } }
}

/// The message that tells every client that an entity is gone.
pub open spec fn destroyed(entity: Entity) -> SendToClient<DestroyEntity> {
    SendToClient { client: Addressee::All, message: DestroyEntity { entity } }
}

/// The mapper's entries after one report.
pub open spec fn after(entries: Map<u64, u64>, event: ServerEvent) -> Map<u64, u64> {
    match event {
        ServerEvent::ClientConnected { client_id, entity } => entries.insert(client_id, entity.0),
        ServerEvent::ClientDisconnected { client_id } => entries.remove(client_id),
    }
}

/// What the server does about one report, given the mapper's entries before it.
pub open spec fn notice(entries: Map<u64, u64>, event: ServerEvent) -> Notice {
    match event {
        ServerEvent::ClientConnected { client_id, entity } => Notice::Created(
            created(client_id, entity),
        ),
        ServerEvent::ClientDisconnected { client_id } => {
            if entries.contains_key(client_id) {
                Notice::Destroyed(destroyed(Entity(entries[client_id])))
            } else {
                Notice::Unmapped(client_id)
            }
        },
    }
}

/// The mapper's entries after a run of reports, taken in order.
pub open spec fn after_all(entries: Map<u64, u64>, events: Seq<ServerEvent>) -> Map<u64, u64>
    decreases events.len(),
{
    if events.len() == 0 {
        entries
    } else {
        after(after_all(entries, events.drop_last()), events.last())
    }
}

/// What the server does about a run of reports: one notice for each, in order.
pub open spec fn notices(entries: Map<u64, u64>, events: Seq<ServerEvent>) -> Seq<Notice>
    decreases events.len(),
{
    if events.len() == 0 {
        Seq::empty()
    } else {
        notices(entries, events.drop_last()).push(
            notice(after_all(entries, events.drop_last()), events.last()),
        )
    }
}

/// How many of the notices tell of a destroyed entity.
pub open spec fn destroyed_count(notices: Seq<Notice>) -> nat
    decreases notices.len(),
{
    if notices.len() == 0 {
        0
    } else if notices.last() is Destroyed {
        destroyed_count(notices.drop_last()) + 1
    } else {
        destroyed_count(notices.drop_last())
    }
}

/// How many of the reports are of a client that connected.
pub open spec fn connected_count(events: Seq<ServerEvent>) -> nat
    decreases events.len(),
{
    if events.len() == 0 {
        0
    } else if events.last() is ClientConnected {
        connected_count(events.drop_last()) + 1
    } else {
        connected_count(events.drop_last())
    }
}

/// Whether the reports are those of one client's sessions, one after the
/// other: a connect, then its disconnect, then a connect again, and so on.
pub open spec fn sessions_of(events: Seq<ServerEvent>, client: u64) -> bool {
    forall|i: int|
        0 <= i < events.len() ==> if i % 2 == 0 {
            #[trigger] events[i] matches ServerEvent::ClientConnected { client_id, .. }
                && client_id == client
        } else {
            events[i] == (ServerEvent::ClientDisconnected { client_id: client })
        }
}

/// Reacts to one client that connected: maps the client to its avatar and
/// tells every other client of the avatar.
pub fn client_connected(mapper: &mut ClientEntityMapper, client: u64, entity: Entity) -> (out:
    SendToClient<CreateEntity>)
    ensures
        final(mapper)@ == old(mapper)@.insert(client, entity.0),
        out == created(client, entity),
{
    mapper.insert(client, entity);
    SendToClient { client: Addressee::AllBut(client), message: CreateEntity { entity } }
}

/// Reacts to one client that left: forgets the client and, where it had an
/// avatar, returns the message that tells every client that the avatar is gone.
/// The avatar to destroy is the entity of that message.
pub fn client_disconnected(mapper: &mut ClientEntityMapper, client: u64) -> (out: Option<
    SendToClient<DestroyEntity>,
>)
    ensures
        final(mapper)@ == old(mapper)@.remove(client),
        !final(mapper)@.contains_key(client),
        out == (if old(mapper)@.contains_key(client) {
            Some(destroyed(Entity(old(mapper)@[client])))
        } else {
            None
        }),
{
    match mapper.remove(client) {
        Some(entity) => Some(
            SendToClient { client: Addressee::All, message: DestroyEntity { entity } },
        ),
        None => None,
    }
}

/// Reacts to the transport's reports in order: keeps the mapper up to date
/// and returns one notice for each report.
pub fn handle_events(mapper: &mut ClientEntityMapper, events: &Vec<ServerEvent>) -> (out: Vec<
    Notice,
>)
    ensures
        final(mapper)@ == after_all(old(mapper)@, events@),
        out@ == notices(old(mapper)@, events@),
{
    let mut out: Vec<Notice> = Vec::new();
    let mut i: usize = 0;
    assert(events@.take(0) =~= Seq::empty());
    while i < events.len()
        invariant
            i <= events@.len(),
            mapper@ == after_all(old(mapper)@, events@.take(i as int)),
            out@ == notices(old(mapper)@, events@.take(i as int)),
        decreases events@.len() - i,
    {
        let ghost before = mapper@;
        assert(events@.take(i + 1).drop_last() =~= events@.take(i as int));
        assert(events@.take(i + 1).last() == events@[i as int]);
        match events[i] {
            ServerEvent::ClientConnected { client_id, entity } => {
                let message = client_connected(mapper, client_id, entity);
                out.push(Notice::Created(message));
            },
            ServerEvent::ClientDisconnected { client_id } => {
                match client_disconnected(mapper, client_id) {
                    Some(message) => {
                        out.push(Notice::Destroyed(message));
                    },
                    None => {
                        out.push(Notice::Unmapped(client_id));
                    },
                }
            },
        }
        i = i + 1;
    }
    assert(events@.take(i as int) =~= events@);
    out
}

/// After a client's disconnect the mapper holds nothing for that client,
/// whatever came before.
pub proof fn lemma_disconnect_purges(entries: Map<u64, u64>, events: Seq<ServerEvent>, client: u64)
    requires
        events.len() > 0,
        events.last() == (ServerEvent::ClientDisconnected { client_id: client }),
    ensures
        !after_all(entries, events).contains_key(client),
{
}

/// Over the sessions of one client that had no avatar at the start, every
/// disconnect destroys the avatar of the connect before it: there is one
/// "entity destroyed" notice for each connect that a disconnect has followed,
/// and after each disconnect the client is not mapped.
pub proof fn lemma_one_destroyed_per_session(
    entries: Map<u64, u64>,
    events: Seq<ServerEvent>,
    client: u64,
)
    requires
        !entries.contains_key(client),
        sessions_of(events, client),
    ensures
        destroyed_count(notices(entries, events)) == events.len() / 2,
        connected_count(events) == (events.len() + 1) / 2,
        events.len() % 2 == 0 ==> !after_all(entries, events).contains_key(client),
        events.len() % 2 == 1 ==> after_all(entries, events).contains_key(client),
        events.len() % 2 == 0 ==> destroyed_count(notices(entries, events)) == connected_count(
            events,
        ),
    decreases events.len(),
{
    if events.len() > 0 {
        let earlier = events.drop_last();
        assert(sessions_of(earlier, client)) by {
            assert forall|i: int| 0 <= i < earlier.len() implies if i % 2 == 0 {
                #[trigger] earlier[i] matches ServerEvent::ClientConnected { client_id, .. }
                    && client_id == client
            } else {
                earlier[i] == (ServerEvent::ClientDisconnected { client_id: client })
            } by {
                assert(earlier[i] == events[i]);
            }
        }
        lemma_one_destroyed_per_session(entries, earlier, client);
        let last = events[events.len() - 1];
        assert(last == events.last());
        assert(notices(entries, events).drop_last() =~= notices(entries, earlier));
    }
}

/// The client that a report is about.
pub open spec fn client_of(event: ServerEvent) -> u64 {
    match event {
        ServerEvent::ClientConnected { client_id, .. } => client_id,
        ServerEvent::ClientDisconnected { client_id } => client_id,
    }
}

/// The reports about one client among the reports about all, in order.
pub open spec fn of_client(events: Seq<ServerEvent>, client: u64) -> Seq<ServerEvent>
    decreases events.len(),
{
    if events.len() == 0 {
        Seq::empty()
    } else if client_of(events.last()) == client {
        of_client(events.drop_last(), client).push(events.last())
    } else {
        of_client(events.drop_last(), client)
    }
}

/// How many of the notices about a run of reports tell that an avatar of the
/// given client was destroyed.
pub open spec fn destroyed_of(entries: Map<u64, u64>, events: Seq<ServerEvent>, client: u64) -> nat
    decreases events.len(),
{
    if events.len() == 0 {
        0
    } else if client_of(events.last()) == client && notice(
        after_all(entries, events.drop_last()),
        events.last(),
    ) is Destroyed {
        destroyed_of(entries, events.drop_last(), client) + 1
    } else {
        destroyed_of(entries, events.drop_last(), client)
    }
}

/// What becomes of a client does not depend on the reports about the others:
/// its avatar and the notices of its destroyed avatars are those that its own
/// reports alone would give.
pub proof fn lemma_clients_do_not_interfere(
    entries: Map<u64, u64>,
    events: Seq<ServerEvent>,
    client: u64,
)
    ensures
        lookup(after_all(entries, events), client) == lookup(
            after_all(entries, of_client(events, client)),
            client,
        ),
        destroyed_of(entries, events, client) == destroyed_count(
            notices(entries, of_client(events, client)),
        ),
    decreases events.len(),
{
    if events.len() > 0 {
        let earlier = events.drop_last();
        let last = events.last();
        lemma_clients_do_not_interfere(entries, earlier, client);
        if client_of(last) == client {
            let own = of_client(earlier, client);
            assert(of_client(events, client).drop_last() =~= own);
            assert(of_client(events, client).last() == last);
            assert(notices(entries, of_client(events, client)).drop_last() =~= notices(
                entries,
                own,
            ));
        }
    }
}

/// Over the reports about many clients, in which those about one client
/// are its sessions one after the other, and at whose start that client had
/// no avatar: each of its disconnects destroys the avatar of the connect
/// before it, once, and leaves the client without an entry.
pub proof fn lemma_one_destroyed_per_session_among_many(
    entries: Map<u64, u64>,
    events: Seq<ServerEvent>,
    client: u64,
)
    requires
        !entries.contains_key(client),
        sessions_of(of_client(events, client), client),
    ensures
        destroyed_of(entries, events, client) == of_client(events, client).len() / 2,
        of_client(events, client).len() % 2 == 0 ==> !after_all(entries, events).contains_key(
            client,
        ) && destroyed_of(entries, events, client) == connected_count(
            of_client(events, client),
        ),
        of_client(events, client).len() % 2 == 1 ==> after_all(entries, events).contains_key(
            client,
        ),
{
    lemma_clients_do_not_interfere(entries, events, client);
    lemma_one_destroyed_per_session(entries, of_client(events, client), client);
}

/// Answers each "which entity is mine" request of a client that has an
/// avatar, to that client alone. A request of a client without one gets no
/// answer.
pub open spec fn player_entity_replies(
    entries: Map<u64, u64>,
    requests: Seq<ReceiveFromClient<GetPlayerEntity>>,
) -> Seq<SendToClient<PlayerEntity>>
    decreases requests.len(),
{
    if requests.len() == 0 {
        Seq::empty()
    } else {
        let earlier = player_entity_replies(entries, requests.drop_last());
        let client = requests.last().client;
        if entries.contains_key(client) {
            earlier.push(
                SendToClient {
                    client: Addressee::One(client),
                    message: PlayerEntity { entity: Entity(entries[client]) },
                },
            )
        } else {
            earlier
        }
    }
}

/// Answers the "which entity is mine" requests, in order.
pub fn send_player_entity(
    events: &Vec<ReceiveFromClient<GetPlayerEntity>>,
    mapper: &ClientEntityMapper,
) -> (out: Vec<SendToClient<PlayerEntity>>)
    ensures
        out@ == player_entity_replies(mapper@, events@),
{
    let mut out: Vec<SendToClient<PlayerEntity>> = Vec::new();
    let mut i: usize = 0;
    assert(events@.take(0) =~= Seq::empty());
    while i < events.len()
        invariant
            i <= events@.len(),
            out@ == player_entity_replies(mapper@, events@.take(i as int)),
        decreases events@.len() - i,
    {
        assert(events@.take(i + 1).drop_last() =~= events@.take(i as int));
        let client = events[i].client;
        match mapper.map_client(client) {
            Some(entity) => {
                out.push(
                    SendToClient {
                        client: Addressee::One(client),
                        message: PlayerEntity { entity },
                    },
                );
            },
            None => {},
        }
        i = i + 1;
    }
    assert(events@.take(i as int) =~= events@);
    out
}

/// Answers each "give me world state" request with one "create entity"
/// message for each entity of the world, to the requester alone.
pub fn send_world_state(
    events: &Vec<ReceiveFromClient<GetWorldState>>,
    entities: &Vec<Entity>,
) -> (out: Vec<SendToClient<CreateEntity>>)
    ensures
        out@.len() == events@.len() * entities@.len(),
        forall|i: int, j: int|
            0 <= i < events@.len() && 0 <= j < entities@.len() ==> #[trigger] out@[i
                * entities@.len() + j] == (SendToClient {
                client: Addressee::One(events@[i].client),
                message: CreateEntity { entity: entities@[j] },
            }),
{
    let mut out: Vec<SendToClient<CreateEntity>> = Vec::new();
    let mut i: usize = 0;
    let n = entities.len();
    while i < events.len()
        invariant
            i <= events@.len(),
            n == entities@.len(),
            out@.len() == i * n,
            forall|a: int, b: int|
                0 <= a < i && 0 <= b < n ==> #[trigger] out@[a * n + b] == (SendToClient {
                    client: Addressee::One(events@[a].client),
                    message: CreateEntity { entity: entities@[b] },
                }),
        decreases events@.len() - i,
    {
        let client = events[i].client;
        let mut j: usize = 0;
        while j < n
            invariant
                i < events@.len(),
                j <= n,
                n == entities@.len(),
                client == events@[i as int].client,
                out@.len() == i * n + j,
                forall|a: int, b: int|
                    0 <= a < i && 0 <= b < n ==> #[trigger] out@[a * n + b] == (SendToClient {
                        client: Addressee::One(events@[a].client),
                        message: CreateEntity { entity: entities@[b] },
                    }),
                forall|b: int|
                    0 <= b < j ==> #[trigger] out@[i * n + b] == (SendToClient {
                        client: Addressee::One(client),
                        message: CreateEntity { entity: entities@[b] },
                    }),
            decreases n - j,
        {
            let ghost before = out@;
            out.push(
                SendToClient {
                    client: Addressee::One(client),
                    message: CreateEntity { entity: entities[j] },
                },
            );
            proof {
                assert forall|a: int, b: int| 0 <= a < i && 0 <= b < n implies #[trigger] out@[a
                    * n + b] == (SendToClient {
                    client: Addressee::One(events@[a].client),
                    message: CreateEntity { entity: entities@[b] },
                }) by {
                    lemma_cell_index(a, b, i as int, n as int);
                    assert(out@[a * n + b] == before[a * n + b]);
                }
                assert forall|b: int| 0 <= b < j + 1 implies #[trigger] out@[i * n + b] == (
                SendToClient {
                    client: Addressee::One(client),
                    message: CreateEntity { entity: entities@[b] },
                }) by {
                    if b < j {
                        assert(out@[i * n + b] == before[i * n + b]);
                    }
                }
            }
            j = j + 1;
        }
        proof {
            assert((i + 1) * n == i * n + n) by (nonlinear_arith);
            assert forall|a: int, b: int| 0 <= a < i + 1 && 0 <= b < n implies #[trigger] out@[a
                * n + b] == (SendToClient {
                client: Addressee::One(events@[a].client),
                message: CreateEntity { entity: entities@[b] },
            }) by {
                if a == i {
                    assert(out@[i * n + b] == (SendToClient {
                        client: Addressee::One(client),
                        message: CreateEntity { entity: entities@[b] },
                    }));
                }
            }
        }
        i = i + 1;
    }
    out
}

/// The cell of row `a` and column `b` lies before the end of row `rows - 1`.
proof fn lemma_cell_index(a: int, b: int, rows: int, width: int)
    requires
        0 <= a < rows,
        0 <= b < width,
    ensures
        0 <= a * width + b < rows * width,
{
    assert(a * width + b < rows * width) by (nonlinear_arith)
        requires
            0 <= a < rows,
            0 <= b < width,
    ;
    assert(0 <= a * width + b) by (nonlinear_arith)
        requires
            0 <= a,
            0 <= b,
            0 < width,
    ;
}

/// For each input that came from a client with an avatar, the avatar and the
/// input that it is to have. Input of a client without an avatar is left out.
pub open spec fn input_updates(
    entries: Map<u64, u64>,
    inputs: Seq<ReceiveFromClient<PlayerInput>>,
) -> Seq<(Entity, PlayerInput)>
    decreases inputs.len(),
{
    if inputs.len() == 0 {
        Seq::empty()
    } else {
        let earlier = input_updates(entries, inputs.drop_last());
        let client = inputs.last().client;
        if entries.contains_key(client) {
            earlier.push((Entity(entries[client]), inputs.last().message))
        } else {
            earlier
        }
    }
}

/// Routes the inputs that came from clients to the clients' avatars, in order.
pub fn update_input(
    events: &Vec<ReceiveFromClient<PlayerInput>>,
    mapper: &ClientEntityMapper,
) -> (out: Vec<(Entity, PlayerInput)>)
    ensures
        out@ == input_updates(mapper@, events@),
{
    let mut out: Vec<(Entity, PlayerInput)> = Vec::new();
    let mut i: usize = 0;
    assert(events@.take(0) =~= Seq::empty());
    while i < events.len()
        invariant
            i <= events@.len(),
            out@ == input_updates(mapper@, events@.take(i as int)),
        decreases events@.len() - i,
    {
        assert(events@.take(i + 1).drop_last() =~= events@.take(i as int));
        let client = events[i].client;
        match mapper.map_client(client) {
            Some(entity) => {
                out.push((entity, events[i].message));
            },
            None => {},
        }
        i = i + 1;
    }
    assert(events@.take(i as int) =~= events@);
    out
}

/// Addresses the position of each entity that moved to every client.
pub fn send_positions(moved: &Vec<EntityPosition>) -> (out: Vec<SendToClient<EntityPosition>>)
    ensures
        out@.len() == moved@.len(),
        forall|i: int|
            0 <= i < moved@.len() ==> #[trigger] out@[i] == (SendToClient {
                client: Addressee::All,
                message: moved@[i],
            }),
{
    let mut out: Vec<SendToClient<EntityPosition>> = Vec::new();
    let mut i: usize = 0;
    while i < moved.len()
        invariant
            i <= moved@.len(),
            out@.len() == i,
            forall|k: int|
                0 <= k < i ==> #[trigger] out@[k] == (SendToClient {
                    client: Addressee::All,
                    message: moved@[k],
                }),
        decreases moved@.len() - i,
    {
        out.push(SendToClient { client: Addressee::All, message: moved[i] });
        i = i + 1;
    }
    out
}

/// A frame for the transport to deliver, with whom it is for.
#[derive(Clone, Debug, PartialEq, Eq)]
pub struct Outbound {
    pub client: Addressee,
    pub payload: Vec<u8>,
}

impl View for Outbound {
    type V = (Addressee, Seq<u8>);

    open spec fn view(&self) -> (Addressee, Seq<u8>) {
        (self.client, self.payload@)
    }
}

/// The frames of the messages that have an encoding, each with the client
/// that it is for, in order. A message without an encoding adds nothing.
pub open spec fn outbound<T: Message>(events: Seq<SendToClient<T>>) -> Seq<(Addressee, Seq<u8>)>
    decreases events.len(),
{
    if events.len() == 0 {
        Seq::empty()
    } else {
        let earlier = outbound(events.drop_last());
        if events.last().message.encodable() {
            earlier.push((events.last().client, events.last().message.wire()))
        } else {
            earlier
        }
    }
}

/// Drains the queue of messages to send: encodes each and hands it on with
/// the client that it is for. A message that does not encode is dropped.
pub fn send_messages<T: Message>(events: &Vec<SendToClient<T>>) -> (out: Vec<Outbound>)
    ensures
        out@.len() == outbound(events@).len(),
        forall|k: int| 0 <= k < out@.len() ==> (#[trigger] out@[k])@ == outbound(events@)[k],
{
    let mut out: Vec<Outbound> = Vec::new();
    let mut i: usize = 0;
    assert(events@.take(0) =~= Seq::empty());
    while i < events.len()
        invariant
            i <= events@.len(),
            out@.len() == outbound(events@.take(i as int)).len(),
            forall|k: int|
                0 <= k < out@.len() ==> (#[trigger] out@[k])@ == outbound(
                    events@.take(i as int),
                )[k],
        decreases events@.len() - i,
    {
        assert(events@.take(i + 1).drop_last() =~= events@.take(i as int));
        match events[i].message.encode() {
            Ok(payload) => {
                out.push(Outbound { client: events[i].client, payload });
            },
            Err(_) => {},
        }
        i = i + 1;
    }
    assert(events@.take(i as int) =~= events@);
    out
}

/// The messages of type `T` that the frames of each client hold, each with
/// its client, client after client. A frame that does not decode adds nothing.
pub open spec fn received<T: Message>(inbox: Seq<(u64, Vec<Vec<u8>>)>) -> Seq<ReceiveFromClient<T>>
    decreases inbox.len(),
{
    if inbox.len() == 0 {
        Seq::empty()
    } else {
        received::<T>(inbox.drop_last()) + from_client(
            inbox.last().0,
            decoded::<T>(inbox.last().1@),
        )
    }
}

/// The given messages as messages that came from `client`.
pub open spec fn from_client<T>(client: u64, messages: Seq<T>) -> Seq<ReceiveFromClient<T>> {
    Seq::new(messages.len(), |k: int| ReceiveFromClient { client, message: messages[k] })
}

/// Reads what came in on the channel of `T`: for each client all of its
/// frames, decoded as `T`. A frame that does not decode is dropped; nothing
/// else happens on its account.
pub fn receive_messages<T: Message>(inbox: &Vec<(u64, Vec<Vec<u8>>)>) -> (out: Vec<
    ReceiveFromClient<T>,
>)
    ensures
        out@ == received::<T>(inbox@),
{
    let mut out: Vec<ReceiveFromClient<T>> = Vec::new();
    let mut i: usize = 0;
    assert(inbox@.take(0) =~= Seq::empty());
    while i < inbox.len()
        invariant
            i <= inbox@.len(),
            out@ == received::<T>(inbox@.take(i as int)),
        decreases inbox@.len() - i,
    {
        assert(inbox@.take(i + 1).drop_last() =~= inbox@.take(i as int));
        let client = inbox[i].0;
        let messages = decode_frames::<T>(&inbox[i].1);
        let ghost start = out@;
        let mut j: usize = 0;
        while j < messages.len()
            invariant
                j <= messages@.len(),
                out@ == start + from_client(client, messages@.take(j as int)),
            decreases messages@.len() - j,
        {
            out.push(ReceiveFromClient { client, message: messages[j] });
            assert(out@ =~= start + from_client(client, messages@.take(j + 1)));
            j = j + 1;
        }
        assert(messages@.take(j as int) =~= messages@);
        i = i + 1;
    }
    assert(inbox@.take(i as int) =~= inbox@);
    out
}

/// The most clients that the server admits at a time.
pub const MAX_CLIENTS: usize = 64;

/// What the server's transport is set up with.
pub struct ServerSetup {
    pub max_clients: usize,
    pub protocol_id: u64,
    pub channels: ChannelRegistry,
}

/// The kinds that the server registers, with the direction of each.
pub open spec fn server_pumps() -> Seq<Pump> {
    pumps_for(Side::Server, MessageKind::PlayerInput, NetworkEventDirection::Receive) + pumps_for(
        Side::Server,
        MessageKind::EntityPosition,
        NetworkEventDirection::Send,
    ) + pumps_for(Side::Server, MessageKind::CreateEntity, NetworkEventDirection::Send)
        + pumps_for(Side::Server, MessageKind::DestroyEntity, NetworkEventDirection::Send)
        + pumps_for(Side::Server, MessageKind::GetWorldState, NetworkEventDirection::Receive)
        + pumps_for(Side::Server, MessageKind::GetPlayerEntity, NetworkEventDirection::Receive)
        + pumps_for(Side::Server, MessageKind::PlayerEntity, NetworkEventDirection::Send)
}

/// The server's part of the synchronisation layer.
pub struct NetworkPlugin;

impl NetworkPlugin {
    /// What the server starts with: the ceiling on connections, the protocol
    /// identifier of this build, and a pump for each kind of message that the
    /// server sends or receives.
    pub fn build(&self) -> (setup: ServerSetup)
        ensures
            setup.max_clients == MAX_CLIENTS,
            setup.protocol_id == PROTOCOL_ID,
            setup.channels.side == Side::Server,
            setup.channels.pumps@ == server_pumps(),
    {
        let mut channels = ChannelRegistry::new(Side::Server);
        channels.register_network_event::<PlayerInput>(NetworkEventDirection::Receive);
        channels.register_network_event::<EntityPosition>(NetworkEventDirection::Send);
        channels.register_network_event::<CreateEntity>(NetworkEventDirection::Send);
        channels.register_network_event::<DestroyEntity>(NetworkEventDirection::Send);
        channels.register_network_event::<GetWorldState>(NetworkEventDirection::Receive);
        channels.register_network_event::<GetPlayerEntity>(NetworkEventDirection::Receive);
        channels.register_network_event::<PlayerEntity>(NetworkEventDirection::Send);
        assert(channels.pumps@ =~= server_pumps());
        ServerSetup { max_clients: MAX_CLIENTS, protocol_id: PROTOCOL_ID, channels }
    }
}

} // verus!
