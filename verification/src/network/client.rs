use super::channel::{
    decode_frames, decoded, encoded, pumps_for, ChannelRegistry, NetworkEventDirection, Pump,
    Side,
};
use super::client_entity_mapper::entity_of;
use super::configuration::PROTOCOL_ID;
use super::entity_mapper::EntityMapper;
use super::event_types::{ReceiveFromServer, SendToServer};
use super::events::{
    CreateEntity, DestroyEntity, Entity, EntityPosition, GetPlayerEntity, GetWorldState, Message,
    MessageKind, PlayerEntity, PlayerInput,
};
use super::identity_map::lookup;
use vstd::prelude::*;

verus! {

/// The messages that the queue holds, in order.
pub open spec fn queued<T>(events: Seq<SendToServer<T>>) -> Seq<T> {
    Seq::new(events.len(), |k: int| events[k].message)
}

/// Drains the queue of messages to send: encodes each into a frame. A message
/// that does not encode is dropped.
pub fn send_messages<T: Message>(events: &Vec<SendToServer<T>>) -> (out: Vec<Vec<u8>>)
    ensures
        out@.len() == encoded(queued(events@)).len(),
        forall|k: int| 0 <= k < out@.len() ==> (#[trigger] out@[k])@ == encoded(queued(events@))[k],
{
    let mut out: Vec<Vec<u8>> = Vec::new();
    let mut i: usize = 0;
    assert(queued(events@).take(0) =~= Seq::empty());
    while i < events.len()
        invariant
            i <= events@.len(),
            out@.len() == encoded(queued(events@).take(i as int)).len(),
            forall|k: int|
                0 <= k < out@.len() ==> (#[trigger] out@[k])@ == encoded(
                    queued(events@).take(i as int),
                )[k],
        decreases events@.len() - i,
    {
        assert(queued(events@).take(i + 1).drop_last() =~= queued(events@).take(i as int));
        assert(queued(events@).take(i + 1).last() == events@[i as int].message);
        match events[i].message.encode() {
            Ok(payload) => {
                out.push(payload);
            },
            Err(_) => {},
        }
        i = i + 1;
    }
    assert(queued(events@).take(i as int) =~= queued(events@));
    out
}

/// Reads what came in on the channel of `T`: every frame, decoded as `T`. A
/// frame that does not decode is dropped; nothing else happens on its account.
pub fn receive_messages<T: Message>(frames: &Vec<Vec<u8>>) -> (out: Vec<ReceiveFromServer<T>>)
    ensures
        out@.len() == decoded::<T>(frames@).len(),
        forall|k: int|
            0 <= k < out@.len() ==> (#[trigger] out@[k]).message == decoded::<T>(frames@)[k],
{
    let messages = decode_frames::<T>(frames);
    let mut out: Vec<ReceiveFromServer<T>> = Vec::new();
    let mut i: usize = 0;
    while i < messages.len()
        invariant
            i <= messages@.len(),
            out@.len() == i,
            forall|k: int| 0 <= k < i ==> (#[trigger] out@[k]).message == messages@[k],
        decreases messages@.len() - i,
    {
        out.push(ReceiveFromServer { message: messages[i] });
        i = i + 1;
    }
    out
}

/// The request for the entities of the first world.
pub fn get_world_state() -> (request: SendToServer<GetWorldState>)
    ensures
        request == (SendToServer { message: GetWorldState { world: 0 } }),
{
    SendToServer { message: GetWorldState { world: 0 } }
}

/// The request for the requester's avatar in the first world.
pub fn get_player_entity() -> (request: SendToServer<GetPlayerEntity>)
    ensures
        request == (SendToServer { message: GetPlayerEntity { world: 0 } }),
{
    SendToServer { message: GetPlayerEntity { world: 0 } }
}

/// The player's input as a message for the server.
pub fn send_user_input(input: &PlayerInput) -> (message: SendToServer<PlayerInput>)
    ensures
        message == (SendToServer { message: *input }),
{
    SendToServer { message: *input }
}

/// The player's entity after the given answers: the local entity of the last
/// answer's entity, or none where that one is not mapped. Without answers it
/// stays what it was.
pub open spec fn player_entity_after(
    current: Option<Entity>,
    entries: Map<u64, u64>,
    answers: Seq<ReceiveFromServer<PlayerEntity>>,
) -> Option<Entity> {
    if answers.len() == 0 {
        current
    } else {
        entity_of(lookup(entries, answers.last().message.entity.0))
    }
}

/// Takes the server's answers to "which entity is mine" and returns the
/// player's local entity.
pub fn set_player_entity(
    current: Option<Entity>,
    events: &Vec<ReceiveFromServer<PlayerEntity>>,
    mapper: &EntityMapper,
) -> (player: Option<Entity>)
    ensures
        player == player_entity_after(current, mapper@, events@),
{
    if events.len() == 0 {
        current
    } else {
        mapper.get(events[events.len() - 1].message.entity)
    }
}

/// The remote entities, among those that the notifications name, that need
/// a local entity: each one that is not mapped, once, where it is named first.
pub open spec fn to_spawn(
    entries: Map<u64, u64>,
    events: Seq<ReceiveFromServer<CreateEntity>>,
) -> Seq<Entity>
    decreases events.len(),
{
    if events.len() == 0 {
        Seq::empty()
    } else {
        let earlier = to_spawn(entries, events.drop_last());
        let remote = events.last().message.entity;
        if entries.contains_key(remote.0) || earlier.contains(remote) {
            earlier
        } else {
            earlier.push(remote)
        }
    }
}

/// Goes through "create entity" notifications and returns the remote entities
/// to spawn a local entity for. An entity that is mapped already, or that an
/// earlier notification of the same batch named, is a duplicate and is left out.
pub fn create_entity_system(
    events: &Vec<ReceiveFromServer<CreateEntity>>,
    mapper: &EntityMapper,
) -> (out: Vec<Entity>)
    ensures
        out@ == to_spawn(mapper@, events@),
{
    let mut out: Vec<Entity> = Vec::new();
    let mut i: usize = 0;
    assert(events@.take(0) =~= Seq::empty());
    while i < events.len()
        invariant
            i <= events@.len(),
            out@ == to_spawn(mapper@, events@.take(i as int)),
        decreases events@.len() - i,
    {
        assert(events@.take(i + 1).drop_last() =~= events@.take(i as int));
        let remote = events[i].message.entity;
        if mapper.should_spawn(remote) && !holds(&out, remote) {
            out.push(remote);
        }
        i = i + 1;
    }
    assert(events@.take(i as int) =~= events@);
    out
}

/// The same notification delivered twice asks for no more than delivered
/// once: one local entity for the remote one.
pub proof fn lemma_duplicate_notification_is_ignored(
    entries: Map<u64, u64>,
    events: Seq<ReceiveFromServer<CreateEntity>>,
    event: ReceiveFromServer<CreateEntity>,
)
    ensures
        to_spawn(entries, events.push(event).push(event)) == to_spawn(entries, events.push(event)),
{
    let once = events.push(event);
    let twice = once.push(event);
    assert(twice.drop_last() =~= once);
    assert(once.drop_last() =~= events);
    let earlier = to_spawn(entries, events);
    let remote = event.message.entity;
    if !entries.contains_key(remote.0) && !earlier.contains(remote) {
        assert(earlier.push(remote)[earlier.len() as int] == remote);
    }
}

/// No remote entity is asked for twice, and none that is mapped.
pub proof fn lemma_to_spawn_is_new_and_distinct(
    entries: Map<u64, u64>,
    events: Seq<ReceiveFromServer<CreateEntity>>,
)
    ensures
        to_spawn(entries, events).no_duplicates(),
        forall|k: int|
            0 <= k < to_spawn(entries, events).len() ==> !entries.contains_key(
                (#[trigger] to_spawn(entries, events)[k]).0,
            ),
    decreases events.len(),
{
    if events.len() > 0 {
        lemma_to_spawn_is_new_and_distinct(entries, events.drop_last());
        let earlier = to_spawn(entries, events.drop_last());
        let remote = events.last().message.entity;
        if !entries.contains_key(remote.0) && !earlier.contains(remote) {
            let all = earlier.push(remote);
            assert forall|a: int, b: int| 0 <= a < all.len() && 0 <= b < all.len() && a
                != b implies all[a] != all[b] by {
                if a < earlier.len() && b < earlier.len() {
                } else if a < earlier.len() {
                    assert(earlier.contains(earlier[a]));
                } else {
                    assert(earlier.contains(earlier[b]));
                }
            }
        }
    }
}

/// Whether `entity` is among `entities`.
fn holds(entities: &Vec<Entity>, entity: Entity) -> (found: bool)
    ensures
        found == entities@.contains(entity),
{
    let mut i: usize = 0;
    while i < entities.len()
        invariant
            i <= entities@.len(),
            forall|k: int| 0 <= k < i ==> entities@[k] != entity,
        decreases entities@.len() - i,
    {
        if entities[i] == entity {
            return true;
        }
        i = i + 1;
    }
    false
}

/// Reacts to an "entity destroyed" notification: forgets the remote entity and
/// returns the local entity to destroy. For a remote entity that is not
/// mapped nothing changes and nothing is to destroy.
pub fn destroy_entity(
    mapper: &mut EntityMapper,
    event: &ReceiveFromServer<DestroyEntity>,
) -> (local: Option<Entity>)
    ensures
        final(mapper)@ == old(mapper)@.remove(event.message.entity.0),
        local == entity_of(lookup(old(mapper)@, event.message.entity.0)),
{
    mapper.release(event.message.entity)
}

/// The identifier that a client that starts at the given time, in milliseconds
/// since 1970, presents to the server: the low 64 bits of the time.
pub fn client_id_at(millis: u128) -> (id: u64)
    ensures
        id == millis % 0x1_0000_0000_0000_0000,
{
    (millis % 0x1_0000_0000_0000_0000) as u64
}

/// What a client's transport is set up with.
pub struct ClientSetup {
    pub protocol_id: u64,
    pub client_id: u64,
    pub channels: ChannelRegistry,
}

/// The kinds that a client registers, with the direction of each.
pub open spec fn client_pumps() -> Seq<Pump> {
    pumps_for(Side::Client, MessageKind::PlayerInput, NetworkEventDirection::Send) + pumps_for(
        Side::Client,
        MessageKind::EntityPosition,
        NetworkEventDirection::Receive,
    ) + pumps_for(Side::Client, MessageKind::CreateEntity, NetworkEventDirection::Receive)
        + pumps_for(Side::Client, MessageKind::DestroyEntity, NetworkEventDirection::Receive)
        + pumps_for(Side::Client, MessageKind::GetWorldState, NetworkEventDirection::Send)
        + pumps_for(Side::Client, MessageKind::GetPlayerEntity, NetworkEventDirection::Send)
        + pumps_for(Side::Client, MessageKind::PlayerEntity, NetworkEventDirection::Receive)
}

/// A client's part of the synchronisation layer.
pub struct NetworkPlugin;

impl NetworkPlugin {
    /// What a client that starts at the given time starts with: the protocol
    /// identifier of this build, its own identifier, and a pump for each kind
    /// of message that a client sends or receives.
    pub fn build(&self, millis: u128) -> (setup: ClientSetup)
        ensures
            setup.protocol_id == PROTOCOL_ID,
            setup.client_id == millis % 0x1_0000_0000_0000_0000,
            setup.channels.side == Side::Client,
            setup.channels.pumps@ == client_pumps(),
    {
        let mut channels = ChannelRegistry::new(Side::Client);
        channels.register_network_event::<PlayerInput>(NetworkEventDirection::Send);
        channels.register_network_event::<EntityPosition>(NetworkEventDirection::Receive);
        channels.register_network_event::<CreateEntity>(NetworkEventDirection::Receive);
        channels.register_network_event::<DestroyEntity>(NetworkEventDirection::Receive);
        channels.register_network_event::<GetWorldState>(NetworkEventDirection::Send);
        channels.register_network_event::<GetPlayerEntity>(NetworkEventDirection::Send);
        channels.register_network_event::<PlayerEntity>(NetworkEventDirection::Receive);
        assert(channels.pumps@ =~= client_pumps());
        ClientSetup { protocol_id: PROTOCOL_ID, client_id: client_id_at(millis), channels }
    }
}

} // verus!
