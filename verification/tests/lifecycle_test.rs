use common::network::channel::{decode_frames, ChannelRegistry, NetworkEventDirection, Pump, PumpRole, Side};
use common::network::client;
use common::network::configuration::PROTOCOL_ID;
use common::network::events::{
    CreateEntity, DestroyEntity, Entity, EntityPosition, GetPlayerEntity, GetWorldState, Message,
    MessageKind, PlayerEntity, PlayerInput,
};
use common::network::server::{
    client_connected, client_disconnected, handle_events, receive_messages, send_messages,
    send_player_entity, send_positions, send_world_state, update_input, NetworkPlugin, Notice,
    Outbound, ServerEvent, MAX_CLIENTS,
};
use common::network::session::{Handshake, ServerSession};
use common::network::{
    Addressee, ClientEntityMapper, EntityMapper, ReceiveFromClient, ReceiveFromServer,
    SendToClient, SendToServer,
};

fn created_for_others(newcomer: u64, bits: u64) -> SendToClient<CreateEntity> {
    SendToClient {
        client: Addressee::AllBut(newcomer),
        message: CreateEntity { entity: Entity::from_bits(bits) },
    }
}

fn broadcast_destroyed(bits: u64) -> SendToClient<DestroyEntity> {
    SendToClient { client: Addressee::All, message: DestroyEntity { entity: Entity::from_bits(bits) } }
}

#[test]
fn connect_maps_and_announces() {
    let mut mapper = ClientEntityMapper::new();
    let message = client_connected(&mut mapper, 5, Entity::from_bits(50));
    assert_eq!(message, created_for_others(5, 50));
    assert_eq!(mapper.map_client(5), Some(Entity::from_bits(50)));
}

#[test]
fn disconnect_purges_and_announces_once() {
    let mut mapper = ClientEntityMapper::new();
    client_connected(&mut mapper, 5, Entity::from_bits(50));
    assert_eq!(client_disconnected(&mut mapper, 5), Some(broadcast_destroyed(50)));
    assert_eq!(mapper.map_client(5), None);
    assert_eq!(client_disconnected(&mut mapper, 5), None);
    assert_eq!(mapper.len(), 0);
}

#[test]
fn every_session_ends_with_one_destroyed_notice() {
    let mut mapper = ClientEntityMapper::new();
    let events = vec![
        ServerEvent::ClientConnected { client_id: 9, entity: Entity::from_bits(1) },
        ServerEvent::ClientDisconnected { client_id: 9 },
        ServerEvent::ClientConnected { client_id: 9, entity: Entity::from_bits(2) },
        ServerEvent::ClientDisconnected { client_id: 9 },
        ServerEvent::ClientConnected { client_id: 9, entity: Entity::from_bits(3) },
    ];
    let notices = handle_events(&mut mapper, &events);
    assert_eq!(
        notices,
        vec![
            Notice::Created(created_for_others(9, 1)),
            Notice::Destroyed(broadcast_destroyed(1)),
            Notice::Created(created_for_others(9, 2)),
            Notice::Destroyed(broadcast_destroyed(2)),
            Notice::Created(created_for_others(9, 3)),
        ]
    );
    assert_eq!(mapper.map_client(9), Some(Entity::from_bits(3)));
    let more = handle_events(&mut mapper, &vec![ServerEvent::ClientDisconnected { client_id: 9 }]);
    assert_eq!(more, vec![Notice::Destroyed(broadcast_destroyed(3))]);
    assert_eq!(mapper.map_client(9), None);
}

#[test]
fn disconnect_of_an_unmapped_client_is_a_warning() {
    let mut mapper = ClientEntityMapper::new();
    let notices = handle_events(&mut mapper, &vec![ServerEvent::ClientDisconnected { client_id: 4 }]);
    assert_eq!(notices, vec![Notice::Unmapped(4)]);
    assert_eq!(mapper.len(), 0);
    assert_eq!(handle_events(&mut mapper, &vec![]), vec![]);
}

#[test]
fn player_entity_is_answered_to_the_requester() {
    let mut mapper = ClientEntityMapper::new();
    mapper.insert(1, Entity::from_bits(10));
    mapper.insert(2, Entity::from_bits(20));
    let request = |client: u64| ReceiveFromClient { client, message: GetPlayerEntity { world: 0 } };
    let replies = send_player_entity(&vec![request(2), request(3), request(1)], &mapper);
    assert_eq!(
        replies,
        vec![
            SendToClient { client: Addressee::One(2), message: PlayerEntity { entity: Entity::from_bits(20) } },
            SendToClient { client: Addressee::One(1), message: PlayerEntity { entity: Entity::from_bits(10) } },
        ]
    );
}

#[test]
fn world_state_replays_every_entity_to_the_requester() {
    let request = |client: u64| ReceiveFromClient { client, message: GetWorldState { world: 0 } };
    let entities = vec![Entity::from_bits(10), Entity::from_bits(20), Entity::from_bits(30)];
    let out = send_world_state(&vec![request(7), request(8)], &entities);
    let to = |client: u64, bits: u64| SendToClient {
        client: Addressee::One(client),
        message: CreateEntity { entity: Entity::from_bits(bits) },
    };
    assert_eq!(out, vec![to(7, 10), to(7, 20), to(7, 30), to(8, 10), to(8, 20), to(8, 30)]);
    assert_eq!(send_world_state(&vec![], &entities), vec![]);
    assert_eq!(send_world_state(&vec![request(7)], &vec![]), vec![]);
}

#[test]
fn input_is_routed_to_the_avatar() {
    let mut mapper = ClientEntityMapper::new();
    mapper.insert(1, Entity::from_bits(10));
    let forward = PlayerInput { forward: 1, ..PlayerInput::idle() };
    let left = PlayerInput { left: 1, ..PlayerInput::idle() };
    let events = vec![
        ReceiveFromClient { client: 1, message: forward },
        ReceiveFromClient { client: 2, message: left },
        ReceiveFromClient { client: 1, message: left },
    ];
    assert_eq!(
        update_input(&events, &mapper),
        vec![(Entity::from_bits(10), forward), (Entity::from_bits(10), left)]
    );
}

#[test]
fn positions_are_broadcast() {
    let position = EntityPosition { entity: Entity::from_bits(3), x: 1, y: 2, z: 3 };
    assert_eq!(send_positions(&vec![position]), vec![SendToClient { client: Addressee::All, message: position }]);
    assert_eq!(send_positions(&vec![]), vec![]);
}

#[test]
fn server_frames_carry_their_target() {
    let events = vec![
        SendToClient { client: Addressee::One(4), message: CreateEntity { entity: Entity::from_bits(300) } },
        created_for_others(9, 7),
        SendToClient { client: Addressee::All, message: CreateEntity { entity: Entity::from_bits(8) } },
    ];
    assert_eq!(
        send_messages(&events),
        vec![
            Outbound { client: Addressee::One(4), payload: vec![251, 44, 1] },
            Outbound { client: Addressee::AllBut(9), payload: vec![7] },
            Outbound { client: Addressee::All, payload: vec![8] },
        ]
    );
}

#[test]
fn a_malformed_frame_is_dropped_and_nothing_else() {
    let good = PlayerInput { forward: 1, ..PlayerInput::idle() };
    let other = PlayerInput { left: 1, ..PlayerInput::idle() };
    let frames = vec![good.encode().unwrap(), vec![1, 2, 3], other.encode().unwrap(), vec![]];
    assert_eq!(decode_frames::<PlayerInput>(&frames), vec![good, other]);
    let inbox = vec![(11u64, frames.clone()), (12u64, vec![vec![9]]), (13u64, vec![other.encode().unwrap()])];
    assert_eq!(
        receive_messages::<PlayerInput>(&inbox),
        vec![
            ReceiveFromClient { client: 11, message: good },
            ReceiveFromClient { client: 11, message: other },
            ReceiveFromClient { client: 13, message: other },
        ]
    );
    let mut session = ServerSession::new(4, PROTOCOL_ID);
    assert_eq!(session.handshake(11, PROTOCOL_ID), Handshake::Accepted);
    let _ = receive_messages::<PlayerInput>(&vec![(11u64, vec![vec![1, 2, 3]])]);
    assert!(session.is_connected(11));
    let received = client::receive_messages::<PlayerInput>(&frames);
    assert_eq!(received, vec![ReceiveFromServer { message: good }, ReceiveFromServer { message: other }]);
}

#[test]
fn client_requests_and_frames() {
    assert_eq!(client::get_world_state(), SendToServer { message: GetWorldState { world: 0 } });
    assert_eq!(client::get_player_entity(), SendToServer { message: GetPlayerEntity { world: 0 } });
    let input = PlayerInput { forward: 1, ..PlayerInput::idle() };
    assert_eq!(client::send_user_input(&input), SendToServer { message: input });
    let frames = client::send_messages(&vec![client::get_world_state(), SendToServer { message: GetWorldState { world: 1_000 } }]);
    assert_eq!(frames, vec![vec![0], vec![251, 232, 3]]);
    assert_eq!(client::client_id_at(1_700_000_000_123), 1_700_000_000_123);
    assert_eq!(client::client_id_at((1u128 << 64) + 5), 5);
    assert_eq!(client::client_id_at(u128::MAX), u64::MAX);
}

#[test]
fn player_entity_follows_the_last_answer() {
    let mut mapper = EntityMapper::new();
    mapper.bind(Entity::from_bits(10), Entity::from_bits(100));
    let answer = |bits: u64| ReceiveFromServer { message: PlayerEntity { entity: Entity::from_bits(bits) } };
    let current = Some(Entity::from_bits(1));
    assert_eq!(client::set_player_entity(current, &vec![], &mapper), current);
    assert_eq!(client::set_player_entity(current, &vec![answer(10)], &mapper), Some(Entity::from_bits(100)));
    assert_eq!(client::set_player_entity(current, &vec![answer(10), answer(11)], &mapper), None);
    assert_eq!(client::set_player_entity(None, &vec![answer(11), answer(10)], &mapper), Some(Entity::from_bits(100)));
}

#[test]
fn registry_wires_the_pumps_of_each_side() {
    let mut registry = ChannelRegistry::new(Side::Client);
    registry.register_network_event::<PlayerInput>(NetworkEventDirection::Send);
    registry.register_network_event::<CreateEntity>(NetworkEventDirection::Receive);
    registry.register_network_event::<GetWorldState>(NetworkEventDirection::Both);
    assert_eq!(
        registry.pumps,
        vec![
            Pump { kind: MessageKind::PlayerInput, role: PumpRole::Send, needs_phase: true },
            Pump { kind: MessageKind::CreateEntity, role: PumpRole::Receive, needs_phase: false },
            Pump { kind: MessageKind::GetWorldState, role: PumpRole::Send, needs_phase: false },
            Pump { kind: MessageKind::GetWorldState, role: PumpRole::Receive, needs_phase: false },
        ]
    );
    assert!(registry.has_pump(MessageKind::PlayerInput, PumpRole::Send));
    assert!(!registry.has_pump(MessageKind::PlayerInput, PumpRole::Receive));
    let mut registry = ChannelRegistry::new(Side::Server);
    registry.register_network_event::<PlayerInput>(NetworkEventDirection::Both);
    assert_eq!(
        registry.pumps,
        vec![
            Pump { kind: MessageKind::PlayerInput, role: PumpRole::Send, needs_phase: true },
            Pump { kind: MessageKind::PlayerInput, role: PumpRole::Receive, needs_phase: true },
        ]
    );
}

#[test]
fn an_addressee_says_whom_a_message_reaches() {
    assert!(Addressee::One(4).reaches(4));
    assert!(!Addressee::One(4).reaches(5));
    assert!(Addressee::All.reaches(4));
    assert!(Addressee::AllBut(4).reaches(5));
    assert!(!Addressee::AllBut(4).reaches(4));
}

#[test]
fn pumps_are_gated() {
    let gated = Pump { kind: MessageKind::PlayerInput, role: PumpRole::Send, needs_phase: true };
    assert!(gated.runs(true, true));
    assert!(!gated.runs(true, false));
    assert!(!gated.runs(false, true));
    let open = Pump { kind: MessageKind::CreateEntity, role: PumpRole::Receive, needs_phase: false };
    assert!(open.runs(true, false));
    assert!(!open.runs(false, false));
}

#[test]
fn plugins_register_every_kind() {
    let server = NetworkPlugin.build();
    assert_eq!(server.max_clients, MAX_CLIENTS);
    assert_eq!(server.max_clients, 64);
    assert_eq!(server.protocol_id, PROTOCOL_ID);
    assert_eq!(server.channels.pumps.len(), 7);
    assert!(server.channels.has_pump(MessageKind::PlayerInput, PumpRole::Receive));
    assert!(server.channels.has_pump(MessageKind::EntityPosition, PumpRole::Send));
    assert!(server.channels.has_pump(MessageKind::PlayerEntity, PumpRole::Send));
    assert!(!server.channels.has_pump(MessageKind::PlayerEntity, PumpRole::Receive));
    let client = client::NetworkPlugin.build(42);
    assert_eq!(client.client_id, 42);
    assert_eq!(client.protocol_id, PROTOCOL_ID);
    assert_eq!(client.channels.pumps.len(), 7);
    assert!(client.channels.has_pump(MessageKind::PlayerInput, PumpRole::Send));
    assert!(client.channels.has_pump(MessageKind::DestroyEntity, PumpRole::Receive));
    assert!(!client.channels.has_pump(MessageKind::DestroyEntity, PumpRole::Send));
    assert_eq!(client.channels.pumps[0], Pump { kind: MessageKind::PlayerInput, role: PumpRole::Send, needs_phase: true });
    assert_eq!(client.channels.pumps[1], Pump { kind: MessageKind::EntityPosition, role: PumpRole::Receive, needs_phase: false });
}

#[test]
fn two_clients_connect_and_one_leaves() {
    // The server starts, and two clients connect in order.
    let setup = NetworkPlugin.build();
    let mut session = ServerSession::new(setup.max_clients, setup.protocol_id);
    let mut server_mapper = ClientEntityMapper::new();
    let (c1, c2) = (1001u64, 1002u64);
    let (avatar1, avatar2) = (Entity::from_bits(1), Entity::from_bits(2));
    assert_eq!(session.handshake(c1, PROTOCOL_ID), Handshake::Accepted);
    assert_eq!(session.handshake(c2, PROTOCOL_ID), Handshake::Accepted);
    let notices = handle_events(
        &mut server_mapper,
        &vec![
            ServerEvent::ClientConnected { client_id: c1, entity: avatar1 },
            ServerEvent::ClientConnected { client_id: c2, entity: avatar2 },
        ],
    );
    assert_eq!(
        notices,
        vec![
            Notice::Created(created_for_others(c1, 1)),
            Notice::Created(created_for_others(c2, 2)),
        ]
    );
    assert!(!created_for_others(c2, 2).client.reaches(c2));
    assert!(created_for_others(c2, 2).client.reaches(c1));
    assert_eq!(server_mapper.len(), 2);

    // Each client asks for the world and hears of both avatars.
    let mut mappers = vec![EntityMapper::new(), EntityMapper::new()];
    for (index, client_id) in [c1, c2].into_iter().enumerate() {
        let request = client::send_messages(&vec![client::get_world_state()]);
        let asked = receive_messages::<GetWorldState>(&vec![(client_id, request)]);
        let replies = send_messages(&send_world_state(&asked, &vec![avatar1, avatar2]));
        let frames: Vec<Vec<u8>> = replies
            .into_iter()
            .filter(|frame| frame.client.reaches(client_id))
            .map(|frame| frame.payload)
            .collect();
        let heard = client::receive_messages::<CreateEntity>(&frames);
        let mut next_local = 500 + 10 * index as u64;
        for remote in create_entities(&heard, &mappers[index]) {
            assert!(mappers[index].bind(remote, Entity::from_bits(next_local)));
            next_local += 1;
        }
    }
    assert_eq!(mappers[0].get(avatar2), Some(Entity::from_bits(501)));
    assert_eq!(mappers[1].get(avatar1), Some(Entity::from_bits(510)));

    // The first client leaves.
    assert!(session.disconnect(c1));
    let notices = handle_events(&mut server_mapper, &vec![ServerEvent::ClientDisconnected { client_id: c1 }]);
    assert_eq!(server_mapper.map_client(c1), None);
    assert_eq!(server_mapper.map_client(c2), Some(avatar2));
    assert_eq!(server_mapper.len(), 1);
    let destroyed = match notices[0] {
        Notice::Destroyed(message) => message,
        _ => panic!("the avatar of the first client is destroyed"),
    };
    let frames: Vec<Vec<u8>> = send_messages(&vec![destroyed]).into_iter().map(|frame| frame.payload).collect();
    for event in client::receive_messages::<DestroyEntity>(&frames) {
        assert_eq!(client::destroy_entity(&mut mappers[1], &event), Some(Entity::from_bits(510)));
    }
    assert_eq!(mappers[1].get(avatar1), None);
    assert_eq!(mappers[1].get(avatar2), Some(Entity::from_bits(511)));
}

fn create_entities(heard: &Vec<ReceiveFromServer<CreateEntity>>, mapper: &EntityMapper) -> Vec<Entity> {
    client::create_entity_system(heard, mapper)
}
