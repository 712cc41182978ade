use common::network::configuration::{
    CLIENT_TO_SERVER_PORT, LOCAL_ADDRESS, PROTOCOL_ID, SERVER_ADDRESS, SERVER_TO_CLIENT_PORT,
};
use common::network::events::{CreateEntity, DestroyEntity, Entity};
use common::network::lifecycle::LifecycleController;
use common::network::session::{
    advance, catch_up, ConnectionState, Handshake, Rejection, ServerSession, SessionNotice,
    TransportEvent,
};
use common::network::{Addressee, SendToClient};
use common::{pack_version, version, version_num};

#[test]
fn the_server_rejects_a_client_beyond_its_ceiling() {
    let mut session = ServerSession::new(3, PROTOCOL_ID);
    for client in 0..3u64 {
        assert_eq!(session.handshake(client, PROTOCOL_ID), Handshake::Accepted);
    }
    assert_eq!(session.connected_count(), 3);
    assert_eq!(session.handshake(99, PROTOCOL_ID), Handshake::Rejected(Rejection::ServerFull));
    assert!(!session.is_connected(99));
    assert_eq!(session.connected_count(), 3);
    assert!(session.disconnect(1));
    assert_eq!(session.handshake(99, PROTOCOL_ID), Handshake::Accepted);
    assert!(session.is_connected(99));
    assert!(!session.is_connected(1));
    assert_eq!(session.connected_count(), 3);
}

#[test]
fn sixty_four_clients_fill_the_server() {
    let mut session = ServerSession::new(64, PROTOCOL_ID);
    for client in 0..64u64 {
        assert_eq!(session.handshake(client, PROTOCOL_ID), Handshake::Accepted);
    }
    assert_eq!(session.handshake(64, PROTOCOL_ID), Handshake::Rejected(Rejection::ServerFull));
    assert!(session.disconnect(10));
    assert_eq!(session.handshake(64, PROTOCOL_ID), Handshake::Accepted);
}

#[test]
fn the_protocol_has_to_match() {
    let mut session = ServerSession::new(2, PROTOCOL_ID);
    assert_eq!(
        session.handshake(1, PROTOCOL_ID + 1),
        Handshake::Rejected(Rejection::ProtocolMismatch)
    );
    assert_eq!(session.connected_count(), 0);
    assert_eq!(session.handshake(1, PROTOCOL_ID), Handshake::Accepted);
    assert_eq!(session.handshake(1, PROTOCOL_ID), Handshake::Rejected(Rejection::AlreadyConnected));
    assert_eq!(session.connected_count(), 1);
    assert!(!session.disconnect(2));
    assert!(session.disconnect(1));
    assert!(!session.disconnect(1));
    assert_eq!(session.connected_count(), 0);
}

#[test]
fn a_connection_goes_through_its_states() {
    let state = ConnectionState::Disconnected;
    let (state, notice) = advance(state, TransportEvent::HandshakeSent);
    assert_eq!((state, notice), (ConnectionState::Handshaking, SessionNotice::Nothing));
    let (state, notice) = advance(state, TransportEvent::HandshakeAccepted);
    assert_eq!((state, notice), (ConnectionState::Connected, SessionNotice::Connected));
    let (state, notice) = advance(state, TransportEvent::TimedOut);
    assert_eq!((state, notice), (ConnectionState::Disconnected, SessionNotice::Disconnected));
    let (state, notice) = advance(state, TransportEvent::DisconnectReceived);
    assert_eq!((state, notice), (ConnectionState::Disconnected, SessionNotice::Nothing));
}

#[test]
fn a_failed_handshake_is_silent() {
    let (state, notice) = advance(ConnectionState::Handshaking, TransportEvent::TimedOut);
    assert_eq!((state, notice), (ConnectionState::Disconnected, SessionNotice::Nothing));
    let (state, notice) = advance(ConnectionState::Handshaking, TransportEvent::DisconnectReceived);
    assert_eq!((state, notice), (ConnectionState::Disconnected, SessionNotice::Nothing));
    let (state, notice) = advance(ConnectionState::Handshaking, TransportEvent::HandshakeSent);
    assert_eq!((state, notice), (ConnectionState::Handshaking, SessionNotice::Nothing));
    let (state, notice) = advance(ConnectionState::Connected, TransportEvent::HandshakeAccepted);
    assert_eq!((state, notice), (ConnectionState::Connected, SessionNotice::Nothing));
    let (state, notice) = advance(ConnectionState::Connected, TransportEvent::DisconnectReceived);
    assert_eq!((state, notice), (ConnectionState::Disconnected, SessionNotice::Disconnected));
    let (state, notice) = advance(ConnectionState::Disconnected, TransportEvent::HandshakeAccepted);
    assert_eq!((state, notice), (ConnectionState::Disconnected, SessionNotice::Nothing));
}

#[test]
fn the_protocol_identifier_is_the_version() {
    assert_eq!(version(), "0.1.0");
    assert_eq!(version_num(), 65_536);
    assert_eq!(PROTOCOL_ID, version_num() as u64);
    assert_eq!(pack_version(1, 2, 3), 0x0102_0300);
    assert_eq!(pack_version(0, 0, 0), 0);
    assert_eq!(LOCAL_ADDRESS, [127, 0, 0, 1]);
    assert_eq!(SERVER_ADDRESS, [127, 0, 0, 1]);
    assert_eq!(SERVER_TO_CLIENT_PORT, 0);
    assert_eq!(CLIENT_TO_SERVER_PORT, 43_735);
}

#[test]
fn connections_and_avatars_end_together() {
    let mut controller = LifecycleController::new(2, PROTOCOL_ID);
    assert_eq!(controller.admits(1, PROTOCOL_ID), Handshake::Accepted);
    assert_eq!(
        controller.connect(1, PROTOCOL_ID, Entity::from_bits(10)),
        Ok(SendToClient {
            client: Addressee::AllBut(1),
            message: CreateEntity { entity: Entity::from_bits(10) }
        })
    );
    assert_eq!(
        controller.connect(1, PROTOCOL_ID, Entity::from_bits(11)),
        Err(Rejection::AlreadyConnected)
    );
    assert_eq!(controller.map_client(1), Some(Entity::from_bits(10)));
    assert_eq!(
        controller.connect(2, PROTOCOL_ID + 7, Entity::from_bits(20)),
        Err(Rejection::ProtocolMismatch)
    );
    assert_eq!(controller.map_client(2), None);
    assert!(controller.connect(2, PROTOCOL_ID, Entity::from_bits(20)).is_ok());
    assert_eq!(controller.admits(3, PROTOCOL_ID), Handshake::Rejected(Rejection::ServerFull));
    assert_eq!(controller.connect(3, PROTOCOL_ID, Entity::from_bits(30)), Err(Rejection::ServerFull));
    assert_eq!(controller.connected_count(), 2);
    assert_eq!(
        controller.disconnect(1),
        Some(SendToClient { client: Addressee::All, message: DestroyEntity { entity: Entity::from_bits(10) } })
    );
    assert_eq!(controller.disconnect(1), None);
    assert_eq!(controller.map_client(1), None);
    assert_eq!(controller.connected_count(), 1);
    assert_eq!(controller.admits(3, PROTOCOL_ID), Handshake::Accepted);
    assert!(controller.connect(3, PROTOCOL_ID, Entity::from_bits(30)).is_ok());
    assert_eq!(controller.map_client(3), Some(Entity::from_bits(30)));
}

#[test]
fn a_session_knows_its_settings() {
    let session = ServerSession::new(5, 77);
    assert_eq!(session.ceiling(), 5);
    assert_eq!(session.protocol(), 77);
    assert_eq!(session.admits(1, 77), Handshake::Accepted);
    assert_eq!(session.admits(1, 78), Handshake::Rejected(Rejection::ProtocolMismatch));
    assert_eq!(session.connected_count(), 0);
}

#[test]
fn a_connection_is_caught_up_with() {
    let (connected, disconnected, handshaking) = (
        ConnectionState::Connected,
        ConnectionState::Disconnected,
        ConnectionState::Handshaking,
    );
    assert_eq!(catch_up(disconnected, disconnected, false), vec![]);
    assert_eq!(catch_up(connected, connected, true), vec![]);
    assert_eq!(catch_up(disconnected, handshaking, false), vec![TransportEvent::HandshakeSent]);
    assert_eq!(
        catch_up(disconnected, connected, false),
        vec![TransportEvent::HandshakeSent, TransportEvent::HandshakeAccepted]
    );
    assert_eq!(catch_up(handshaking, connected, true), vec![TransportEvent::HandshakeAccepted]);
    assert_eq!(catch_up(handshaking, disconnected, false), vec![TransportEvent::TimedOut]);
    assert_eq!(catch_up(connected, disconnected, true), vec![TransportEvent::DisconnectReceived]);
    assert_eq!(
        catch_up(connected, handshaking, false),
        vec![TransportEvent::TimedOut, TransportEvent::HandshakeSent]
    );
    for from in [disconnected, handshaking, connected] {
        for to in [disconnected, handshaking, connected] {
            let mut state = from;
            let mut ended = 0;
            for event in catch_up(from, to, true) {
                let (next, notice) = advance(state, event);
                state = next;
                if notice == SessionNotice::Disconnected {
                    ended += 1;
                }
            }
            assert_eq!(state, to);
            assert_eq!(ended, if from == connected && to != connected { 1 } else { 0 });
        }
    }
}
