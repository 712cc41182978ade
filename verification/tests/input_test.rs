use common::input::player_control::{
    direction, handle_player_input, input_system, MovementKeys, Place, SPEED,
};
use common::input::PlayerControlPlugin;
use common::network::events::{Entity, EntityPosition, Message, PlayerInput};
use common::network::server::send_positions;
use common::network::Addressee;

#[test]
fn keys_steer_the_input() {
    let mut input = PlayerInput { jump: 1, ..PlayerInput::idle() };
    let keys = MovementKeys { a: false, d: false, w: true, s: false };
    assert!(handle_player_input(keys, &mut input));
    assert_eq!(input, PlayerInput { forward: 1, jump: 1, ..PlayerInput::idle() });
    assert!(!handle_player_input(keys, &mut input));
    let keys = MovementKeys { a: true, d: true, w: false, s: true };
    assert!(handle_player_input(keys, &mut input));
    assert_eq!(input, PlayerInput { left: 1, right: 1, backward: 1, jump: 1, ..PlayerInput::idle() });
}

#[test]
fn a_player_starts_idle() {
    assert_eq!(PlayerControlPlugin.build(), PlayerInput::idle());
    assert_eq!(PlayerControlPlugin.build(), PlayerInput::default());
}

#[test]
fn direction_of_an_input() {
    assert_eq!(direction(&PlayerInput::idle()), (0, 0));
    assert_eq!(direction(&PlayerInput { forward: 1, ..PlayerInput::idle() }), (0, 1));
    assert_eq!(direction(&PlayerInput { backward: 9, ..PlayerInput::idle() }), (0, -1));
    assert_eq!(direction(&PlayerInput { left: 1, ..PlayerInput::idle() }), (-1, 0));
    assert_eq!(direction(&PlayerInput { right: 1, ..PlayerInput::idle() }), (1, 0));
    assert_eq!(direction(&PlayerInput { left: 1, right: 1, forward: 1, ..PlayerInput::idle() }), (0, 1));
}

#[test]
fn steady_forward_input_moves_steadily() {
    assert_eq!(SPEED, 50);
    let input = PlayerInput { forward: 1, left: 0, right: 0, backward: 0, ..PlayerInput::idle() };
    let mut place = Place { x: 0, y: 0 };
    let mut sent = Vec::new();
    for tick in 1..=5i64 {
        assert!(input_system(&mut place, &input, 100));
        assert_eq!(place, Place { x: 0, y: 5_000 * tick });
        let position = EntityPosition {
            entity: Entity::from_bits(1),
            x: (place.x as f32 / 1000.0).to_bits(),
            y: (place.y as f32 / 1000.0).to_bits(),
            z: 0f32.to_bits(),
        };
        let message = send_positions(&vec![position])[0];
        assert_eq!(message.client, Addressee::All);
        let back = EntityPosition::decode(&message.message.encode().unwrap()).unwrap();
        sent.push(f32::from_bits(back.y));
    }
    assert_eq!(sent, vec![5.0, 10.0, 15.0, 20.0, 25.0]);
    // The input changes, and so does the movement.
    let input = PlayerInput { backward: 1, ..PlayerInput::idle() };
    assert!(input_system(&mut place, &input, 100));
    assert_eq!(place, Place { x: 0, y: 20_000 });
}

#[test]
fn an_avatar_without_steering_stays() {
    let mut place = Place { x: 3, y: 4 };
    assert!(!input_system(&mut place, &PlayerInput::idle(), 100));
    assert!(!input_system(&mut place, &PlayerInput { left: 1, right: 1, ..PlayerInput::idle() }, 100));
    assert!(!input_system(&mut place, &PlayerInput { jump: 1, ..PlayerInput::idle() }, 100));
    assert!(!input_system(&mut place, &PlayerInput { left: 1, ..PlayerInput::idle() }, 0));
    assert_eq!(place, Place { x: 3, y: 4 });
    assert!(input_system(&mut place, &PlayerInput { left: 1, backward: 1, ..PlayerInput::idle() }, 20));
    assert_eq!(place, Place { x: -997, y: -996 });
    let mut edge = Place { x: i64::MAX - 10, y: 0 };
    assert!(!input_system(&mut edge, &PlayerInput { right: 1, ..PlayerInput::idle() }, 1));
    assert_eq!(edge, Place { x: i64::MAX - 10, y: 0 });
}
