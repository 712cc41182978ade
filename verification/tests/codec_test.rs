use common::network::codec::{get_u32_le, put_u32_le, DecodeError};
use common::network::events::{
    CreateEntity, DestroyEntity, Entity, EntityPosition, Events, GetPlayerEntity, GetWorldState,
    Message, MessageKind, PlayerEntity, PlayerInput,
};

fn round_trip<T: Message + PartialEq + std::fmt::Debug>(value: T) {
    let bytes = value.encode().unwrap();
    assert_eq!(T::decode(&bytes), Ok(value));
}

#[test]
fn player_input_round_trip() {
    let input = PlayerInput {
        left: 0,
        right: 0,
        forward: 1,
        backward: 0,
        jump: 0,
        crouch: 0,
        primary: 0,
        secondary: 0,
    };
    let bytes = input.encode().unwrap();
    assert_eq!(bytes, vec![0, 0, 1, 0, 0, 0, 0, 0]);
    assert_eq!(PlayerInput::decode(&bytes), Ok(input));
    round_trip(PlayerInput {
        left: 255,
        right: 1,
        forward: 2,
        backward: 3,
        jump: 250,
        crouch: 251,
        primary: 252,
        secondary: 253,
    });
}

#[test]
fn player_input_is_written_as_bincode_writes_it() {
    let input = PlayerInput {
        left: 9,
        right: 8,
        forward: 7,
        backward: 6,
        jump: 5,
        crouch: 4,
        primary: 3,
        secondary: 255,
    };
    let expected = bincode::encode_to_vec(
        (9u8, 8u8, 7u8, 6u8, 5u8, 4u8, 3u8, 255u8),
        bincode::config::standard(),
    )
    .unwrap();
    assert_eq!(input.encode().unwrap(), expected);
}

#[test]
fn truncated_player_input_is_rejected() {
    assert_eq!(PlayerInput::decode(&[1, 0, 0]), Err(DecodeError::UnexpectedEnd));
    assert_eq!(PlayerInput::decode(&[]), Err(DecodeError::UnexpectedEnd));
    assert_eq!(PlayerInput::decode(&[1, 2, 3, 4, 5, 6, 7]), Err(DecodeError::UnexpectedEnd));
}

#[test]
fn bytes_after_a_value_are_ignored() {
    let decoded = PlayerInput::decode(&[1, 2, 3, 4, 5, 6, 7, 8, 9, 10]).unwrap();
    assert_eq!(decoded.secondary, 8);
    assert_eq!(
        CreateEntity::decode(&[7, 99]),
        Ok(CreateEntity { entity: Entity::from_bits(7) })
    );
}

#[test]
fn integers_use_the_narrowest_form() {
    let encode = |bits: u64| CreateEntity { entity: Entity::from_bits(bits) }.encode().unwrap();
    assert_eq!(encode(0), vec![0]);
    assert_eq!(encode(7), vec![7]);
    assert_eq!(encode(250), vec![250]);
    assert_eq!(encode(251), vec![251, 251, 0]);
    assert_eq!(encode(300), vec![251, 44, 1]);
    assert_eq!(encode(65_535), vec![251, 255, 255]);
    assert_eq!(encode(65_536), vec![252, 0, 0, 1, 0]);
    assert_eq!(encode(u32::MAX as u64), vec![252, 255, 255, 255, 255]);
    assert_eq!(encode(1 << 32), vec![253, 0, 0, 0, 0, 1, 0, 0, 0]);
    assert_eq!(encode(u64::MAX), vec![253, 255, 255, 255, 255, 255, 255, 255, 255]);
}

#[test]
fn integers_are_written_as_bincode_writes_them() {
    for bits in [0u64, 1, 250, 251, 1_000, 65_535, 65_536, 1 << 40, u64::MAX] {
        let expected = bincode::encode_to_vec(bits, bincode::config::standard()).unwrap();
        assert_eq!(GetWorldState { world: bits }.encode().unwrap(), expected);
    }
}

#[test]
fn integer_markers_are_checked() {
    assert_eq!(CreateEntity::decode(&[]), Err(DecodeError::UnexpectedEnd));
    assert_eq!(CreateEntity::decode(&[251, 1]), Err(DecodeError::UnexpectedEnd));
    assert_eq!(CreateEntity::decode(&[252, 1, 2, 3]), Err(DecodeError::UnexpectedEnd));
    assert_eq!(CreateEntity::decode(&[253, 1, 2, 3, 4, 5, 6, 7]), Err(DecodeError::UnexpectedEnd));
    assert_eq!(CreateEntity::decode(&[254, 0, 0, 0, 0, 0, 0, 0, 0]), Err(DecodeError::InvalidInteger));
    assert_eq!(CreateEntity::decode(&[255]), Err(DecodeError::InvalidInteger));
    assert_eq!(
        CreateEntity::decode(&[254, 0, 0, 0, 0, 0, 0, 0, 0, 0, 0, 0, 0, 0, 0, 0, 0]),
        Err(DecodeError::InvalidInteger)
    );
}

#[test]
fn a_wider_form_than_needed_is_read() {
    assert_eq!(
        CreateEntity::decode(&[251, 7, 0]),
        Ok(CreateEntity { entity: Entity::from_bits(7) })
    );
    assert_eq!(
        GetWorldState::decode(&[253, 1, 0, 0, 0, 0, 0, 0, 0]),
        Ok(GetWorldState { world: 1 })
    );
}

#[test]
fn every_message_kind_round_trips() {
    for bits in [0u64, 250, 251, 70_000, 1 << 33, u64::MAX] {
        round_trip(CreateEntity { entity: Entity::from_bits(bits) });
        round_trip(DestroyEntity { entity: Entity::from_bits(bits) });
        round_trip(PlayerEntity { entity: Entity::from_bits(bits) });
        round_trip(GetWorldState { world: bits });
        round_trip(GetPlayerEntity { world: bits });
        round_trip(EntityPosition {
            entity: Entity::from_bits(bits),
            x: 1.5f32.to_bits(),
            y: (-2.25f32).to_bits(),
            z: f32::MAX.to_bits(),
        });
    }
}

#[test]
fn entity_position_is_written_as_bincode_writes_it() {
    let position = EntityPosition {
        entity: Entity::from_bits(300),
        x: 1.5f32.to_bits(),
        y: (-2.25f32).to_bits(),
        z: 0.0f32.to_bits(),
    };
    let expected =
        bincode::encode_to_vec((300u64, 1.5f32, -2.25f32, 0.0f32), bincode::config::standard())
            .unwrap();
    assert_eq!(position.encode().unwrap(), expected);
    assert_eq!(position.encode().unwrap().len(), 15);
}

#[test]
fn truncated_entity_position_is_rejected() {
    let bytes = EntityPosition { entity: Entity::from_bits(1), x: 1, y: 2, z: 3 }.encode().unwrap();
    assert_eq!(bytes.len(), 13);
    assert_eq!(EntityPosition::decode(&bytes[..12]), Err(DecodeError::UnexpectedEnd));
    assert_eq!(EntityPosition::decode(&bytes[..1]), Err(DecodeError::UnexpectedEnd));
}

#[test]
fn four_byte_numbers_are_little_endian() {
    let mut out = vec![9u8];
    put_u32_le(&mut out, 0x0403_0201);
    assert_eq!(out, vec![9, 1, 2, 3, 4]);
    assert_eq!(get_u32_le(&out, 1), 0x0403_0201);
    assert_eq!(get_u32_le(&[0, 0, 0, 0, 255, 255, 255, 255], 4), u32::MAX);
}

#[test]
fn kinds_of_messages() {
    assert_eq!(PlayerInput::message_kind(), MessageKind::PlayerInput);
    assert_eq!(EntityPosition::message_kind(), MessageKind::EntityPosition);
    assert_eq!(CreateEntity::message_kind(), MessageKind::CreateEntity);
    assert_eq!(DestroyEntity::message_kind(), MessageKind::DestroyEntity);
    assert_eq!(GetWorldState::message_kind(), MessageKind::GetWorldState);
    assert_eq!(GetPlayerEntity::message_kind(), MessageKind::GetPlayerEntity);
    assert_eq!(PlayerEntity::message_kind(), MessageKind::PlayerEntity);
    assert_eq!(Events::GetWorldState(GetWorldState { world: 0 }).kind(), MessageKind::GetWorldState);
    assert_eq!(Events::PlayerInput(PlayerInput::idle()).kind(), MessageKind::PlayerInput);
}

#[test]
fn every_kind_has_a_channel_of_its_own() {
    let kinds = [
        MessageKind::PlayerInput,
        MessageKind::EntityPosition,
        MessageKind::CreateEntity,
        MessageKind::DestroyEntity,
        MessageKind::GetWorldState,
        MessageKind::GetPlayerEntity,
        MessageKind::PlayerEntity,
    ];
    for (index, kind) in kinds.iter().enumerate() {
        assert_eq!(kind.channel_id() as usize, index);
    }
}

#[test]
fn any_intent() {
    assert!(!PlayerInput::idle().any());
    assert!(!PlayerInput::default().any());
    assert!(PlayerInput { jump: 1, ..PlayerInput::idle() }.any());
    assert!(PlayerInput { secondary: 200, ..PlayerInput::idle() }.any());
    assert_eq!(Entity::from_bits(77).to_bits(), 77);
}
