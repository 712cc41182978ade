use super::codec::{
    decode_varint, encode_varint, get_u32_le, le_bytes, le_value, lemma_le_bytes_len,
    lemma_le_round_trip, lemma_limits, lemma_varint_round_trip, put_u32_le, varint_bytes,
    varint_read, DecodeError, EncodeError,
};
use vstd::prelude::*;

verus! {

/// The identifier of an object in one process's own world. The same number in
/// another process names something else.
#[derive(Clone, Copy, Debug, PartialEq, Eq, Structural, Hash)]
pub struct Entity(pub u64);

impl Entity {
    /// The entity that the given bits name.
    pub fn from_bits(bits: u64) -> (entity: Self)
        ensures
            entity.0 == bits,
    {
        Entity(bits)
    }

    /// The bits that name this entity.
    pub fn to_bits(self) -> (bits: u64)
        ensures
            bits == self.0,
    {
        self.0
    }
}

/// The kinds of message. Each kind has a channel of its own, so a frame needs
/// no tag: its channel says of which kind it is.
#[derive(Clone, Copy, Debug, PartialEq, Eq, Structural)]
pub enum MessageKind {
    PlayerInput,
    EntityPosition,
    CreateEntity,
    DestroyEntity,
    GetWorldState,
    GetPlayerEntity,
    PlayerEntity,
}

impl MessageKind {
    /// The number of the channel that carries the messages of this kind.
    pub open spec fn channel(self) -> u8 {
        match self {
            MessageKind::PlayerInput => 0,
            MessageKind::EntityPosition => 1,
            MessageKind::CreateEntity => 2,
            MessageKind::DestroyEntity => 3,
            MessageKind::GetWorldState => 4,
            MessageKind::GetPlayerEntity => 5,
            MessageKind::PlayerEntity => 6,
        }
    }

    /// The number of the channel that carries the messages of this kind.
    pub fn channel_id(self) -> (id: u8)
        ensures
            id == self.channel(),
    {
        match self {
            MessageKind::PlayerInput => 0,
            MessageKind::EntityPosition => 1,
            MessageKind::CreateEntity => 2,
            MessageKind::DestroyEntity => 3,
            MessageKind::GetWorldState => 4,
            MessageKind::GetPlayerEntity => 5,
            MessageKind::PlayerEntity => 6,
        }
    }

    /// No two kinds share a channel.
    pub proof fn lemma_channels_differ(self, other: MessageKind)
        requires
            self != other,
        ensures
            self.channel() != other.channel(),
    {
    }
}

/// A value that travels in one frame.
pub trait Message: Sized + Copy {
    /// The kind of the values of this type.
    spec fn kind() -> MessageKind;

    /// The kind of the values of this type.
    fn message_kind() -> (kind: MessageKind)
        ensures
            kind == Self::kind(),
    ;

    /// Whether the value has an encoding.
    spec fn encodable(&self) -> bool;

    /// The payload of the frame that carries the value.
    spec fn wire(&self) -> Seq<u8>;

    /// The value that a payload starts with, or why it holds none. Bytes after
    /// the value are not looked at.
    spec fn parse(bytes: Seq<u8>) -> Result<Self, DecodeError>;

    /// The payload of the value, or `Unsupported` where it has no encoding.
    fn encode(&self) -> (res: Result<Vec<u8>, EncodeError>)
        ensures
            self.encodable() ==> res is Ok && res.unwrap()@ == self.wire(),
            !self.encodable() ==> res == Err::<Vec<u8>, EncodeError>(EncodeError::Unsupported),
    ;

    /// The value that the payload starts with.
    fn decode(bytes: &[u8]) -> (res: Result<Self, DecodeError>)
        ensures
            res == Self::parse(bytes@),
    ;

    /// Decoding what was encoded gives the value back, whatever follows it.
    proof fn lemma_round_trip(&self, rest: Seq<u8>)
        requires
            self.encodable(),
        ensures
            Self::parse(self.wire() + rest) == Ok::<Self, DecodeError>(*self),
    ;
}

/// The intents of one player: each field is zero while the intent is off.
#[derive(Default, Clone, Copy, Debug, PartialEq, Eq, Structural)]
pub struct PlayerInput {
    pub left: u8,
    pub right: u8,
    pub forward: u8,
    pub backward: u8,
    pub jump: u8,
    pub crouch: u8,
    pub primary: u8,
    pub secondary: u8,
}

impl PlayerInput {
    /// Whether any intent is on.
    pub fn any(self) -> (on: bool)
        ensures
            on == (self.left != 0 || self.right != 0 || self.forward != 0 || self.backward != 0
                || self.jump != 0 || self.crouch != 0 || self.primary != 0 || self.secondary
                != 0),
    {
        self.left != 0 || self.right != 0 || self.forward != 0 || self.backward != 0 || self.jump
            != 0 || self.crouch != 0 || self.primary != 0 || self.secondary != 0
    }

    /// The input with every intent off.
    pub open spec fn idle_input() -> PlayerInput {
        PlayerInput {
            left: 0,
            right: 0,
            forward: 0,
            backward: 0,
            jump: 0,
            crouch: 0,
            primary: 0,
            secondary: 0,
        }
    }

    /// The input with every intent off.
    pub fn idle() -> (input: Self)
        ensures
            input == Self::idle_input(),
    {
        PlayerInput {
            left: 0,
            right: 0,
            forward: 0,
            backward: 0,
            jump: 0,
            crouch: 0,
            primary: 0,
            secondary: 0,
        }
    }
}

impl Message for PlayerInput {
    open spec fn kind() -> MessageKind {
        MessageKind::PlayerInput
    }

    fn message_kind() -> (kind: MessageKind) {
        MessageKind::PlayerInput
    }

    open spec fn encodable(&self) -> bool {
        true
    }

    open spec fn wire(&self) -> Seq<u8> {
        seq![
            self.left,
            self.right,
            self.forward,
            self.backward,
            self.jump,
            self.crouch,
            self.primary,
            self.secondary,
        ]
    }

    open spec fn parse(bytes: Seq<u8>) -> Result<Self, DecodeError> {
        if bytes.len() >= 8 {
            Ok(
                PlayerInput {
                    left: bytes[0],
                    right: bytes[1],
                    forward: bytes[2],
                    backward: bytes[3],
                    jump: bytes[4],
                    crouch: bytes[5],
                    primary: bytes[6],
                    secondary: bytes[7],
                },
            )
        } else {
            Err(DecodeError::UnexpectedEnd)
        }
    }

    fn encode(&self) -> (res: Result<Vec<u8>, EncodeError>) {
        let mut bytes: Vec<u8> = Vec::new();
        bytes.push(self.left);
        bytes.push(self.right);
        bytes.push(self.forward);
        bytes.push(self.backward);
        bytes.push(self.jump);
        bytes.push(self.crouch);
        bytes.push(self.primary);
        bytes.push(self.secondary);
        assert(bytes@ =~= self.wire());
        Ok(bytes)
    }

    fn decode(bytes: &[u8]) -> (res: Result<Self, DecodeError>) {
        if bytes.len() >= 8 {
            Ok(
                PlayerInput {
                    left: bytes[0],
                    right: bytes[1],
                    forward: bytes[2],
                    backward: bytes[3],
                    jump: bytes[4],
                    crouch: bytes[5],
                    primary: bytes[6],
                    secondary: bytes[7],
                },
            )
        } else {
            Err(DecodeError::UnexpectedEnd)
        }
    }

    proof fn lemma_round_trip(&self, rest: Seq<u8>) {
    }
}

/// The integer that a payload starts with, or why it holds none.
pub open spec fn parse_id(bytes: Seq<u8>) -> Result<u64, DecodeError> {
    match varint_read(bytes) {
        Ok((value, _)) => Ok(value),
        Err(error) => Err(error),
    }
}

/// Reads the integer that a payload starts with.
fn decode_id(bytes: &[u8]) -> (res: Result<u64, DecodeError>)
    ensures
        res == parse_id(bytes@),
{
    match decode_varint(bytes) {
        Ok((value, _)) => Ok(value),
        Err(error) => Err(error),
    }
}

/// Tells a client that the server's world holds an entity.
#[derive(Clone, Copy, Debug, PartialEq, Eq, Structural)]
pub struct CreateEntity {
    pub entity: Entity,
}

impl Message for CreateEntity {
    open spec fn kind() -> MessageKind {
        MessageKind::CreateEntity
    }

    fn message_kind() -> (kind: MessageKind) {
        MessageKind::CreateEntity
    }

    open spec fn encodable(&self) -> bool {
        true
    }

    open spec fn wire(&self) -> Seq<u8> {
        varint_bytes(self.entity.0)
    }

    open spec fn parse(bytes: Seq<u8>) -> Result<Self, DecodeError> {
        match parse_id(bytes) {
            Ok(bits) => Ok(CreateEntity { entity: Entity(bits) }),
            Err(error) => Err(error),
        }
    }

    fn encode(&self) -> (res: Result<Vec<u8>, EncodeError>) {
        encode_varint(self.entity.to_bits())
    }

    fn decode(bytes: &[u8]) -> (res: Result<Self, DecodeError>) {
        match decode_id(bytes) {
            Ok(bits) => Ok(CreateEntity { entity: Entity::from_bits(bits) }),
            Err(error) => Err(error),
        }
    }

    proof fn lemma_round_trip(&self, rest: Seq<u8>) {
        lemma_varint_round_trip(self.entity.0, rest);
    }
}

/// Tells a client that an entity has left the server's world.
#[derive(Clone, Copy, Debug, PartialEq, Eq, Structural)]
pub struct DestroyEntity {
    pub entity: Entity,
}

impl Message for DestroyEntity {
    open spec fn kind() -> MessageKind {
        MessageKind::DestroyEntity
    }

    fn message_kind() -> (kind: MessageKind) {
        MessageKind::DestroyEntity
    }

    open spec fn encodable(&self) -> bool {
        true
    }

    open spec fn wire(&self) -> Seq<u8> {
        varint_bytes(self.entity.0)
    }

    open spec fn parse(bytes: Seq<u8>) -> Result<Self, DecodeError> {
        match parse_id(bytes) {
            Ok(bits) => Ok(DestroyEntity { entity: Entity(bits) }),
            Err(error) => Err(error),
        }
    }

    fn encode(&self) -> (res: Result<Vec<u8>, EncodeError>) {
        encode_varint(self.entity.to_bits())
    }

    fn decode(bytes: &[u8]) -> (res: Result<Self, DecodeError>) {
        match decode_id(bytes) {
            Ok(bits) => Ok(DestroyEntity { entity: Entity::from_bits(bits) }),
            Err(error) => Err(error),
        }
    }

    proof fn lemma_round_trip(&self, rest: Seq<u8>) {
        lemma_varint_round_trip(self.entity.0, rest);
    }
}

/// Answers "which entity is mine": the requester's avatar in the server's world.
#[derive(Clone, Copy, Debug, PartialEq, Eq, Structural)]
pub struct PlayerEntity {
    pub entity: Entity,
}

impl Message for PlayerEntity {
    open spec fn kind() -> MessageKind {
        MessageKind::PlayerEntity
    }

    fn message_kind() -> (kind: MessageKind) {
        MessageKind::PlayerEntity
    }

    open spec fn encodable(&self) -> bool {
        true
    }

    open spec fn wire(&self) -> Seq<u8> {
        varint_bytes(self.entity.0)
    }

    open spec fn parse(bytes: Seq<u8>) -> Result<Self, DecodeError> {
        match parse_id(bytes) {
            Ok(bits) => Ok(PlayerEntity { entity: Entity(bits) }),
            Err(error) => Err(error),
        }
    }

    fn encode(&self) -> (res: Result<Vec<u8>, EncodeError>) {
        encode_varint(self.entity.to_bits())
    }

    fn decode(bytes: &[u8]) -> (res: Result<Self, DecodeError>) {
        match decode_id(bytes) {
            Ok(bits) => Ok(PlayerEntity { entity: Entity::from_bits(bits) }),
            Err(error) => Err(error),
        }
    }

    proof fn lemma_round_trip(&self, rest: Seq<u8>) {
        lemma_varint_round_trip(self.entity.0, rest);
    }
}

/// Asks the server for the entities of a world.
#[derive(Clone, Copy, Debug, PartialEq, Eq, Structural)]
pub struct GetWorldState {
    pub world: u64,
}

impl Message for GetWorldState {
    open spec fn kind() -> MessageKind {
        MessageKind::GetWorldState
    }

    fn message_kind() -> (kind: MessageKind) {
        MessageKind::GetWorldState
    }

    open spec fn encodable(&self) -> bool {
        true
    }

    open spec fn wire(&self) -> Seq<u8> {
        varint_bytes(self.world)
    }

    open spec fn parse(bytes: Seq<u8>) -> Result<Self, DecodeError> {
        match parse_id(bytes) {
            Ok(world) => Ok(GetWorldState { world }),
            Err(error) => Err(error),
        }
    }

    fn encode(&self) -> (res: Result<Vec<u8>, EncodeError>) {
        encode_varint(self.world)
    }

    fn decode(bytes: &[u8]) -> (res: Result<Self, DecodeError>) {
        match decode_id(bytes) {
            Ok(world) => Ok(GetWorldState { world }),
            Err(error) => Err(error),
        }
    }

    proof fn lemma_round_trip(&self, rest: Seq<u8>) {
        lemma_varint_round_trip(self.world, rest);
    }
}

/// Asks the server which entity of a world stands for the requester.
#[derive(Clone, Copy, Debug, PartialEq, Eq, Structural)]
pub struct GetPlayerEntity {
    pub world: u64,
}

impl Message for GetPlayerEntity {
    open spec fn kind() -> MessageKind {
        MessageKind::GetPlayerEntity
    }

    fn message_kind() -> (kind: MessageKind) {
        MessageKind::GetPlayerEntity
    }

    open spec fn encodable(&self) -> bool {
        true
    }

    open spec fn wire(&self) -> Seq<u8> {
        varint_bytes(self.world)
    }

    open spec fn parse(bytes: Seq<u8>) -> Result<Self, DecodeError> {
        match parse_id(bytes) {
            Ok(world) => Ok(GetPlayerEntity { world }),
            Err(error) => Err(error),
        }
    }

    fn encode(&self) -> (res: Result<Vec<u8>, EncodeError>) {
        encode_varint(self.world)
    }

    fn decode(bytes: &[u8]) -> (res: Result<Self, DecodeError>) {
        match decode_id(bytes) {
            Ok(world) => Ok(GetPlayerEntity { world }),
            Err(error) => Err(error),
        }
    }

    proof fn lemma_round_trip(&self, rest: Seq<u8>) {
        lemma_varint_round_trip(self.world, rest);
    }
}

/// Where an entity stands. Each coordinate is held as the bit pattern of a
/// single-precision number, which is what travels.
#[derive(Clone, Copy, Debug, PartialEq, Eq, Structural)]
pub struct EntityPosition {
    pub entity: Entity,
    pub x: u32,
    pub y: u32,
    pub z: u32,
}

impl Message for EntityPosition {
    open spec fn kind() -> MessageKind {
        MessageKind::EntityPosition
    }

    fn message_kind() -> (kind: MessageKind) {
        MessageKind::EntityPosition
    }

    open spec fn encodable(&self) -> bool {
        true
    }

    open spec fn wire(&self) -> Seq<u8> {
        varint_bytes(self.entity.0) + le_bytes(self.x as nat, 4) + le_bytes(self.y as nat, 4)
            + le_bytes(self.z as nat, 4)
    }

    open spec fn parse(bytes: Seq<u8>) -> Result<Self, DecodeError> {
        match varint_read(bytes) {
            Ok((bits, taken)) => {
                if bytes.len() >= taken + 12 {
                    Ok(
                        EntityPosition {
                            entity: Entity(bits),
                            x: le_value(bytes.subrange(taken as int, taken + 4)) as u32,
                            y: le_value(bytes.subrange(taken + 4, taken + 8)) as u32,
                            z: le_value(bytes.subrange(taken + 8, taken + 12)) as u32,
                        },
                    )
                } else {
                    Err(DecodeError::UnexpectedEnd)
                }
            },
            Err(error) => Err(error),
        }
    }

    fn encode(&self) -> (res: Result<Vec<u8>, EncodeError>) {
        match encode_varint(self.entity.to_bits()) {
            Ok(mut bytes) => {
                put_u32_le(&mut bytes, self.x);
                put_u32_le(&mut bytes, self.y);
                put_u32_le(&mut bytes, self.z);
                Ok(bytes)
            },
            Err(error) => Err(error),
        }
    }

    fn decode(bytes: &[u8]) -> (res: Result<Self, DecodeError>) {
        match decode_varint(bytes) {
            Ok((bits, taken)) => {
                if bytes.len() - taken >= 12 {
                    Ok(
                        EntityPosition {
                            entity: Entity::from_bits(bits),
                            x: get_u32_le(bytes, taken),
                            y: get_u32_le(bytes, taken + 4),
                            z: get_u32_le(bytes, taken + 8),
                        },
                    )
                } else {
                    Err(DecodeError::UnexpectedEnd)
                }
            },
            Err(error) => Err(error),
        }
    }

    proof fn lemma_round_trip(&self, rest: Seq<u8>) {
        let head = varint_bytes(self.entity.0);
        let tail = le_bytes(self.x as nat, 4) + le_bytes(self.y as nat, 4) + le_bytes(
            self.z as nat,
            4,
        ) + rest;
        let all = self.wire() + rest;
        assert(all =~= head + tail);
        lemma_varint_round_trip(self.entity.0, tail);
        lemma_limits();
        lemma_le_bytes_len(self.x as nat, 4);
        lemma_le_bytes_len(self.y as nat, 4);
        lemma_le_bytes_len(self.z as nat, 4);
        lemma_le_round_trip(self.x as nat, 4);
        lemma_le_round_trip(self.y as nat, 4);
        lemma_le_round_trip(self.z as nat, 4);
        let taken = head.len() as int;
        assert(all.subrange(taken, taken + 4) =~= le_bytes(self.x as nat, 4));
        assert(all.subrange(taken + 4, taken + 8) =~= le_bytes(self.y as nat, 4));
        assert(all.subrange(taken + 8, taken + 12) =~= le_bytes(self.z as nat, 4));
    }
}

/// Decoding what `encode` gave returns the value that was encoded.
pub proof fn lemma_decode_inverts_encode<T: Message>(value: T)
    requires
        value.encodable(),
    ensures
        T::parse(value.wire()) == Ok::<T, DecodeError>(value),
{
    value.lemma_round_trip(Seq::empty());
    assert(value.wire() + Seq::<u8>::empty() =~= value.wire());
}

/// Every kind of value that travels between server and client.
#[derive(Clone, Copy, Debug, PartialEq, Eq, Structural)]
pub enum Events {
    PlayerInput(PlayerInput),
    EntityPosition(EntityPosition),
    CreateEntity(CreateEntity),
    DestroyEntity(DestroyEntity),
    GetWorldState(GetWorldState),
    GetPlayerEntity(GetPlayerEntity),
    PlayerEntity(PlayerEntity),
}

/// Every message of a registered kind has an encoding, and is decoded from
/// its encoding as itself.
pub proof fn lemma_registered_messages_round_trip(event: Events)
    ensures
        match event {
            Events::PlayerInput(v) => v.encodable() && PlayerInput::parse(v.wire()) == Ok::<
                PlayerInput,
                DecodeError,
            >(v),
            Events::EntityPosition(v) => v.encodable() && EntityPosition::parse(v.wire()) == Ok::<
                EntityPosition,
                DecodeError,
            >(v),
            Events::CreateEntity(v) => v.encodable() && CreateEntity::parse(v.wire()) == Ok::<
                CreateEntity,
                DecodeError,
            >(v),
            Events::DestroyEntity(v) => v.encodable() && DestroyEntity::parse(v.wire()) == Ok::<
                DestroyEntity,
                DecodeError,
            >(v),
            Events::GetWorldState(v) => v.encodable() && GetWorldState::parse(v.wire()) == Ok::<
                GetWorldState,
                DecodeError,
            >(v),
            Events::GetPlayerEntity(v) => v.encodable() && GetPlayerEntity::parse(v.wire())
                == Ok::<GetPlayerEntity, DecodeError>(v),
            Events::PlayerEntity(v) => v.encodable() && PlayerEntity::parse(v.wire()) == Ok::<
                PlayerEntity,
                DecodeError,
            >(v),
        },
{
    match event {
        Events::PlayerInput(v) => lemma_decode_inverts_encode(v),
        Events::EntityPosition(v) => lemma_decode_inverts_encode(v),
        Events::CreateEntity(v) => lemma_decode_inverts_encode(v),
        Events::DestroyEntity(v) => lemma_decode_inverts_encode(v),
        Events::GetWorldState(v) => lemma_decode_inverts_encode(v),
        Events::GetPlayerEntity(v) => lemma_decode_inverts_encode(v),
        Events::PlayerEntity(v) => lemma_decode_inverts_encode(v),
    }
}

impl Events {
    /// The kind of the value that is held.
    pub fn kind(&self) -> (kind: MessageKind)
        ensures
            kind == match *self {
                Events::PlayerInput(_) => MessageKind::PlayerInput,
                Events::EntityPosition(_) => MessageKind::EntityPosition,
                Events::CreateEntity(_) => MessageKind::CreateEntity,
                Events::DestroyEntity(_) => MessageKind::DestroyEntity,
                Events::GetWorldState(_) => MessageKind::GetWorldState,
                Events::GetPlayerEntity(_) => MessageKind::GetPlayerEntity,
                Events::PlayerEntity(_) => MessageKind::PlayerEntity,
            },
    {
        match self {
            Events::PlayerInput(_) => MessageKind::PlayerInput,
            Events::EntityPosition(_) => MessageKind::EntityPosition,
            Events::CreateEntity(_) => MessageKind::CreateEntity,
            Events::DestroyEntity(_) => MessageKind::DestroyEntity,
            Events::GetWorldState(_) => MessageKind::GetWorldState,
            Events::GetPlayerEntity(_) => MessageKind::GetPlayerEntity,
            Events::PlayerEntity(_) => MessageKind::PlayerEntity,
        }
    }
}

} // verus!
