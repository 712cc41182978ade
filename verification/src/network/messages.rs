use super::events::Entity;
use crate::input::PlayerInput;
use vstd::prelude::*;

verus! {

/// Where a client's avatar stands. Each coordinate is held as the bit pattern
/// of a single-precision number.
#[derive(Clone, Copy, Debug, PartialEq, Eq)]
pub struct Position {
    pub client: Entity,
    pub pos: [u32; 3],
}

/// The messages of the single-channel protocol, told apart by their variant.
#[derive(Clone, Copy, Debug, PartialEq, Eq)]
pub enum NetworkMessages {
    PlayerInput(PlayerInput),
    Position(Position),
    CreateEntity(Entity),
    DestroyEntity(Entity),
}

} // verus!
