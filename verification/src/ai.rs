use crate::network::events::Entity;
use vstd::prelude::*;

verus! {

/// What an agent is busy with.
#[derive(Clone, Copy, Debug, PartialEq, Eq, Structural)]
pub enum AiState {
    Gather,
    Mining,
    Return,
    Rest,
    Sell,
}

/// The mind of an agent: what it is busy with, and what or where it is
/// headed for. A place is held as the bit patterns of three single-precision
/// numbers.
#[derive(Clone, Copy, Debug, PartialEq, Eq)]
pub struct Brain {
    pub id: u32,
    pub state: AiState,
    pub target_entity: Option<Entity>,
    pub target_position: Option<(u32, u32, u32)>,
}

} // verus!
