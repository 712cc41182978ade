use vstd::prelude::*;

verus! {

/// The intents of one player as the input layer holds them: each field is
/// zero while the intent is off.
#[derive(Default, Clone, Copy, Debug, PartialEq, Eq, Structural)]
pub struct PlayerInput {
    pub left: u8,
    pub right: u8,
    pub forward: u8,
    pub backward: u8,
    pub jump: u8,
    pub crouch: u8,
    pub primary: u8,
    pub secondary: u8,
}

} // verus!
