pub mod player_control;
pub mod player_input;

pub use self::player_control::PlayerControlPlugin;
pub use self::player_input::PlayerInput;
