pub mod channel;
pub mod client;
pub mod client_entity_mapper;
pub mod codec;
pub mod configuration;
pub mod entity_mapper;
pub mod event_types;
pub mod events;
pub mod identity_map;
pub mod lifecycle;
pub mod messages;
pub mod server;
pub mod session;

pub use self::client_entity_mapper::{ClientEntityMapper, ClientMapping};
pub use self::entity_mapper::EntityMapper;
pub use self::event_types::{
    Addressee, ReceiveFromClient, ReceiveFromServer, SendToClient, SendToServer,
};
pub use self::messages::{NetworkMessages, Position};
