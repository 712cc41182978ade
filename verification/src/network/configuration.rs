use crate::{packed_version, VERSION_MAJOR, VERSION_MINOR, VERSION_PATCH};
use vstd::prelude::*;

verus! {

/// The address that both sockets are bound on.
pub const LOCAL_ADDRESS: [u8; 4] = [127, 0, 0, 1];

/// The address that the server is reached at.
pub const SERVER_ADDRESS: [u8; 4] = [127, 0, 0, 1];

/// The port of a client's socket: zero leaves the choice to the system.
pub const SERVER_TO_CLIENT_PORT: u16 = 0;

/// The port of the server's socket.
pub const CLIENT_TO_SERVER_PORT: u16 = 43735;

/// The protocol identifier of this build: its version as one number. Two
/// ends whose identifiers differ do not talk to each other.
pub const PROTOCOL_ID: u64 = 65536;

/// The protocol identifier is the version of the build.
pub proof fn lemma_protocol_id_is_version()
    ensures
        PROTOCOL_ID == packed_version(VERSION_MAJOR, VERSION_MINOR, VERSION_PATCH),
{
    assert(packed_version(0, 1, 0) == 65536) by (bit_vector);
}

} // verus!
