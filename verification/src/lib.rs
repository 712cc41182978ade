//! The synchronisation layer of a multiplayer game, and the quantities and
//! materials of its world.
//!
//! A server owns the world and tells its clients of it; each client shows
//! what it is told and sends what its player wants. `network` holds what the
//! two ends share: the messages and their encoding, the channels that carry
//! them, the identity maps that translate between the entities of either
//! end, the state of a connection, and the reactions to clients that come
//! and go. The transport that moves the frames is not part of this library.
//!
//! `units` holds quantities in whole base units, `materials` what the world
//! is made of, `loaders` the reading of configuration files, and `input` the
//! player's intents.

pub mod ai;
pub mod input;
pub mod loaders;
pub mod materials;
pub mod network;
pub mod units;

use vstd::prelude::*;

verus! {

/// The three numbers of this build's version.
pub const VERSION_MAJOR: u32 = 0;

pub const VERSION_MINOR: u32 = 1;

pub const VERSION_PATCH: u32 = 0;

/// A version as one number: the major number in the highest byte, then the
/// minor number, then the patch number, then a zero byte.
pub open spec fn packed_version(major: u32, minor: u32, patch: u32) -> u32 {
    major << 24 | minor << 16 | patch << 8
}

/// Packs the three numbers of a version into one.
pub fn pack_version(major: u32, minor: u32, patch: u32) -> (packed: u32)
    ensures
        packed == packed_version(major, minor, patch),
{
    major << 24 | minor << 16 | patch << 8
}

/// This build's version.
pub fn version() -> (text: &'static str)
    ensures
        text@ == "0.1.0"@,
{
    "0.1.0"
}

/// This build's version as one number.
pub fn version_num() -> (packed: u32)
    ensures
        packed == packed_version(VERSION_MAJOR, VERSION_MINOR, VERSION_PATCH),
        packed == 65536,
{
    assert(packed_version(0, 1, 0) == 65536) by (bit_vector);
    pack_version(VERSION_MAJOR, VERSION_MINOR, VERSION_PATCH)
}

/// Versions whose numbers each fit in a byte get the same packed number only
/// if they are the same version.
pub proof fn lemma_packed_version_tells_apart(a: (u32, u32, u32), b: (u32, u32, u32))
    requires
        a.0 < 256 && a.1 < 256 && a.2 < 256,
        b.0 < 256 && b.1 < 256 && b.2 < 256,
        packed_version(a.0, a.1, a.2) == packed_version(b.0, b.1, b.2),
    ensures
        a == b,
{
    let (a0, a1, a2) = a;
    let (b0, b1, b2) = b;
    assert(a0 < 256 && a1 < 256 && a2 < 256 && b0 < 256 && b1 < 256 && b2 < 256 && (a0 << 24 | a1
        << 16 | a2 << 8) == (b0 << 24 | b1 << 16 | b2 << 8) ==> a0 == b0 && a1 == b1 && a2 == b2)
        by (bit_vector);
}

} // verus!
