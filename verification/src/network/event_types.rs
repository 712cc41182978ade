use vstd::prelude::*;

verus! {

/// Whom a message of the server is for.
#[derive(Clone, Copy, Debug, PartialEq, Eq, Structural)]
pub enum Addressee {
    /// The client of this identifier.
    One(u64),
    /// Every connected client.
    All,
    /// Every connected client but the one of this identifier.
    AllBut(u64),
}

impl Addressee {
    /// Whether a message for this addressee goes to the given client, which
    /// is connected.
    pub open spec fn includes(self, client: u64) -> bool {
        match self {
            Addressee::One(one) => client == one,
            Addressee::All => true,
            Addressee::AllBut(other) => client != other,
        }
    }

    /// Whether a message for this addressee goes to the given client, which
    /// is connected.
    pub fn reaches(&self, client: u64) -> (reached: bool)
        ensures
            reached == self.includes(client),
    {
        match *self {
            Addressee::One(one) => client == one,
            Addressee::All => true,
            Addressee::AllBut(other) => client != other,
        }
    }
}

/// A message for the server to send, with whom it is for.
#[derive(Clone, Copy, Debug, PartialEq, Eq)]
pub struct SendToClient<T> {
    pub client: Addressee,
    pub message: T,
}

/// A message that the server got, with the client that sent it.
#[derive(Clone, Copy, Debug, PartialEq, Eq)]
pub struct ReceiveFromClient<T> {
    pub client: u64,
    pub message: T,
}

/// A message for a client to send to the server.
#[derive(Clone, Copy, Debug, PartialEq, Eq)]
pub struct SendToServer<T> {
    pub message: T,
}

/// A message that a client got from the server.
#[derive(Clone, Copy, Debug, PartialEq, Eq)]
pub struct ReceiveFromServer<T> {
    pub message: T,
}

} // verus!
