use super::client_entity_mapper::{entity_of, ClientEntityMapper};
use super::event_types::SendToClient;
use super::events::{CreateEntity, DestroyEntity, Entity};
use super::identity_map::lookup;
use super::server::{client_connected, client_disconnected, created, destroyed};
use super::session::{answer, lemma_without, without, Handshake, Rejection, ServerSession};
use vstd::prelude::*;

verus! {

/// The server's connections and their avatars, kept together: a client is
/// connected exactly while it has an avatar.
pub struct LifecycleController {
    session: ServerSession,
    mapper: ClientEntityMapper,
}

impl LifecycleController {
    /// The identifiers of the connected clients, in the order in which they
    /// connected.
    pub closed spec fn clients(self) -> Seq<u64> {
        self.session.clients()
    }

    /// Each mapped client's identifier, with the bits of the client's avatar.
    pub closed spec fn avatars(self) -> Map<u64, u64> {
        self.mapper@
    }

    /// The most clients that are admitted at a time.
    pub closed spec fn max_clients(self) -> usize {
        self.session.max_clients()
    }

    /// The protocol identifier that a handshake has to present.
    pub closed spec fn protocol_id(self) -> u64 {
        self.session.protocol_id()
    }

    /// The connected clients are those that have an avatar.
    pub open spec fn consistent(self) -> bool {
        forall|client: u64| #[trigger]
            self.avatars().contains_key(client) <==> self.clients().contains(client)
    }

    /// A server that admits up to `max_clients` clients of the given
    /// protocol, none of which is connected yet.
    pub fn new(max_clients: usize, protocol_id: u64) -> (controller: Self)
        ensures
            controller.consistent(),
            controller.clients() == Seq::<u64>::empty(),
            controller.avatars() == Map::<u64, u64>::empty(),
            controller.max_clients() == max_clients,
            controller.protocol_id() == protocol_id,
    {
        LifecycleController {
            session: ServerSession::new(max_clients, protocol_id),
            mapper: ClientEntityMapper::new(),
        }
    }

    /// Whether a handshake of `client_id` that presents `protocol_id` would
    /// be accepted. A client is to be given an avatar only if it would.
    pub fn admits(&self, client_id: u64, protocol_id: u64) -> (out: Handshake)
        ensures
            out == answer(
                self.clients(),
                self.max_clients(),
                self.protocol_id(),
                client_id,
                protocol_id,
            ),
    {
        self.session.admits(client_id, protocol_id)
    }

    /// Takes a client in: where its handshake is accepted, the client is
    /// connected, mapped to its avatar, and every other client is told of the
    /// avatar. Where it is rejected nothing changes.
    pub fn connect(&mut self, client_id: u64, protocol_id: u64, avatar: Entity) -> (out: Result<
        SendToClient<CreateEntity>,
        Rejection,
    >)
        requires
            old(self).consistent(),
        ensures
            final(self).consistent(),
            final(self).max_clients() == old(self).max_clients(),
            final(self).protocol_id() == old(self).protocol_id(),
            match answer(
                old(self).clients(),
                old(self).max_clients(),
                old(self).protocol_id(),
                client_id,
                protocol_id,
            ) {
                Handshake::Accepted => {
                    &&& out == Ok::<SendToClient<CreateEntity>, Rejection>(
                        created(client_id, avatar),
                    )
                    &&& final(self).clients() == old(self).clients().push(client_id)
                    &&& final(self).avatars() == old(self).avatars().insert(client_id, avatar.0)
                },
                Handshake::Rejected(why) => {
                    &&& out == Err::<SendToClient<CreateEntity>, Rejection>(why)
                    &&& final(self).clients() == old(self).clients()
                    &&& final(self).avatars() == old(self).avatars()
                },
            },
    {
        let ghost before = self.session.clients();
        match self.session.handshake(client_id, protocol_id) {
            Handshake::Accepted => {
                let message = client_connected(&mut self.mapper, client_id, avatar);
                proof {
                    let after = before.push(client_id);
                    assert forall|client: u64| #[trigger]
                        self.avatars().contains_key(client) <==> after.contains(client) by {
                        if client == client_id {
                            assert(after[before.len() as int] == client_id);
                        } else {
                            assert(old(self).avatars().contains_key(client) <==> old(
                                self,
                            ).clients().contains(client));
                            if before.contains(client) {
                                let k = choose|k: int| 0 <= k < before.len() && before[k] == client;
                                assert(after[k] == client);
                            }
                            if after.contains(client) {
                                let k = choose|k: int| 0 <= k < after.len() && after[k] == client;
                                assert(before[k] == client);
                            }
                        }
                    }
                }
                Ok(message)
            },
            Handshake::Rejected(why) => {
                proof {
                    assert forall|client: u64| #[trigger]
                        self.avatars().contains_key(client) <==> self.clients().contains(
                            client,
                        ) by {
                        assert(old(self).avatars().contains_key(client) <==> old(
                            self,
                        ).clients().contains(client));
                    }
                }
                Err(why)
            },
        }
    }

    /// Lets a client go: the client's connection and its avatar's mapping end
    /// together. Where the client was connected, the message comes back
    /// that tells every client that the avatar is gone; the avatar to
    /// destroy is the entity of that message.
    pub fn disconnect(&mut self, client_id: u64) -> (out: Option<SendToClient<DestroyEntity>>)
        requires
            old(self).consistent(),
        ensures
            final(self).consistent(),
            final(self).max_clients() == old(self).max_clients(),
            final(self).protocol_id() == old(self).protocol_id(),
            final(self).clients() == without(old(self).clients(), client_id),
            final(self).avatars() == old(self).avatars().remove(client_id),
            !final(self).clients().contains(client_id),
            !final(self).avatars().contains_key(client_id),
            out == (if old(self).clients().contains(client_id) {
                Some(destroyed(Entity(old(self).avatars()[client_id])))
            } else {
                None
            }),
    {
        let ghost before = self.session.clients();
        self.session.disconnect(client_id);
        let out = client_disconnected(&mut self.mapper, client_id);
        proof {
            lemma_without(before, client_id);
            assert forall|client: u64| #[trigger]
                self.avatars().contains_key(client) <==> self.clients().contains(client) by {
                if client != client_id {
                    assert(old(self).avatars().contains_key(client) <==> old(
                        self,
                    ).clients().contains(client));
                    assert(without(before, client_id).contains(client) <==> before.contains(
                        client,
                    ));
                }
            }
            assert(old(self).avatars().contains_key(client_id) <==> old(self).clients().contains(
                client_id,
            ));
        }
        out
    }

    /// The avatar of a client. A client without one is no error.
    pub fn map_client(&self, client_id: u64) -> (avatar: Option<Entity>)
        ensures
            avatar == entity_of(lookup(self.avatars(), client_id)),
    {
        self.mapper.map_client(client_id)
    }

    /// How many clients are connected.
    pub fn connected_count(&self) -> (count: usize)
        ensures
            count == self.clients().len(),
            count <= self.max_clients(),
            self.clients().no_duplicates(),
    {
        self.session.connected_count()
    }
}

} // verus!
