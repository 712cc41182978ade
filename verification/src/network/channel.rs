use super::events::{Message, MessageKind};
use vstd::prelude::*;

verus! {

/// Which way the messages of a kind travel, seen from the side that registers
/// the kind.
#[derive(Clone, Copy, Debug, PartialEq, Eq, Structural)]
pub enum NetworkEventDirection {
    Send,
    Receive,
    Both,
}

/// The two ends of a connection.
#[derive(Clone, Copy, Debug, PartialEq, Eq, Structural)]
pub enum Side {
    Server,
    Client,
}

/// What a pump does: it drains the queue of messages to send, or it reads the
/// frames that came in.
#[derive(Clone, Copy, Debug, PartialEq, Eq, Structural)]
pub enum PumpRole {
    Send,
    Receive,
}

/// A recurring task that moves the messages of one kind one way. It runs only
/// while the transport is connected and, where `needs_phase` is set, only
/// while the session is in its running phase.
#[derive(Clone, Copy, Debug, PartialEq, Eq, Structural)]
pub struct Pump {
    pub kind: MessageKind,
    pub role: PumpRole,
    pub needs_phase: bool,
}

impl Pump {
    /// Whether the pump runs in this tick.
    pub fn runs(&self, connected: bool, in_phase: bool) -> (go: bool)
        ensures
            go == (connected && (in_phase || !self.needs_phase)),
    {
        connected && (in_phase || !self.needs_phase)
    }
}

/// The pumps that registering a kind adds. The two sides differ in their
/// gates. The server has nothing to say before its world runs, so each of
/// its pumps waits for the running phase. A client has to hear of the world
/// while it still loads, so its receive pumps run from the moment it is
/// connected; what it only sends is the player's doing, which begins with the
/// gameplay phase, so the pump of a kind that it only sends waits for that
/// phase. The two pumps of a kind that goes both ways share one gate, which
/// on a client is that of its receive pump.
pub open spec fn pumps_for(side: Side, kind: MessageKind, direction: NetworkEventDirection) -> Seq<
    Pump,
> {
    match direction {
        NetworkEventDirection::Send => seq![
            Pump { kind, role: PumpRole::Send, needs_phase: true },
        ],
        NetworkEventDirection::Receive => seq![
            Pump { kind, role: PumpRole::Receive, needs_phase: side == Side::Server },
        ],
        NetworkEventDirection::Both => seq![
            Pump { kind, role: PumpRole::Send, needs_phase: side == Side::Server },
            Pump { kind, role: PumpRole::Receive, needs_phase: side == Side::Server },
        ],
    }
}

/// The pumps of one side, in the order in which their kinds were registered.
pub struct ChannelRegistry {
    pub side: Side,
    pub pumps: Vec<Pump>,
}

impl ChannelRegistry {
    /// A registry without pumps.
    pub fn new(side: Side) -> (registry: Self)
        ensures
            registry.side == side,
            registry.pumps@ == Seq::<Pump>::empty(),
    {
        ChannelRegistry { side, pumps: Vec::new() }
    }

    /// Registers the messages of type `T` for the given direction.
    pub fn register_network_event<T: Message>(&mut self, direction: NetworkEventDirection)
        ensures
            final(self).side == old(self).side,
            final(self).pumps@ == old(self).pumps@ + pumps_for(
                old(self).side,
                T::kind(),
                direction,
            ),
    {
        let kind = T::message_kind();
        let on_server = match self.side {
            Side::Server => true,
            Side::Client => false,
        };
        match direction {
            NetworkEventDirection::Send => {
                self.pumps.push(Pump { kind, role: PumpRole::Send, needs_phase: true });
            },
            NetworkEventDirection::Receive => {
                self.pumps.push(Pump { kind, role: PumpRole::Receive, needs_phase: on_server });
            },
            NetworkEventDirection::Both => {
                self.pumps.push(Pump { kind, role: PumpRole::Send, needs_phase: on_server });
                self.pumps.push(Pump { kind, role: PumpRole::Receive, needs_phase: on_server });
            },
        }
        assert(self.pumps@ =~= old(self).pumps@ + pumps_for(old(self).side, T::kind(), direction));
    }

    /// Whether a pump of the given kind and role is registered.
    pub fn has_pump(&self, kind: MessageKind, role: PumpRole) -> (found: bool)
        ensures
            found == exists|i: int|
                0 <= i < self.pumps@.len() && (#[trigger] self.pumps@[i]).kind == kind
                    && self.pumps@[i].role == role,
    {
        let mut i: usize = 0;
        while i < self.pumps.len()
            invariant
                i <= self.pumps@.len(),
                forall|k: int|
                    0 <= k < i ==> !((#[trigger] self.pumps@[k]).kind == kind && self.pumps@[k].role
                        == role),
            decreases self.pumps@.len() - i,
        {
            if self.pumps[i].kind == kind && self.pumps[i].role == role {
                return true;
            }
            i = i + 1;
        }
        false
    }
}

/// The values that the frames hold, in order. A frame that does not decode
/// adds nothing.
pub open spec fn decoded<T: Message>(frames: Seq<Vec<u8>>) -> Seq<T>
    decreases frames.len(),
{
    if frames.len() == 0 {
        Seq::empty()
    } else {
        let earlier = decoded::<T>(frames.drop_last());
        match T::parse(frames.last()@) {
            Ok(value) => earlier.push(value),
            Err(_) => earlier,
        }
    }
}

/// The payloads of the messages that have an encoding, in order. A message
/// without one adds nothing.
pub open spec fn encoded<T: Message>(messages: Seq<T>) -> Seq<Seq<u8>>
    decreases messages.len(),
{
    if messages.len() == 0 {
        Seq::empty()
    } else {
        let earlier = encoded(messages.drop_last());
        if messages.last().encodable() {
            earlier.push(messages.last().wire())
        } else {
            earlier
        }
    }
}

/// Decodes every frame as a `T` and drops each frame that holds none.
pub fn decode_frames<T: Message>(frames: &Vec<Vec<u8>>) -> (out: Vec<T>)
    ensures
        out@ == decoded::<T>(frames@),
{
    let mut out: Vec<T> = Vec::new();
    let mut i: usize = 0;
    assert(frames@.take(0) =~= Seq::empty());
    while i < frames.len()
        invariant
            i <= frames@.len(),
            out@ == decoded::<T>(frames@.take(i as int)),
        decreases frames@.len() - i,
    {
        assert(frames@.take(i + 1).drop_last() =~= frames@.take(i as int));
        match T::decode(frames[i].as_slice()) {
            Ok(value) => {
                out.push(value);
            },
            Err(_) => {},
        }
        i = i + 1;
    }
    assert(frames@.take(i as int) =~= frames@);
    out
}

/// Frames that come in two batches are received as if they came in one:
/// the values of the first batch, then those of the second.
pub proof fn lemma_decoded_in_batches<T: Message>(first: Seq<Vec<u8>>, second: Seq<Vec<u8>>)
    ensures
        decoded::<T>(first + second) == decoded::<T>(first) + decoded::<T>(second),
    decreases second.len(),
{
    if second.len() == 0 {
        assert(first + second =~= first);
        assert(decoded::<T>(first) + decoded::<T>(second) =~= decoded::<T>(first));
    } else {
        lemma_decoded_in_batches::<T>(first, second.drop_last());
        assert((first + second).drop_last() =~= first + second.drop_last());
        assert((first + second).last() == second.last());
        match T::parse(second.last()@) {
            Ok(value) => {
                assert(decoded::<T>(first + second) =~= decoded::<T>(first) + decoded::<T>(
                    second,
                ));
            },
            Err(_) => {},
        }
    }
}

/// What one end sends the other receives: the frames of messages that all
/// have an encoding decode to those messages, in order.
pub proof fn lemma_sent_is_received<T: Message>(messages: Seq<T>, frames: Seq<Vec<u8>>)
    requires
        forall|k: int| 0 <= k < messages.len() ==> (#[trigger] messages[k]).encodable(),
        frames.len() == encoded(messages).len(),
        forall|k: int| 0 <= k < frames.len() ==> (#[trigger] frames[k])@ == encoded(messages)[k],
    ensures
        encoded(messages).len() == messages.len(),
        decoded::<T>(frames) == messages,
    decreases messages.len(),
{
    if messages.len() == 0 {
        assert(decoded::<T>(frames) =~= messages);
    } else {
        let last = messages.last();
        assert(last == messages[messages.len() - 1]);
        assert(encoded(messages) == encoded(messages.drop_last()).push(last.wire()));
        lemma_encoded_len(messages.drop_last());
        assert forall|k: int| 0 <= k < frames.drop_last().len() implies (
        #[trigger] frames.drop_last()[k])@ == encoded(messages.drop_last())[k] by {
            assert(frames.drop_last()[k] == frames[k]);
        }
        lemma_sent_is_received::<T>(messages.drop_last(), frames.drop_last());
        assert(frames.last() == frames[frames.len() - 1]);
        assert(frames.last()@ == last.wire());
        last.lemma_round_trip(Seq::empty());
        assert(last.wire() + Seq::<u8>::empty() =~= last.wire());
        assert(decoded::<T>(frames) =~= messages);
    }
}

/// Messages that all have an encoding give one frame each.
proof fn lemma_encoded_len<T: Message>(messages: Seq<T>)
    requires
        forall|k: int| 0 <= k < messages.len() ==> (#[trigger] messages[k]).encodable(),
    ensures
        encoded(messages).len() == messages.len(),
    decreases messages.len(),
{
    if messages.len() > 0 {
        assert(messages.last() == messages[messages.len() - 1]);
        lemma_encoded_len(messages.drop_last());
    }
}

/// A frame that does not decode changes nothing about what is received: no
/// value is seen for it, and the values of the other frames are as without it.
pub proof fn lemma_malformed_frame_is_dropped<T: Message>(
    before: Seq<Vec<u8>>,
    frame: Vec<u8>,
    after: Seq<Vec<u8>>,
)
    requires
        T::parse(frame@) is Err,
    ensures
        decoded::<T>(before.push(frame) + after) == decoded::<T>(before + after),
    decreases after.len(),
{
    if after.len() == 0 {
        assert(before.push(frame) + after =~= before.push(frame));
        assert(before + after =~= before);
        assert(before.push(frame).drop_last() =~= before);
    } else {
        let with = before.push(frame) + after;
        let without = before + after;
        lemma_malformed_frame_is_dropped::<T>(before, frame, after.drop_last());
        assert(with.drop_last() =~= before.push(frame) + after.drop_last());
        assert(without.drop_last() =~= before + after.drop_last());
        assert(with.last() == after.last());
        assert(without.last() == after.last());
    }
}

} // verus!
