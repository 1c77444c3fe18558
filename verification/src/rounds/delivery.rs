//! Delivery bookkeeping between the engines and an external authenticated
//! transport.
//!
//! The transport itself lives outside this crate; what is verified here is
//! everything the adapter decides: monotone local message ids, the FIFO
//! outgoing queue, the transport envelope built for each queued message, the
//! classification of inbound messages by the presence of a recipient, and the
//! one-byte round tag that frames every payload.
use vstd::prelude::*;

use crate::rounds::router::MsgKind;

verus! {

/// Where an outgoing message is bound.
#[derive(Clone, Copy, PartialEq, Eq, Structural, Debug)]
pub enum MessageDestination {
    /// To every other party.
    AllParties,
    /// To the one party with this index.
    OneParty(u16),
}

/// A protocol message queued for sending.
#[derive(Clone, Debug)]
pub struct Outgoing {
    /// Where the message is bound.
    pub recipient: MessageDestination,
    /// The round the payload belongs to.
    pub round: u8,
    /// The round-specific message body.
    pub payload: Vec<u8>,
}

/// A message received from the transport, stamped with a local id.
#[derive(Clone, Debug)]
pub struct Incoming {
    /// Locally assigned, monotonically increasing id.
    pub id: u64,
    /// The sending party's index.
    pub sender: u16,
    /// How the message was addressed, read off the envelope.
    pub msg_type: MsgKind,
    /// The round the payload belongs to.
    pub round: u8,
    /// The round-specific message body.
    pub payload: Vec<u8>,
}

/// The envelope the transport carries: sender, optional recipient (absent
/// for broadcast), and the framed payload.
#[derive(Clone, Debug)]
pub struct Envelope {
    /// The sending party's index.
    pub sender: u16,
    /// The receiving party, or `None` for broadcast.
    pub recipient: Option<u16>,
    /// The round tag followed by the message body.
    pub payload: Vec<u8>,
}

/// A framed wire payload: the round tag, then the body.
pub open spec fn spec_framed(round: u8, body: Seq<u8>) -> Seq<u8> {
    seq![round] + body
}

/// Frame a round's message body for the wire.
pub fn frame_payload(round: u8, body: &Vec<u8>) -> (r: Vec<u8>)
    ensures
        r@ == spec_framed(round, body@),
{
    let mut out: Vec<u8> = Vec::new();
    out.push(round);
    crate::codec::push_all(&mut out, body);
    proof {
        assert(out@ =~= spec_framed(round, body@));
    }
    out
}

/// Split a wire payload into its round tag and body.  Fails exactly on the
/// empty payload, which frames no message.
pub fn parse_payload(wire: &Vec<u8>) -> (r: Option<(u8, Vec<u8>)>)
    ensures
        match r {
            Some((round, body)) => wire@ == spec_framed(round, body@),
            None => wire@.len() == 0,
        },
{
    if wire.len() == 0 {
        return None;
    }
    let round = wire[0];
    let mut body: Vec<u8> = Vec::new();
    let mut i: usize = 1;
    while i < wire.len()
        invariant
            1 <= i <= wire@.len(),
            body@ == wire@.subrange(1, i as int),
        decreases wire@.len() - i,
    {
        body.push(wire[i]);
        proof {
            assert(wire@.subrange(1, i as int) + seq![wire@[i as int]] =~= wire@.subrange(
                1,
                i + 1,
            ));
        }
        i = i + 1;
    }
    proof {
        assert(wire@ =~= spec_framed(wire@[0], wire@.subrange(1, wire@.len() as int)));
    }
    Some((round, body))
}

/// A framed payload always parses back to its round tag and body.
pub proof fn lemma_frame_round_trip(round: u8, body: Seq<u8>)
    ensures
        spec_framed(round, body).len() >= 1,
        spec_framed(round, body)[0] == round,
        spec_framed(round, body).subrange(1, spec_framed(round, body).len() as int) =~= body,
{
}

/// The source of locally assigned message ids.
pub struct NextMessageId {
    counter: u64,
}

impl View for NextMessageId {
    type V = u64;

    /// The id the next message will get.
    closed spec fn view(&self) -> u64 {
        self.counter
    }
}

impl NextMessageId {
    /// Start counting from zero.
    pub fn new() -> (r: NextMessageId)
        ensures
            r@ == 0,
    {
        NextMessageId { counter: 0 }
    }

    /// The next id: ids increase by one until the counter wraps.
    pub fn next(&mut self) -> (r: u64)
        ensures
            r == old(self)@,
            old(self)@ < u64::MAX ==> final(self)@ == old(self)@ + 1,
            old(self)@ == u64::MAX ==> final(self)@ == 0,
    {
        let id = self.counter;
        if self.counter == u64::MAX {
            self.counter = 0;
        } else {
            self.counter = self.counter + 1;
        }
        id
    }
}

/// The verified half of the delivery adapter: the outgoing queue and the id
/// counter.  The transport polling around it lives outside the crate.
pub struct NetworkWrapper {
    me: u16,
    queue: Vec<Outgoing>,
    next_id: NextMessageId,
}

impl NetworkWrapper {
    /// This party's index.
    pub closed spec fn spec_me(&self) -> u16 {
        self.me
    }

    /// The messages queued for sending, oldest first.
    pub closed spec fn spec_queue(&self) -> Seq<Outgoing> {
        self.queue@
    }

    /// The id the next inbound message will get.
    pub closed spec fn spec_next_id(&self) -> u64 {
        self.next_id@
    }

    /// An adapter for party `me` with an empty queue.
    pub fn new(me: u16) -> (r: NetworkWrapper)
        ensures
            r.spec_me() == me,
            r.spec_queue() == Seq::<Outgoing>::empty(),
            r.spec_next_id() == 0,
    {
        NetworkWrapper { me, queue: Vec::new(), next_id: NextMessageId::new() }
    }

    /// Queue a message; the sink is always ready.
    pub fn start_send(&mut self, msg: Outgoing)
        ensures
            final(self).spec_queue() == old(self).spec_queue().push(msg),
            final(self).spec_me() == old(self).spec_me(),
            final(self).spec_next_id() == old(self).spec_next_id(),
    {
        self.queue.push(msg);
    }

    /// Dequeue the oldest message, wrapped in its transport envelope; `None`
    /// when the queue is drained, which completes a flush.
    pub fn next_to_send(&mut self) -> (r: Option<Envelope>)
        ensures
            final(self).spec_me() == old(self).spec_me(),
            final(self).spec_next_id() == old(self).spec_next_id(),
            match r {
                Some(env) => old(self).spec_queue().len() > 0 && final(self).spec_queue() == old(
                    self,
                ).spec_queue().drop_first() && env.sender == old(self).spec_me() && {
                    let front = old(self).spec_queue().first();
                    env.recipient == (match front.recipient {
                        MessageDestination::AllParties => None::<u16>,
                        MessageDestination::OneParty(p) => Some(p),
                    }) && env.payload@ == spec_framed(front.round, front.payload@)
                },
                None => old(self).spec_queue().len() == 0 && final(self).spec_queue() == old(
                    self,
                ).spec_queue(),
            },
    {
        if self.queue.len() == 0 {
            return None;
        }
        let front = self.queue.remove(0);
        proof {
            assert(self.queue@ =~= old(self).spec_queue().drop_first());
        }
        let payload = frame_payload(front.round, &front.payload);
        let recipient = match front.recipient {
            MessageDestination::AllParties => None,
            MessageDestination::OneParty(p) => Some(p),
        };
        Some(Envelope { sender: self.me, recipient, payload })
    }

    /// Classify an inbound transport envelope and stamp it with the next
    /// local id: a present recipient marks a point-to-point message, an
    /// absent one a broadcast.  Fails exactly on an empty payload, which
    /// frames no message.
    pub fn accept(&mut self, sender: u16, recipient_present: bool, wire: &Vec<u8>) -> (r: Option<
        Incoming,
    >)
        ensures
            final(self).spec_me() == old(self).spec_me(),
            final(self).spec_queue() == old(self).spec_queue(),
            match r {
                Some(inc) => wire@.len() > 0 && inc.id == old(self).spec_next_id() && inc.sender
                    == sender && inc.msg_type == (if recipient_present {
                    MsgKind::P2p
                } else {
                    MsgKind::Broadcast
                }) && wire@ == spec_framed(inc.round, inc.payload@) && (old(self).spec_next_id()
                    < u64::MAX ==> final(self).spec_next_id() == old(self).spec_next_id() + 1),
                None => wire@.len() == 0 && final(self).spec_next_id() == old(self).spec_next_id(),
            },
    {
        match parse_payload(wire) {
            Some((round, payload)) => {
                let id = self.next_id.next();
                let msg_type = if recipient_present {
                    MsgKind::P2p
                } else {
                    MsgKind::Broadcast
                };
                Some(Incoming { id, sender, msg_type, round, payload })
            },
            None => None,
        }
    }
}

} // verus!
