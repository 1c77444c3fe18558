//! Progress observer for protocol runs.
//!
//! A trace log records what happened and in what order; it carries no
//! semantic weight and the engines produce the same outputs with or without
//! one.
use vstd::prelude::*;

verus! {

/// One observed step of a protocol run.
#[derive(Clone, PartialEq, Eq, Debug)]
pub enum TraceEvent {
    /// The protocol started.
    ProtocolBegins,
    /// An unnamed round started.
    RoundBegins,
    /// A named round started.
    NamedRoundBegins(String),
    /// A stage within a round, by label.
    Stage(String),
    /// A message is about to be sent.
    SendMsg,
    /// A message was handed to the transport.
    MsgSent,
    /// The party is about to collect messages.
    ReceiveMsgs,
    /// The expected messages arrived.
    MsgsReceived,
    /// The protocol finished.
    ProtocolEnds,
}

/// An append-only log of observed protocol steps.
pub struct TraceLog {
    events: Vec<TraceEvent>,
}

impl View for TraceLog {
    type V = Seq<TraceEvent>;

    /// The events observed so far, oldest first.
    closed spec fn view(&self) -> Seq<TraceEvent> {
        self.events@
    }
}

impl TraceLog {
    /// An empty log.
    pub fn new() -> (r: TraceLog)
        ensures
            r@ == Seq::<TraceEvent>::empty(),
    {
        TraceLog { events: Vec::new() }
    }

    /// Record that the protocol started.
    pub fn protocol_begins(&mut self)
        ensures
            final(self)@ == old(self)@.push(TraceEvent::ProtocolBegins),
    {
        self.events.push(TraceEvent::ProtocolBegins);
    }

    /// Record that an unnamed round started.
    pub fn round_begins(&mut self)
        ensures
            final(self)@ == old(self)@.push(TraceEvent::RoundBegins),
    {
        self.events.push(TraceEvent::RoundBegins);
    }

    /// Record that a named round started.
    pub fn named_round_begins(&mut self, name: String)
        ensures
            final(self)@ == old(self)@.push(TraceEvent::NamedRoundBegins(name)),
    {
        self.events.push(TraceEvent::NamedRoundBegins(name));
    }

    /// Record a stage within a round.
    pub fn stage(&mut self, label: String)
        ensures
            final(self)@ == old(self)@.push(TraceEvent::Stage(label)),
    {
        self.events.push(TraceEvent::Stage(label));
    }

    /// Record that a message is about to be sent.
    pub fn send_msg(&mut self)
        ensures
            final(self)@ == old(self)@.push(TraceEvent::SendMsg),
    {
        self.events.push(TraceEvent::SendMsg);
    }

    /// Record that a message was handed to the transport.
    pub fn msg_sent(&mut self)
        ensures
            final(self)@ == old(self)@.push(TraceEvent::MsgSent),
    {
        self.events.push(TraceEvent::MsgSent);
    }

    /// Record that the party is about to collect messages.
    pub fn receive_msgs(&mut self)
        ensures
            final(self)@ == old(self)@.push(TraceEvent::ReceiveMsgs),
    {
        self.events.push(TraceEvent::ReceiveMsgs);
    }

    /// Record that the expected messages arrived.
    pub fn msgs_received(&mut self)
        ensures
            final(self)@ == old(self)@.push(TraceEvent::MsgsReceived),
    {
        self.events.push(TraceEvent::MsgsReceived);
    }

    /// Record that the protocol finished.
    pub fn protocol_ends(&mut self)
        ensures
            final(self)@ == old(self)@.push(TraceEvent::ProtocolEnds),
    {
        self.events.push(TraceEvent::ProtocolEnds);
    }

    /// The number of events observed.
    pub fn len(&self) -> (r: usize)
        ensures
            r == self@.len(),
    {
        self.events.len()
    }
}

} // verus!
