//! The round router.
//!
//! The router holds one inbox per registered round, sized to the number of
//! parties.  Each inbound message is classified against the round it names:
//! wrong shape, unknown round, out-of-range or self sender, and duplicate
//! delivery are all rejected, and a rejected message is possibly malicious
//! behavior.  A round completes when every other party has contributed
//! exactly one message; taking a completed round hands the messages out
//! indexed by sender and drops the inbox.
use vstd::prelude::*;

verus! {

/// How a round's messages are addressed.
#[derive(Clone, Copy, PartialEq, Eq, Structural, Debug)]
pub enum MsgKind {
    /// One message from each other party to everyone.
    Broadcast,
    /// One message from each other party to this party alone.
    P2p,
}

/// Why an inbound message could not be routed, or a round not completed.
#[derive(Clone, Copy, PartialEq, Eq, Structural, Debug)]
pub enum RouteError {
    /// The message names a round that was never registered.
    UnknownRound,
    /// The sender index is not a party of this run.
    SenderOutOfRange,
    /// The message claims to come from this party itself.
    SelfMessage,
    /// The round was already completed and taken.
    RoundClosed,
    /// The message's addressing does not match the round's registration.
    WrongType,
    /// The same sender already contributed a message to this round.
    Duplicate,
    /// Not every other party has contributed yet.
    Incomplete,
}

struct Inbox {
    kind: MsgKind,
    slots: Vec<Option<Vec<u8>>>,
    taken: bool,
}

/// Per-round inboxes for one party of an `n`-party run.
pub struct Router {
    me: u16,
    n: u16,
    rounds: Vec<Inbox>,
}

impl Router {
    /// Every inbox has one slot per party and never holds a message from
    /// this party itself.
    #[verifier::type_invariant]
    spec fn inv(&self) -> bool {
        self.me < self.n && forall|r: int|
            0 <= r < self.rounds@.len() ==> (#[trigger] self.rounds@[r]).slots@.len() == self.n
                && self.rounds@[r].slots@[self.me as int] is None
    }

    /// This party's index.
    pub closed spec fn spec_me(&self) -> u16 {
        self.me
    }

    /// The number of parties.
    pub closed spec fn spec_n(&self) -> u16 {
        self.n
    }

    /// How many rounds are registered.
    pub closed spec fn num_rounds(&self) -> int {
        self.rounds@.len() as int
    }

    /// The addressing a round was registered with.
    pub closed spec fn round_kind(&self, r: int) -> MsgKind {
        self.rounds@[r].kind
    }

    /// Whether a round was completed and taken.
    pub closed spec fn taken(&self, r: int) -> bool {
        self.rounds@[r].taken
    }

    /// The message a sender contributed to a round, if any.
    pub closed spec fn slot(&self, r: int, s: int) -> Option<Seq<u8>> {
        match self.rounds@[r].slots@[s] {
            Some(v) => Some(v@),
            None => None,
        }
    }

    /// Whether every other party has contributed to a round.
    pub open spec fn round_complete(&self, r: int) -> bool {
        forall|s: int|
            0 <= s < self.spec_n() && s != self.spec_me() ==> (#[trigger] self.slot(r, s)) is Some
    }

    /// How `receive` classifies a message, in checking order; `None` means
    /// the message is accepted.
    pub open spec fn spec_receive_err(&self, round: int, sender: u16, kind: MsgKind) -> Option<
        RouteError,
    > {
        if !(0 <= round < self.num_rounds()) {
            Some(RouteError::UnknownRound)
        } else if sender >= self.spec_n() {
            Some(RouteError::SenderOutOfRange)
        } else if sender == self.spec_me() {
            Some(RouteError::SelfMessage)
        } else if self.taken(round) {
            Some(RouteError::RoundClosed)
        } else if kind != self.round_kind(round) {
            Some(RouteError::WrongType)
        } else if self.slot(round, sender as int) is Some {
            Some(RouteError::Duplicate)
        } else {
            None
        }
    }

    /// A router for party `me` of `n` parties, with no rounds registered.
    pub fn new(me: u16, n: u16) -> (r: Router)
        requires
            me < n,
        ensures
            r.spec_me() == me,
            r.spec_n() == n,
            r.num_rounds() == 0,
    {
        Router { me, n, rounds: Vec::new() }
    }

    /// Register the next round, returning its handle.  Rounds are resolved
    /// in registration order.
    pub fn add_round(&mut self, kind: MsgKind) -> (h: usize)
        ensures
            h == old(self).num_rounds(),
            final(self).spec_me() == old(self).spec_me(),
            final(self).spec_n() == old(self).spec_n(),
            final(self).num_rounds() == old(self).num_rounds() + 1,
            final(self).round_kind(h as int) == kind,
            !final(self).taken(h as int),
            forall|s: int| 0 <= s < final(self).spec_n() ==> final(self).slot(h as int, s) is None,
            forall|r: int|
                0 <= r < h ==> final(self).round_kind(r) == old(self).round_kind(r) && final(self).taken(r) == old(self).taken(r),
            forall|r: int, s: int|
                0 <= r < h && 0 <= s < old(self).spec_n() ==> final(self).slot(r, s) == old(self).slot(r, s),
    {
        proof {
            use_type_invariant(&*self);
        }
        let mut slots: Vec<Option<Vec<u8>>> = Vec::new();
        let mut s: usize = 0;
        let n = self.n as usize;
        while s < n
            invariant
                s <= n,
                slots@.len() == s,
                forall|j: int| 0 <= j < s ==> (#[trigger] slots@[j]) is None,
            decreases n - s,
        {
            slots.push(None);
            s = s + 1;
        }
        let h = self.rounds.len();
        let mut rounds: Vec<Inbox> = Vec::new();
        core::mem::swap(&mut rounds, &mut self.rounds);
        rounds.push(Inbox { kind, slots, taken: false });
        core::mem::swap(&mut rounds, &mut self.rounds);
        h
    }

    /// Route an inbound message into its round's inbox.  A message is
    /// rejected exactly as `spec_receive_err` says; in particular a second
    /// message from the same sender for the same round is a duplicate.
    pub fn receive(&mut self, round: usize, sender: u16, kind: MsgKind, payload: Vec<u8>) -> (r:
        Result<(), RouteError>)
        ensures
            match old(self).spec_receive_err(round as int, sender, kind) {
                Some(e) => r == Err::<(), RouteError>(e) && *final(self) == *old(self),
                None => r is Ok && final(self).slot(round as int, sender as int) == Some(payload@)
                    && final(self).spec_me() == old(self).spec_me() && final(self).spec_n() == old(self).spec_n() && final(self).num_rounds() == old(self).num_rounds() && (forall|r2: int|
                    0 <= r2 < old(self).num_rounds() ==> final(self).round_kind(r2) == old(self).round_kind(r2) && final(self).taken(r2) == old(self).taken(r2)) && (forall|
                    r2: int,
                    s2: int,
                |
                    0 <= r2 < old(self).num_rounds() && 0 <= s2 < old(self).spec_n() && !(r2
                        == round && s2 == sender) ==> final(self).slot(r2, s2) == old(self).slot(
                        r2,
                        s2,
                    )),
            },
    {
        proof {
            use_type_invariant(&*self);
        }
        if round >= self.rounds.len() {
            return Err(RouteError::UnknownRound);
        }
        if sender >= self.n {
            return Err(RouteError::SenderOutOfRange);
        }
        if sender == self.me {
            return Err(RouteError::SelfMessage);
        }
        if self.rounds[round].taken {
            return Err(RouteError::RoundClosed);
        }
        let same_kind = match (kind, self.rounds[round].kind) {
            (MsgKind::Broadcast, MsgKind::Broadcast) => true,
            (MsgKind::P2p, MsgKind::P2p) => true,
            _ => false,
        };
        if !same_kind {
            return Err(RouteError::WrongType);
        }
        if self.rounds[round].slots[sender as usize].is_some() {
            return Err(RouteError::Duplicate);
        }
        let mut rounds: Vec<Inbox> = Vec::new();
        core::mem::swap(&mut rounds, &mut self.rounds);
        let ghost oldrounds = rounds@;
        rounds[round].slots[sender as usize] = Some(payload);
        proof {
            assert(rounds@[round as int].slots@ =~= oldrounds[round as int].slots@.update(
                sender as int,
                Some(payload),
            ));
            assert(rounds@ =~= oldrounds.update(round as int, rounds@[round as int]));
        }
        core::mem::swap(&mut rounds, &mut self.rounds);
        Ok(())
    }

    /// Whether every other party has contributed to a round.
    pub fn is_complete(&self, round: usize) -> (r: bool)
        requires
            round < self.num_rounds(),
        ensures
            r == self.round_complete(round as int),
    {
        proof {
            use_type_invariant(self);
        }
        let n = self.n as usize;
        let mut s: usize = 0;
        while s < n
            invariant
                self.spec_n() == n,
                round < self.num_rounds(),
                self.inv(),
                s <= n,
                forall|j: int|
                    0 <= j < s && j != self.spec_me() ==> (#[trigger] self.slot(
                        round as int,
                        j,
                    )) is Some,
            decreases n - s,
        {
            if s != self.me as usize && self.rounds[round].slots[s].is_none() {
                proof {
                    assert(self.slot(round as int, s as int) is None);
                }
                return false;
            }
            s = s + 1;
        }
        proof {
            assert forall|j: int|
                0 <= j < self.spec_n() && j != self.spec_me() implies (#[trigger] self.slot(
                round as int,
                j,
            )) is Some by {}
        }
        true
    }

    /// Complete a round: hand out every other party's message, indexed by
    /// sender in increasing order, and drop the round's inbox.
    pub fn take_round(&mut self, round: usize) -> (r: Result<Vec<(u16, Vec<u8>)>, RouteError>)
        ensures
            final(self).spec_me() == old(self).spec_me(),
            final(self).spec_n() == old(self).spec_n(),
            final(self).num_rounds() == old(self).num_rounds(),
            match r {
                Err(e) => *final(self) == *old(self) && if !(round < old(self).num_rounds()) {
                    e == RouteError::UnknownRound
                } else if old(self).taken(round as int) {
                    e == RouteError::RoundClosed
                } else {
                    e == RouteError::Incomplete && !old(self).round_complete(round as int)
                },
                Ok(v) => round < old(self).num_rounds() && !old(self).taken(round as int) && old(self).round_complete(round as int) && v@.len() == old(self).spec_n() - 1 && (forall|
                    j: int,
                |
                    0 <= j < v@.len() ==> (#[trigger] v@[j]).0 == (if j < old(self).spec_me() {
                        j
                    } else {
                        j + 1
                    })) && (forall|j: int|
                    0 <= j < v@.len() ==> Some((#[trigger] v@[j]).1@) == old(self).slot(
                        round as int,
                        v@[j].0 as int,
                    )) && final(self).taken(round as int) && (forall|r2: int|
                    0 <= r2 < old(self).num_rounds() && r2 != round ==> final(self).round_kind(r2)
                        == old(self).round_kind(r2) && final(self).taken(r2) == old(self).taken(
                        r2,
                    )) && (forall|r2: int, s2: int|
                    0 <= r2 < old(self).num_rounds() && r2 != round && 0 <= s2 < old(self).spec_n() ==> final(self).slot(r2, s2) == old(self).slot(r2, s2)),
            },
    {
        proof {
            use_type_invariant(&*self);
        }
        if round >= self.rounds.len() {
            return Err(RouteError::UnknownRound);
        }
        if self.rounds[round].taken {
            return Err(RouteError::RoundClosed);
        }
        if !self.is_complete(round) {
            return Err(RouteError::Incomplete);
        }
        let n = self.n as usize;
        let me = self.me as usize;
        let mut rounds: Vec<Inbox> = Vec::new();
        core::mem::swap(&mut rounds, &mut self.rounds);
        let ghost oldrounds = rounds@;
        let mut slots: Vec<Option<Vec<u8>>> = Vec::new();
        core::mem::swap(&mut slots, &mut rounds[round].slots);
        let ghost old_slots = slots@;
        rounds[round].taken = true;
        // Refill the inbox with empty slots to keep the router well formed.
        let mut fresh: Vec<Option<Vec<u8>>> = Vec::new();
        let mut s: usize = 0;
        while s < n
            invariant
                s <= n,
                fresh@.len() == s,
                forall|j: int| 0 <= j < s ==> (#[trigger] fresh@[j]) is None,
            decreases n - s,
        {
            fresh.push(None);
            s = s + 1;
        }
        core::mem::swap(&mut fresh, &mut rounds[round].slots);
        proof {
            assert(rounds@ =~= oldrounds.update(round as int, rounds@[round as int]));
            assert forall|j: int|
                0 <= j < old_slots.len() && j != me implies old_slots[j] is Some by {
                assert(old(self).slot(round as int, j) is Some);
            }
            assert(old_slots.skip(0) =~= old_slots);
        }
        core::mem::swap(&mut rounds, &mut self.rounds);
        // Drain the taken slots in sender order.
        let mut out: Vec<(u16, Vec<u8>)> = Vec::new();
        let mut s: usize = 0;
        while s < n
            invariant
                n == old_slots.len(),
                me < n,
                n <= u16::MAX,
                s <= n,
                slots@ =~= old_slots.skip(s as int),
                out@.len() == (if s <= me {
                    s as int
                } else {
                    s - 1
                }),
                forall|j: int|
                    0 <= j < out@.len() ==> (#[trigger] out@[j]).0 == (if j < me {
                        j
                    } else {
                        j + 1
                    }),
                forall|j: int|
                    0 <= j < out@.len() ==> (old_slots[(#[trigger] out@[j]).0 as int] matches Some(p)
                        && p@ == out@[j].1@),
                forall|j: int| 0 <= j < old_slots.len() && j != me ==> old_slots[j] is Some,
            decreases n - s,
        {
            let first = slots.remove(0);
            if s != me {
                match first {
                    Some(payload) => {
                        out.push((s as u16, payload));
                    },
                    None => {
                        proof {
                            assert(old_slots[s as int] is Some);
                        }
                        proof {
                            assert(false);
                        }
                    },
                }
            }
            s = s + 1;
        }
        Ok(out)
    }
}

} // verus!
