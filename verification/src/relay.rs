//! The rule by which a two-way relay ends.
//!
//! Bytes flow from the inbound peer to the outbound one and back, each
//! direction on its own. The copying is done elsewhere; this module keeps
//! track of which directions have ended and says when the pair is finished.

use vstd::prelude::*;

verus! {

/// One of the two directions of a relay.
#[derive(Clone, Copy, Debug, PartialEq, Eq, Structural)]
pub enum Direction {
    InboundToOutbound,
    OutboundToInbound,
}

impl Direction {
    /// The other direction.
    pub open spec fn opposite(self) -> Direction {
        match self {
            Direction::InboundToOutbound => Direction::OutboundToInbound,
            Direction::OutboundToInbound => Direction::InboundToOutbound,
        }
    }
}

/// How one direction stands.
#[derive(Clone, Copy, Debug, PartialEq, Eq, Structural)]
pub enum Flow {
    /// Bytes may still arrive.
    Open,
    /// The source reached a clean end of stream.
    Ended,
    /// Reading or writing broke down.
    Broken,
}

/// How the relay as a whole stands.
#[derive(Clone, Copy, Debug, PartialEq, Eq, Structural)]
pub enum RelayStatus {
    /// At least one direction is open and none has broken.
    Relaying,
    /// Both directions ended cleanly.
    Completed,
    /// A direction broke; both connections are to be closed.
    Failed,
}

/// Both directions of one relay.
#[derive(Clone, Copy, Debug, PartialEq, Eq, Structural)]
pub struct Relay {
    pub inbound_to_outbound: Flow,
    pub outbound_to_inbound: Flow,
}

impl Relay {
    /// How `direction` stands.
    pub open spec fn flow(self, direction: Direction) -> Flow {
        match direction {
            Direction::InboundToOutbound => self.inbound_to_outbound,
            Direction::OutboundToInbound => self.outbound_to_inbound,
        }
    }

    /// The relay with `direction` set to `flow` and the other left alone.
    pub open spec fn with_flow(self, direction: Direction, flow: Flow) -> Relay {
        match direction {
            Direction::InboundToOutbound => Relay { inbound_to_outbound: flow, ..self },
            Direction::OutboundToInbound => Relay { outbound_to_inbound: flow, ..self },
        }
    }

    /// A broken direction fails the relay; otherwise it runs until both
    /// directions have ended.
    pub open spec fn status_of(self) -> RelayStatus {
        if self.inbound_to_outbound == Flow::Broken || self.outbound_to_inbound == Flow::Broken {
            RelayStatus::Failed
        } else if self.inbound_to_outbound == Flow::Ended && self.outbound_to_inbound
            == Flow::Ended {
            RelayStatus::Completed
        } else {
            RelayStatus::Relaying
        }
    }

    /// The relay after `direction` came to `flow`. A relay that has completed
    /// or failed stays as it is, and so does a direction that is no longer
    /// open.
    pub open spec fn settled(self, direction: Direction, flow: Flow) -> Relay {
        if self.status_of() == RelayStatus::Relaying && self.flow(direction) == Flow::Open {
            self.with_flow(direction, flow)
        } else {
            self
        }
    }

    /// True while `direction` may still deliver bytes.
    pub open spec fn is_carrying(self, direction: Direction) -> bool {
        self.status_of() == RelayStatus::Relaying && self.flow(direction) == Flow::Open
    }

    /// A relay with both directions open.
    pub fn new() -> (relay: Relay)
        ensures
            relay == (Relay { inbound_to_outbound: Flow::Open, outbound_to_inbound: Flow::Open }),
            relay.status_of() == RelayStatus::Relaying,
    {
        Relay { inbound_to_outbound: Flow::Open, outbound_to_inbound: Flow::Open }
    }

    /// How the relay stands.
    pub fn status(&self) -> (status: RelayStatus)
        ensures
            status == self.status_of(),
    {
        if self.inbound_to_outbound == Flow::Broken || self.outbound_to_inbound == Flow::Broken {
            RelayStatus::Failed
        } else if self.inbound_to_outbound == Flow::Ended && self.outbound_to_inbound
            == Flow::Ended {
            RelayStatus::Completed
        } else {
            RelayStatus::Relaying
        }
    }

    /// Whether `direction` may still deliver bytes.
    pub fn carries(&self, direction: Direction) -> (yes: bool)
        ensures
            yes == self.is_carrying(direction),
    {
        let flow = match direction {
            Direction::InboundToOutbound => self.inbound_to_outbound,
            Direction::OutboundToInbound => self.outbound_to_inbound,
        };
        self.status() == RelayStatus::Relaying && flow == Flow::Open
    }

    fn settle(&mut self, direction: Direction, flow: Flow) -> (status: RelayStatus)
        ensures
            *final(self) == old(self).settled(direction, flow),
            status == final(self).status_of(),
    {
        if self.carries(direction) {
            match direction {
                Direction::InboundToOutbound => {
                    self.inbound_to_outbound = flow;
                },
                Direction::OutboundToInbound => {
                    self.outbound_to_inbound = flow;
                },
            }
        }
        self.status()
    }

    /// Records that the source of `direction` reached a clean end of stream,
    /// and says how the relay stands now. The other direction is left to
    /// drain: the relay completes only once both have ended.
    pub fn direction_ended(&mut self, direction: Direction) -> (status: RelayStatus)
        ensures
            *final(self) == old(self).settled(direction, Flow::Ended),
            status == final(self).status_of(),
    {
        self.settle(direction, Flow::Ended)
    }

    /// Records that `direction` broke down, and says how the relay stands
    /// now: failed, unless it had completed before.
    pub fn direction_failed(&mut self, direction: Direction) -> (status: RelayStatus)
        ensures
            *final(self) == old(self).settled(direction, Flow::Broken),
            status == final(self).status_of(),
    {
        self.settle(direction, Flow::Broken)
    }
}

/// Half-close: when one direction of a running relay ends while the other is
/// still open, the relay keeps running and the other direction still
/// delivers.
pub proof fn lemma_half_close_keeps_the_other_direction(relay: Relay, direction: Direction)
    requires
        relay.is_carrying(direction),
        relay.is_carrying(direction.opposite()),
    ensures
        relay.settled(direction, Flow::Ended).status_of() == RelayStatus::Relaying,
        relay.settled(direction, Flow::Ended).is_carrying(direction.opposite()),
        !relay.settled(direction, Flow::Ended).is_carrying(direction),
{
}

/// A relay completes exactly when both directions have ended cleanly.
pub proof fn lemma_completed_means_both_ended(relay: Relay)
    ensures
        relay.status_of() == RelayStatus::Completed <==> relay.inbound_to_outbound == Flow::Ended
            && relay.outbound_to_inbound == Flow::Ended,
{
}

/// A breakdown in either direction of a running relay fails the whole relay,
/// and neither direction delivers any more.
pub proof fn lemma_breakdown_fails_the_relay(relay: Relay, direction: Direction)
    requires
        relay.is_carrying(direction),
    ensures
        relay.settled(direction, Flow::Broken).status_of() == RelayStatus::Failed,
        !relay.settled(direction, Flow::Broken).is_carrying(Direction::InboundToOutbound),
        !relay.settled(direction, Flow::Broken).is_carrying(Direction::OutboundToInbound),
{
}

/// Once a relay has completed or failed, nothing that is reported to it
/// changes it.
pub proof fn lemma_finished_relay_is_final(relay: Relay, direction: Direction, flow: Flow)
    requires
        relay.status_of() != RelayStatus::Relaying,
    ensures
        relay.settled(direction, flow) == relay,
{
}

} // verus!
