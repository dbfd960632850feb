//! The channel that an engine runs over.

use crate::message::{Envelope, EnvelopeView};
use vstd::prelude::*;

verus! {

/// A failure of the channel itself.
#[derive(Clone, Debug, PartialEq)]
pub struct TransportError {
    pub message: String,
}

/// A duplex channel of envelopes that keeps their order in each direction.
///
/// Nothing is promised about what a call returns: both results depend on the
/// peer and on the medium.
pub trait Transport {
    /// Hands one envelope to the channel.
    fn send(&mut self, envelope: &Envelope) -> Result<(), TransportError>;

    /// Takes the next envelope from the channel. `Ok(None)` says that the
    /// channel has ended in good order.
    fn receive(&mut self) -> Result<Option<Envelope>, TransportError>;
}

/// A transport together with the record of what went through it: every
/// envelope that was handed to it for sending, whether it accepted each,
/// and everything that it returned when asked for the next envelope, all in
/// order. The record is kept for contracts to speak of; it says what was
/// handed over, not what arrived at the peer.
pub struct Channel<T: Transport> {
    transport: T,
    handed: Ghost<Seq<EnvelopeView>>,
    results: Ghost<Seq<bool>>,
    taken: Ghost<Seq<Result<Option<Envelope>, TransportError>>>,
}

impl<T: Transport> Channel<T> {
    /// The transport as it is now.
    pub closed spec fn transport(&self) -> T {
        self.transport
    }

    /// The envelopes that were handed to the transport for sending.
    pub closed spec fn sent(&self) -> Seq<EnvelopeView> {
        self.handed@
    }

    /// Whether the transport accepted each of the envelopes that were
    /// handed to it: one entry for each entry of `sent`.
    pub closed spec fn accepted(&self) -> Seq<bool> {
        self.results@
    }

    /// What the transport returned, call by call, when asked for the next
    /// envelope.
    pub closed spec fn received(&self) -> Seq<Result<Option<Envelope>, TransportError>> {
        self.taken@
    }

    /// Whether nothing has gone through the channel yet.
    pub open spec fn unused(&self) -> bool {
        &&& self.sent() == Seq::<EnvelopeView>::empty()
        &&& self.accepted() == Seq::<bool>::empty()
        &&& self.received() == Seq::<Result<Option<Envelope>, TransportError>>::empty()
    }

    /// Wraps a transport through which nothing has gone yet.
    pub fn new(transport: T) -> (channel: Channel<T>)
        ensures
            channel.transport() == transport,
            channel.unused(),
    {
        Channel {
            transport,
            handed: Ghost(Seq::empty()),
            results: Ghost(Seq::empty()),
            taken: Ghost(Seq::empty()),
        }
    }

    /// Hands one envelope to the transport and records it.
    pub fn send(&mut self, envelope: &Envelope) -> (sent: Result<(), TransportError>)
        ensures
            final(self).sent() == old(self).sent().push(envelope@),
            final(self).accepted() == old(self).accepted().push(sent is Ok),
            final(self).received() == old(self).received(),
    {
        let sent = self.transport.send(envelope);
        proof {
            self.handed@ = self.handed@.push(envelope@);
            self.results@ = self.results@.push(sent is Ok);
        }
        sent
    }

    /// Takes the next envelope from the transport and records what came.
    pub fn receive(&mut self) -> (received: Result<Option<Envelope>, TransportError>)
        ensures
            final(self).sent() == old(self).sent(),
            final(self).accepted() == old(self).accepted(),
            final(self).received() == old(self).received().push(received),
    {
        let received = self.transport.receive();
        proof {
            self.taken@ = self.taken@.push(received);
        }
        received
    }

    /// The transport, to look at.
    pub fn get(&self) -> (transport: &T)
        ensures
            *transport == self.transport(),
    {
        &self.transport
    }

    /// Gives the transport back.
    pub fn into_inner(self) -> (transport: T)
        ensures
            transport == self.transport(),
    {
        self.transport
    }
}

} // verus!
