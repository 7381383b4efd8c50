use vstd::prelude::*;
use crate::dispatch::{enqueue_spec, DispatchQueue, Enqueued};
use crate::error::TrackError;
use crate::event::{Metadata, MetadataView};
use crate::http::HttpRelay;
use crate::registry::{register_spec, Registry, SetRelayError};
use crate::supervisor::{supervisor_step, LinkAction, LinkEvent, ReconnectSupervisor};
use crate::udp::UdpRelay;
use crate::wire::{event_document, flattens, serialize_event};

verus! {

/// A relay that discards every event; the relay in use before one is registered.
#[derive(PartialEq, Eq, Structural, Clone, Copy, Debug, Default)]
pub struct Noop;

impl Noop {
    /// Creates a no-op relay.
    pub fn new() -> (r: Noop)
        ensures
            r == Noop,
    {
        Noop
    }
}

/// The relays an event can be handed to.
pub enum Relay {
    /// Discards events.
    Noop(Noop),
    /// Posts each event to an HTTP listener.
    Http(HttpRelay),
    /// Sends each event as one datagram to a UDP listener.
    Udp(UdpRelay),
    /// Hands each event to a transport that the application supplies.
    Custom,
}

/// A serialized event on its way to the relay: its metadata and the wire document.
pub struct SerializedMessage {
    pub metadata: Metadata,
    pub bytes: Vec<u8>,
}

/// The content of a queued message.
pub open spec fn message_view(m: SerializedMessage) -> (MetadataView, Seq<u8>) {
    (m.metadata@, m.bytes@)
}

/// Whether events handed to `relay` are discarded: no relay is registered, or
/// the registered one is the no-op relay.
pub open spec fn discards(relay: Option<Relay>) -> bool {
    match relay {
        None => true,
        Some(Relay::Noop(_)) => true,
        Some(_) => false,
    }
}

/// The queue's content after offering the message `m`, when events are not
/// discarded.
pub open spec fn queued_after(
    q: Seq<SerializedMessage>,
    cap: nat,
    m: (MetadataView, Seq<u8>),
) -> Seq<(MetadataView, Seq<u8>)> {
    enqueue_spec(q.map_values(|x: SerializedMessage| message_view(x)), cap, m)
}

/// The outcome of offering a message to a queue `q` of capacity `cap`.
pub open spec fn offer_outcome(q: Seq<SerializedMessage>, cap: nat) -> Delivery {
    if q.len() < cap {
        Delivery::Queued
    } else {
        Delivery::Dropped
    }
}

/// What became of a tracked event that was serialized.
#[derive(PartialEq, Eq, Structural, Clone, Copy, Debug)]
pub enum Delivery {
    /// No relay is registered, or the no-op relay is: the event was discarded.
    Discarded,
    /// The event was queued for the registered relay.
    Queued,
    /// The relay's queue was full and the event was dropped.
    Dropped,
}

/// The event pipeline of a process: the one-time relay registration and the
/// bounded queue that the relay's consumer drains.
pub struct Tracker {
    registry: Registry<Relay>,
    queue: DispatchQueue<SerializedMessage>,
    noop: Relay,
}

impl Tracker {
    /// The registered relay, if any.
    pub closed spec fn spec_relay(&self) -> Option<Relay> {
        self.registry@
    }

    /// The queued messages, oldest first.
    pub closed spec fn spec_queue(&self) -> Seq<SerializedMessage> {
        self.queue@
    }

    /// The capacity of the queue.
    pub closed spec fn spec_capacity(&self) -> nat {
        self.queue.spec_capacity()
    }

    pub closed spec fn wf(&self) -> bool {
        &&& self.registry.wf()
        &&& self.queue.wf()
        &&& self.noop == Relay::Noop(Noop)
    }

    /// A pipeline with no relay and an empty queue of capacity `capacity`.
    pub fn new(capacity: usize) -> (r: Tracker)
        ensures
            r.wf(),
            r.spec_relay() is None,
            r.spec_queue() == Seq::<SerializedMessage>::empty(),
            r.spec_capacity() == capacity,
    {
        Tracker {
            registry: Registry::new(),
            queue: DispatchQueue::new(capacity),
            noop: Relay::Noop(Noop::new()),
        }
    }

    /// Registers `relay` for good if none was registered before; refuses it
    /// otherwise.
    pub fn set_relay(&mut self, relay: Relay) -> (r: Result<(), SetRelayError>)
        requires
            old(self).wf(),
        ensures
            final(self).wf(),
            (final(self).spec_relay(), r is Ok) == register_spec(old(self).spec_relay(), relay),
            final(self).spec_queue() == old(self).spec_queue(),
            final(self).spec_capacity() == old(self).spec_capacity(),
    {
        self.registry.set_relay(relay)
    }

    /// The relay in use: the registered one, or the no-op relay before any
    /// registration.
    pub fn relay(&self) -> (r: &Relay)
        requires
            self.wf(),
        ensures
            match self.spec_relay() {
                Some(x) => *r == x,
                None => *r == Relay::Noop(Noop),
            },
    {
        match self.registry.relay() {
            Some(x) => x,
            None => &self.noop,
        }
    }

    /// Hands a serialized event to the relay in use: an error is given back
    /// and nothing is queued; with no relay registered the event is
    /// discarded; otherwise it is queued, or dropped when the queue is full.
    pub fn dispatch_document(&mut self, metadata: Metadata, document: Result<
        Vec<u8>,
        TrackError,
    >) -> (r: Result<Delivery, TrackError>)
        requires
            old(self).wf(),
        ensures
            final(self).wf(),
            final(self).spec_relay() == old(self).spec_relay(),
            final(self).spec_capacity() == old(self).spec_capacity(),
            document matches Err(e) ==> r == Err::<Delivery, TrackError>(e)
                && final(self).spec_queue() == old(self).spec_queue(),
            document is Ok && discards(old(self).spec_relay()) ==> r == Ok::<
                Delivery,
                TrackError,
            >(Delivery::Discarded) && final(self).spec_queue() == old(self).spec_queue(),
            document is Ok && !discards(old(self).spec_relay()) ==> (r == Ok::<
                Delivery,
                TrackError,
            >(offer_outcome(old(self).spec_queue(), old(self).spec_capacity()))
                && final(self).spec_queue().map_values(|m: SerializedMessage| message_view(m))
                == queued_after(
                old(self).spec_queue(),
                old(self).spec_capacity(),
                (metadata@, document->Ok_0@),
            )),
    {
        let bytes = match document {
            Ok(bytes) => bytes,
            Err(e) => return Err(e),
        };
        match self.registry.relay() {
            None => Ok(Delivery::Discarded),
            Some(Relay::Noop(_)) => Ok(Delivery::Discarded),
            Some(_) => {
                let ghost before = self.queue@;
                let ghost message = (metadata@, bytes@);
                let outcome = self.queue.enqueue(SerializedMessage { metadata, bytes });
                assert(self.queue@.map_values(|m: SerializedMessage| message_view(m)) =~= enqueue_spec(
                    before.map_values(|m: SerializedMessage| message_view(m)),
                    self.queue.spec_capacity(),
                    message,
                ));
                match outcome {
                    Enqueued::Accepted => Ok(Delivery::Queued),
                    Enqueued::Dropped => Ok(Delivery::Dropped),
                }
            },
        }
    }

    /// Tracks an event: flattens `metadata` and the payload's serialization
    /// into one document and hands it to the relay in use. A payload that
    /// failed to serialize, or is neither a JSON object nor `null`, gives an error and nothing
    /// is queued; before any registration, and with the no-op relay, the event
    /// is discarded; otherwise it is queued, or dropped without an error when
    /// the queue is full.
    pub fn track(&mut self, metadata: Metadata, payload: Result<Vec<u8>, serde_json::Error>) -> (r:
        Result<Delivery, TrackError>)
        requires
            old(self).wf(),
        ensures
            final(self).wf(),
            final(self).spec_relay() == old(self).spec_relay(),
            final(self).spec_capacity() == old(self).spec_capacity(),
            payload matches Err(e) ==> r == Err::<Delivery, TrackError>(TrackError::SerdeJson(e))
                && final(self).spec_queue() == old(self).spec_queue(),
            payload matches Ok(p) && !flattens(p@) ==> (r matches Err(
                TrackError::PayloadNotObject,
            ) && final(self).spec_queue() == old(self).spec_queue()),
            payload matches Ok(p) && flattens(p@) && discards(old(self).spec_relay()) ==> r
                == Ok::<Delivery, TrackError>(Delivery::Discarded) && final(self).spec_queue()
                == old(self).spec_queue(),
            payload matches Ok(p) && flattens(p@) && !discards(old(self).spec_relay()) ==> (r
                == Ok::<Delivery, TrackError>(
                offer_outcome(old(self).spec_queue(), old(self).spec_capacity()),
            ) && final(self).spec_queue().map_values(|m: SerializedMessage| message_view(m))
                == queued_after(
                old(self).spec_queue(),
                old(self).spec_capacity(),
                (metadata@, event_document(metadata@, payload->Ok_0@)),
            )),
    {
        let document = serialize_event(&metadata, payload);
        self.dispatch_document(metadata, document)
    }

    /// The consumer's side: takes the oldest queued message, if any.
    pub fn take_next(&mut self) -> (r: Option<SerializedMessage>)
        requires
            old(self).wf(),
        ensures
            final(self).wf(),
            final(self).spec_relay() == old(self).spec_relay(),
            final(self).spec_capacity() == old(self).spec_capacity(),
            old(self).spec_queue().len() == 0 ==> r is None && final(self).spec_queue() == old(
                self,
            ).spec_queue(),
            old(self).spec_queue().len() > 0 ==> r == Some(old(self).spec_queue()[0])
                && final(self).spec_queue() == old(self).spec_queue().drop_first(),
    {
        self.queue.dequeue()
    }

    /// The consumer's side for a connection-oriented relay: passes the report
    /// `event` to `supervisor`, which takes the next message only while connected.
    pub fn step_link(&mut self, supervisor: &mut ReconnectSupervisor, event: LinkEvent) -> (r:
        LinkAction<SerializedMessage>)
        requires
            old(self).wf(),
        ensures
            final(self).wf(),
            final(self).spec_relay() == old(self).spec_relay(),
            final(self).spec_capacity() == old(self).spec_capacity(),
            final(supervisor).spec_delay() == old(supervisor).spec_delay(),
            (final(supervisor).spec_link(), final(self).spec_queue(), r) == supervisor_step(
                old(supervisor).spec_link(),
                old(self).spec_queue(),
                old(supervisor).spec_delay(),
                event,
            ),
    {
        supervisor.step(&mut self.queue, event)
    }

    /// The number of queued messages.
    pub fn queued(&self) -> (r: usize)
        ensures
            r == self.spec_queue().len(),
    {
        self.queue.len()
    }
}

} // verus!
