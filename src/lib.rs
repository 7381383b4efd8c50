//! A process-embedded telemetry emitter: events are described by [`Metadata`],
//! flattened with a caller payload into one JSON document, and handed to the
//! relay that was registered once for the whole process.

mod dispatch;
mod error;
mod event;
mod http;
mod json;
mod registry;
mod supervisor;
mod tracker;
mod udp;
mod wire;

pub use self::error::TrackError;
pub use self::event::{time_or_zero, Event, EventBase, Metadata, MetadataView};
pub use self::wire::{
    assemble_document, debug_pin_member, decimal, decimal_i32, decimal_u128, document,
    event_document, flattens, is_json_object, json_null, object_members, payload_fields, payload_members, serialize_event,
    signed_decimal, CLOSE_BRACE, OPEN_BRACE,
};
pub use self::http::{
    headers_view, request_headers, request_headers_spec, Header, HeaderName, Http, HttpRelay,
};
pub use self::udp::{AddrFamily, Udp, UdpRelay};
pub use self::dispatch::{
    enqueue_all, enqueue_spec, lemma_fifo_delivery, lemma_full_queue_drops, never_full, offered,
    run_ops, DispatchQueue, Enqueued, QueueOp,
};
pub use self::registry::{
    lemma_claims_single_winner, lemma_single_winner, register_spec, register_step,
    register_step_spec, relay_is_published, run_claims, run_registrations, state_after,
    state_code, Registry, RegisterStep, RelayState, SetRelayError, StateAction,
};
pub use self::supervisor::{
    lemma_outage_keeps_queue, lemma_reconnect_keeps_order, link_next, run_supervisor,
    supervisor_step, takes_next, LinkAction, LinkEvent, LinkState, ReconnectSupervisor,
    SendFailure, SupervisorInput, SupervisorRun, RECONNECT_DELAY_MS,
};
pub use self::tracker::{
    discards, message_view, offer_outcome, queued_after, Delivery, Noop, Relay, SerializedMessage, Tracker,
};
