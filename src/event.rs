use vstd::prelude::*;

verus! {

#[verifier::external_type_specification]
#[verifier::external_body]
pub struct ExSystemTime(std::time::SystemTime);

/// Relies on `SystemTime::now`: the wall clock. Nothing is known of the value.
#[verifier::external_body]
fn clock_now() -> (r: std::time::SystemTime) {
    std::time::SystemTime::now()
}

/// Relies on `SystemTime::duration_since` with `UNIX_EPOCH`: the time elapsed
/// since the epoch, or `None` for a clock set before it.
#[verifier::external_body]
fn since_epoch(t: &std::time::SystemTime) -> (r: Option<std::time::Duration>) {
    t.duration_since(std::time::SystemTime::UNIX_EPOCH).ok()
}

/// Relies on `Duration::as_millis`: the whole milliseconds of `d`.
#[verifier::external_body]
fn whole_millis(d: &std::time::Duration) -> (r: u128) {
    d.as_millis()
}

/// The milliseconds since the unix epoch on the wall clock, or `None` when the
/// clock is set before the epoch.
fn now_millis() -> (r: Option<u128>) {
    match since_epoch(&clock_now()) {
        Some(d) => Some(whole_millis(&d)),
        None => None,
    }
}

/// The time stamped on an event from a clock reading: the reading itself, or
/// zero when the clock is set before the unix epoch.
pub fn time_or_zero(reading: Option<u128>) -> (r: u128)
    ensures
        r == match reading {
            Some(t) => t,
            None => 0,
        },
{
    match reading {
        Some(t) => t,
        None => 0,
    }
}

/// What is known of one telemetry occurrence: its name, the portal it happens
/// in, when it happened and an optional debug pin. Immutable once built.
pub struct Metadata {
    event: &'static str,
    portal: String,
    time: u128,
    debug_pin: Option<i32>,
}

/// The mathematical content of a [`Metadata`].
pub struct MetadataView {
    pub event: Seq<char>,
    pub portal: Seq<char>,
    pub time: u128,
    pub debug_pin: Option<i32>,
}

impl View for Metadata {
    type V = MetadataView;

    closed spec fn view(&self) -> MetadataView {
        MetadataView {
            event: self.event@,
            portal: self.portal@,
            time: self.time,
            debug_pin: self.debug_pin,
        }
    }
}

/// The metadata of an [`Event`].
pub type EventBase = Metadata;

impl Metadata {
    /// Metadata with the given fields; `time` is in milliseconds since the unix epoch.
    pub fn new(event: &'static str, portal: String, time: u128, debug_pin: Option<i32>) -> (r:
        Metadata)
        ensures
            r@.event == event@,
            r@.portal == portal@,
            r@.time == time,
            r@.debug_pin == debug_pin,
    {
        Metadata { event, portal, time, debug_pin }
    }

    /// Metadata stamped with the current time (zero for a clock set before
    /// the unix epoch).
    pub fn now(event: &'static str, portal: String, debug_pin: Option<i32>) -> (r: Metadata)
        ensures
            r@.event == event@,
            r@.portal == portal@,
            r@.debug_pin == debug_pin,
    {
        Metadata { event, portal, time: time_or_zero(now_millis()), debug_pin }
    }

    /// Event name
    pub fn event(&self) -> (r: &'static str)
        ensures
            r@ == self@.event,
    {
        self.event
    }

    /// Portal it's happening in
    pub fn portal(&self) -> (r: &str)
        ensures
            r@ == self@.portal,
    {
        self.portal.as_str()
    }

    /// Current time in milliseconds since unix epoch
    pub fn time(&self) -> (r: u128)
        ensures
            r == self@.time,
    {
        self.time
    }

    /// Debug pin
    pub fn debug_pin(&self) -> (r: Option<i32>)
        ensures
            r == self@.debug_pin,
    {
        self.debug_pin
    }
}

/// An event to track: its metadata and a caller payload of any shape.
pub struct Event<T> {
    /// Event base
    pub base: EventBase,
    /// Additional tracking data
    pub tracking_data: T,
}

impl<T> Event<T> {
    /// Creates an event stamped with the current time.
    pub fn new(event: &'static str, portal: String, debug_pin: Option<i32>, tracking_data: T) -> (r:
        Event<T>)
        ensures
            r.base@.event == event@,
            r.base@.portal == portal@,
            r.base@.debug_pin == debug_pin,
            r.tracking_data == tracking_data,
    {
        Event { base: Metadata::now(event, portal, debug_pin), tracking_data }
    }
}

} // verus!
