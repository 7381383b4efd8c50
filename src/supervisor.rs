use vstd::prelude::*;
use crate::dispatch::{enqueue_spec, DispatchQueue};

verus! {

/// The fixed delay before a new attempt after a failed connection, in milliseconds.
pub const RECONNECT_DELAY_MS: u64 = 10000;

/// The state of the association between the local socket and the remote listener.
#[derive(PartialEq, Eq, Structural, Clone, Copy, Debug)]
pub enum LinkState {
    Disconnected,
    Connecting,
    Connected,
}

/// What the task that owns the socket reports back to the supervisor.
#[derive(PartialEq, Eq, Structural, Clone, Copy, Debug)]
pub enum LinkEvent {
    /// Start, the delay is over, or new messages were queued.
    Resume,
    /// The remote address was resolved, a local socket bound and associated.
    ConnectSucceeded,
    /// Resolving, binding or associating failed.
    ConnectFailed,
    /// The last message went out.
    Sent,
    /// The last message could not be sent; the socket is still usable.
    SendFailed,
    /// The socket itself failed and must be replaced.
    SocketFailed,
}

/// How sending a datagram failed, as far as the supervisor cares.
#[derive(PartialEq, Eq, Structural, Clone, Copy, Debug)]
pub enum SendFailure {
    /// The socket is no longer associated with the remote.
    NotConnected,
    /// The socket was closed.
    BrokenPipe,
    /// Any other failure: the datagram is lost, the socket is kept.
    Other,
}

impl SendFailure {
    /// The report for a failed send: the socket must be replaced when it is no
    /// longer connected or was closed; otherwise only this message is lost.
    pub fn report(&self) -> (r: LinkEvent)
        ensures
            r == (if *self == SendFailure::Other {
                LinkEvent::SendFailed
            } else {
                LinkEvent::SocketFailed
            }),
    {
        match self {
            SendFailure::Other => LinkEvent::SendFailed,
            _ => LinkEvent::SocketFailed,
        }
    }
}

/// What the task that owns the socket must do next.
pub enum LinkAction<T> {
    /// Resolve the remote address, bind a local socket and associate it.
    Connect,
    /// Sleep this many milliseconds, then report `Resume`.
    Wait(u64),
    /// Send this message as one datagram.
    Send(T),
    /// Nothing to do until something is queued; then report `Resume`.
    Idle,
}

/// The link state after `ev` in state `s`.
pub open spec fn link_next(s: LinkState, ev: LinkEvent) -> LinkState {
    match (s, ev) {
        (LinkState::Disconnected, LinkEvent::Resume) => LinkState::Connecting,
        (LinkState::Connecting, LinkEvent::ConnectSucceeded) => LinkState::Connected,
        (LinkState::Connecting, LinkEvent::ConnectFailed) => LinkState::Disconnected,
        (LinkState::Connected, LinkEvent::SocketFailed) => LinkState::Disconnected,
        _ => s,
    }
}

/// Whether `ev` in state `s` asks for the next message: on connecting, and
/// while connected after anything but a failure of the socket.
pub open spec fn takes_next(s: LinkState, ev: LinkEvent) -> bool {
    match (s, ev) {
        (LinkState::Connecting, LinkEvent::ConnectSucceeded) => true,
        (LinkState::Connected, LinkEvent::Resume) => true,
        (LinkState::Connected, LinkEvent::Sent) => true,
        (LinkState::Connected, LinkEvent::SendFailed) => true,
        _ => false,
    }
}

/// The link state, the queue and the action after `ev` in state `s` with
/// queue `q`: a connection is attempted on entering Connecting; a failed
/// connection, or a failed socket, goes back to Disconnected and waits
/// `delay` before the next attempt; while connected the next queued message
/// goes out. Failures never touch the queue.
pub open spec fn supervisor_step<T>(s: LinkState, q: Seq<T>, delay: u64, ev: LinkEvent) -> (
    LinkState,
    Seq<T>,
    LinkAction<T>,
) {
    let next = link_next(s, ev);
    if takes_next(s, ev) {
        if q.len() > 0 {
            (next, q.drop_first(), LinkAction::Send(q[0]))
        } else {
            (next, q, LinkAction::Idle)
        }
    } else if next == LinkState::Connecting && next != s {
        (next, q, LinkAction::Connect)
    } else if next == LinkState::Disconnected && next != s {
        (next, q, LinkAction::Wait(delay))
    } else {
        (next, q, LinkAction::Idle)
    }
}

/// What reaches the supervisor: a producer's message, or a report of the
/// task that owns the socket.
pub enum SupervisorInput<T> {
    Offer(T),
    Report(LinkEvent),
}

/// The supervisor as it runs: its link state, its queue, the messages sent,
/// and the messages that producers offered and the queue accepted.
pub struct SupervisorRun<T> {
    pub link: LinkState,
    pub queue: Seq<T>,
    pub sent: Seq<T>,
    pub accepted: Seq<T>,
}

/// The run after the inputs `inputs`, from link state `s` and queue `q` of capacity `cap`.
pub open spec fn run_supervisor<T>(
    s: LinkState,
    q: Seq<T>,
    cap: nat,
    delay: u64,
    inputs: Seq<SupervisorInput<T>>,
) -> SupervisorRun<T>
    decreases inputs.len(),
{
    if inputs.len() == 0 {
        SupervisorRun { link: s, queue: q, sent: Seq::empty(), accepted: Seq::empty() }
    } else {
        let before = run_supervisor(s, q, cap, delay, inputs.drop_last());
        match inputs.last() {
            SupervisorInput::Offer(m) => SupervisorRun {
                queue: enqueue_spec(before.queue, cap, m),
                accepted: if before.queue.len() < cap {
                    before.accepted.push(m)
                } else {
                    before.accepted
                },
                ..before
            },
            SupervisorInput::Report(ev) => {
                let (link, queue, action) = supervisor_step(before.link, before.queue, delay, ev);
                SupervisorRun {
                    link,
                    queue,
                    sent: match action {
                        LinkAction::Send(m) => before.sent.push(m),
                        _ => before.sent,
                    },
                    accepted: before.accepted,
                }
            },
        }
    }
}

/// Reconnection keeps order: whatever fails along the way, the messages sent
/// followed by those still queued are exactly the messages queued at the start
/// followed by every message the queue accepted, in order. A message that found
/// the queue full is in neither and is never sent.
pub proof fn lemma_reconnect_keeps_order<T>(
    s: LinkState,
    q: Seq<T>,
    cap: nat,
    delay: u64,
    inputs: Seq<SupervisorInput<T>>,
)
    ensures
        run_supervisor(s, q, cap, delay, inputs).sent + run_supervisor(
            s,
            q,
            cap,
            delay,
            inputs,
        ).queue == q + run_supervisor(s, q, cap, delay, inputs).accepted,
    decreases inputs.len(),
{
    if inputs.len() > 0 {
        lemma_reconnect_keeps_order(s, q, cap, delay, inputs.drop_last());
        let before = run_supervisor(s, q, cap, delay, inputs.drop_last());
        match inputs.last() {
            SupervisorInput::Offer(m) => {
                if before.queue.len() < cap {
                    assert(before.sent + before.queue.push(m) =~= (before.sent + before.queue).push(
                        m,
                    ));
                    assert(q + before.accepted.push(m) =~= (q + before.accepted).push(m));
                }
            },
            SupervisorInput::Report(ev) => {
                if takes_next(before.link, ev) && before.queue.len() > 0 {
                    assert(before.sent.push(before.queue[0]) + before.queue.drop_first()
                        =~= before.sent + before.queue);
                }
            },
        }
    }
}

/// While the link is down, no report sends anything or takes a message from
/// the queue; only a successful connection does.
pub proof fn lemma_outage_keeps_queue<T>(s: LinkState, q: Seq<T>, delay: u64, ev: LinkEvent)
    requires
        s != LinkState::Connected,
        ev != LinkEvent::ConnectSucceeded,
    ensures
        supervisor_step(s, q, delay, ev).1 == q,
        !(supervisor_step(s, q, delay, ev).2 is Send),
        supervisor_step(s, q, delay, ev).0 != LinkState::Connected,
{
}

/// The reconnect supervisor of a connection-oriented relay: from what the task
/// owning the socket reports, it decides what that task does next, and takes
/// messages from the relay's queue only while connected. It loops for the life
/// of the process.
pub struct ReconnectSupervisor {
    link: LinkState,
    delay_ms: u64,
}

impl ReconnectSupervisor {
    pub closed spec fn spec_link(&self) -> LinkState {
        self.link
    }

    pub closed spec fn spec_delay(&self) -> u64 {
        self.delay_ms
    }

    /// A disconnected supervisor that waits `delay_ms` after a failed connection.
    pub fn new(delay_ms: u64) -> (r: ReconnectSupervisor)
        ensures
            r.spec_link() == LinkState::Disconnected,
            r.spec_delay() == delay_ms,
    {
        ReconnectSupervisor { link: LinkState::Disconnected, delay_ms }
    }

    /// The state of the link.
    pub fn link(&self) -> (r: LinkState)
        ensures
            r == self.spec_link(),
    {
        self.link
    }

    /// Takes the report `event` and says what the task owning the socket does
    /// next, taking the next message from `queue` when one is to be sent.
    pub fn step<T>(&mut self, queue: &mut DispatchQueue<T>, event: LinkEvent) -> (r: LinkAction<T>)
        requires
            old(queue).wf(),
        ensures
            final(queue).wf(),
            final(queue).spec_capacity() == old(queue).spec_capacity(),
            final(self).spec_delay() == old(self).spec_delay(),
            (final(self).spec_link(), final(queue)@, r) == supervisor_step(
                old(self).spec_link(),
                old(queue)@,
                old(self).spec_delay(),
                event,
            ),
    {
        let s = self.link;
        let next = match (s, event) {
            (LinkState::Disconnected, LinkEvent::Resume) => LinkState::Connecting,
            (LinkState::Connecting, LinkEvent::ConnectSucceeded) => LinkState::Connected,
            (LinkState::Connecting, LinkEvent::ConnectFailed) => LinkState::Disconnected,
            (LinkState::Connected, LinkEvent::SocketFailed) => LinkState::Disconnected,
            _ => s,
        };
        let takes = match (s, event) {
            (LinkState::Connecting, LinkEvent::ConnectSucceeded) => true,
            (LinkState::Connected, LinkEvent::Resume) => true,
            (LinkState::Connected, LinkEvent::Sent) => true,
            (LinkState::Connected, LinkEvent::SendFailed) => true,
            _ => false,
        };
        self.link = next;
        if takes {
            match queue.dequeue() {
                Some(m) => LinkAction::Send(m),
                None => LinkAction::Idle,
            }
        } else if next == LinkState::Connecting && next != s {
            LinkAction::Connect
        } else if next == LinkState::Disconnected && next != s {
            LinkAction::Wait(self.delay_ms)
        } else {
            LinkAction::Idle
        }
    }
}

} // verus!
