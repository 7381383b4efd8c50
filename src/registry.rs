use vstd::prelude::*;

verus! {

/// Where the one-time registration of the process-wide relay stands. It only
/// moves forward: Uninitialized, then Initializing, then Initialized.
#[derive(PartialEq, Eq, Structural, Clone, Copy, Debug)]
pub enum RelayState {
    Uninitialized,
    Initializing,
    Initialized,
}

/// The code of each state in an atomic word.
pub open spec fn state_code(s: RelayState) -> usize {
    match s {
        RelayState::Uninitialized => 0,
        RelayState::Initializing => 1,
        RelayState::Initialized => 2,
    }
}

impl RelayState {
    /// The state's code in an atomic word.
    pub fn code(&self) -> (r: usize)
        ensures
            r == state_code(*self),
    {
        match self {
            RelayState::Uninitialized => 0,
            RelayState::Initializing => 1,
            RelayState::Initialized => 2,
        }
    }

    /// The state whose code is `code`; a code above the last one reads as the
    /// last state.
    pub fn from_code(code: usize) -> (r: RelayState)
        ensures
            code <= 2 ==> state_code(r) == code,
            code > 2 ==> r == RelayState::Initialized,
    {
        if code == 0 {
            RelayState::Uninitialized
        } else if code == 1 {
            RelayState::Initializing
        } else {
            RelayState::Initialized
        }
    }
}

/// What a registering caller does, after its attempt to move the state from
/// Uninitialized to Initializing observed a state.
#[derive(PartialEq, Eq, Structural, Clone, Copy, Debug)]
pub enum RegisterStep {
    /// It won the race: install the relay, then publish Initialized.
    Install,
    /// Another caller is installing: wait until it has published, then refuse.
    WaitThenRefuse,
    /// A relay is installed already: refuse.
    Refuse,
}

/// The step of a registering caller whose compare-and-swap observed `observed`.
pub open spec fn register_step_spec(observed: RelayState) -> RegisterStep {
    match observed {
        RelayState::Uninitialized => RegisterStep::Install,
        RelayState::Initializing => RegisterStep::WaitThenRefuse,
        RelayState::Initialized => RegisterStep::Refuse,
    }
}

/// The step of a registering caller whose compare-and-swap observed `observed`.
pub fn register_step(observed: RelayState) -> (r: RegisterStep)
    ensures
        r == register_step_spec(observed),
{
    match observed {
        RelayState::Uninitialized => RegisterStep::Install,
        RelayState::Initializing => RegisterStep::WaitThenRefuse,
        RelayState::Initialized => RegisterStep::Refuse,
    }
}

/// Whether a reader that observed `observed` may use the installed relay;
/// otherwise it uses the no-op relay.
pub fn relay_is_published(observed: RelayState) -> (r: bool)
    ensures
        r == (observed == RelayState::Initialized),
{
    match observed {
        RelayState::Initialized => true,
        _ => false,
    }
}

/// The error of a registration after a relay was registered already.
#[derive(PartialEq, Eq, Structural, Clone, Copy, Debug)]
pub struct SetRelayError;

impl SetRelayError {
    /// What the error means.
    pub fn message(&self) -> (r: &'static str)
        ensures
            r@ == "attempted to set relay after the relay was already initialized"@,
    {
        "attempted to set relay after the relay was already initialized"
    }
}

/// The installed relay and the outcome after one registration of `relay`:
/// only the first registration installs, every later one is refused.
pub open spec fn register_spec<R>(installed: Option<R>, relay: R) -> (Option<R>, bool) {
    match installed {
        None => (Some(relay), true),
        Some(_) => (installed, false),
    }
}

/// The installed relay and the outcome of each registration, in order, after
/// the registrations `attempts`.
pub open spec fn run_registrations<R>(installed: Option<R>, attempts: Seq<R>) -> (
    Option<R>,
    Seq<bool>,
)
    decreases attempts.len(),
{
    if attempts.len() == 0 {
        (installed, Seq::empty())
    } else {
        let (before, outcomes) = run_registrations(installed, attempts.drop_last());
        let (after, ok) = register_spec(before, attempts.last());
        (after, outcomes.push(ok))
    }
}

/// Single winner: of any number of registrations in a fresh process, exactly
/// the first one succeeds and installs its relay, every other one is refused,
/// and the installed relay is the first one's from then on.
pub proof fn lemma_single_winner<R>(attempts: Seq<R>)
    requires
        attempts.len() > 0,
    ensures
        run_registrations(None, attempts).0 == Some(attempts[0]),
        run_registrations(None, attempts).1 == seq![true] + Seq::new(
            (attempts.len() - 1) as nat,
            |i: int| false,
        ),
    decreases attempts.len(),
{
    if attempts.len() == 1 {
        assert(attempts.drop_last().len() == 0);
        assert(run_registrations(None, attempts).1 =~= seq![true] + Seq::new(0, |i: int| false));
    } else {
        lemma_single_winner(attempts.drop_last());
        assert(attempts.drop_last()[0] == attempts[0]);
        assert((seq![true] + Seq::new((attempts.len() - 2) as nat, |i: int| false)).push(false)
            =~= seq![true] + Seq::new((attempts.len() - 1) as nat, |i: int| false));
    }
}

/// One atomic action on the process-wide state word by a registering caller:
/// a compare-and-swap from Uninitialized to Initializing, or the store of
/// Initialized that publishes an installed relay.
#[derive(PartialEq, Eq, Structural, Clone, Copy, Debug)]
pub enum StateAction {
    Claim,
    Publish,
}

/// The state after `a` in state `s`.
pub open spec fn state_after(s: RelayState, a: StateAction) -> RelayState {
    match a {
        StateAction::Claim => if s == RelayState::Uninitialized {
            RelayState::Initializing
        } else {
            s
        },
        StateAction::Publish => if s == RelayState::Initializing {
            RelayState::Initialized
        } else {
            s
        },
    }
}

/// The state after the actions `acts`, in the order they took effect, and the
/// step of each claiming caller, in that order.
pub open spec fn run_claims(s: RelayState, acts: Seq<StateAction>) -> (RelayState, Seq<
    RegisterStep,
>)
    decreases acts.len(),
{
    if acts.len() == 0 {
        (s, Seq::empty())
    } else {
        let (before, steps) = run_claims(s, acts.drop_last());
        (
            state_after(before, acts.last()),
            if acts.last() == StateAction::Claim {
                steps.push(register_step_spec(before))
            } else {
                steps
            },
        )
    }
}

/// Single winner under concurrency: however the registering callers'
/// compare-and-swaps and the winner's publish interleave from a fresh state,
/// the first claim installs and every later claim is refused (after waiting
/// when it saw the installation in progress); the state never returns to
/// Uninitialized once claimed.
pub proof fn lemma_claims_single_winner(acts: Seq<StateAction>)
    ensures
        run_claims(RelayState::Uninitialized, acts).1.len() > 0 ==> run_claims(
            RelayState::Uninitialized,
            acts,
        ).1[0] == RegisterStep::Install && run_claims(RelayState::Uninitialized, acts).0
            != RelayState::Uninitialized,
        run_claims(RelayState::Uninitialized, acts).1.len() == 0 ==> run_claims(
            RelayState::Uninitialized,
            acts,
        ).0 == RelayState::Uninitialized,
        forall|i: int|
            1 <= i < run_claims(RelayState::Uninitialized, acts).1.len() ==> (#[trigger] run_claims(
                RelayState::Uninitialized,
                acts,
            ).1[i]) != RegisterStep::Install,
    decreases acts.len(),
{
    if acts.len() > 0 {
        lemma_claims_single_winner(acts.drop_last());
    }
}

/// The process-wide relay slot, seen by one caller at a time: set once, then
/// read for ever.
pub struct Registry<R> {
    state: RelayState,
    relay: Option<R>,
}

impl<R> View for Registry<R> {
    type V = Option<R>;

    closed spec fn view(&self) -> Option<R> {
        self.relay
    }
}

impl<R> Registry<R> {
    /// Between calls the state is Uninitialized with no relay, or
    /// Initialized with one.
    pub closed spec fn wf(&self) -> bool {
        &&& self.state != RelayState::Initializing
        &&& (self.state == RelayState::Initialized <==> self.relay is Some)
    }

    /// The state of the registration.
    pub closed spec fn spec_state(&self) -> RelayState {
        self.state
    }

    /// A registry with no relay.
    pub fn new() -> (r: Registry<R>)
        ensures
            r.wf(),
            r@ is None,
            r.spec_state() == RelayState::Uninitialized,
    {
        Registry { state: RelayState::Uninitialized, relay: None }
    }

    /// Registers `relay` if no relay was registered before; refuses it otherwise.
    pub fn set_relay(&mut self, relay: R) -> (r: Result<(), SetRelayError>)
        requires
            old(self).wf(),
        ensures
            final(self).wf(),
            (final(self)@, r is Ok) == register_spec(old(self)@, relay),
            final(self).spec_state() == RelayState::Initialized,
    {
        match register_step(self.state) {
            RegisterStep::Install => {
                self.state = RelayState::Initializing;
                self.relay = Some(relay);
                self.state = RelayState::Initialized;
                Ok(())
            },
            _ => Err(SetRelayError),
        }
    }

    /// The registered relay, or `None` before any registration (the caller
    /// then discards what it would have sent).
    pub fn relay(&self) -> (r: Option<&R>)
        requires
            self.wf(),
        ensures
            r is None <==> self@ is None,
            r matches Some(x) ==> self@ == Some(*x),
    {
        if relay_is_published(self.state) {
            self.relay.as_ref()
        } else {
            None
        }
    }

    /// The state of the registration.
    pub fn state(&self) -> (r: RelayState)
        ensures
            r == self.spec_state(),
    {
        self.state
    }
}

} // verus!
