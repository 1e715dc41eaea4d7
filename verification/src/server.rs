//! What every service shares: its label, the protocol of its run loop, and the
//! registry of worker threads.
//!
//! A worker thread owns one service and circles through three phases: it looks
//! at the shutdown channel, tries its socket once, and sleeps one poll
//! interval. The program around this library does each of these and reports
//! back; [`Phase::advance`] decides what comes next.

use vstd::prelude::*;

verus! {

/// Milliseconds a worker sleeps between two attempts on its socket.
pub const POLL_INTERVAL_MS: u64 = 10;

/// Where a worker stands in its run loop.
#[derive(Clone, Copy, Debug, PartialEq, Eq, Structural)]
pub enum Phase {
    /// About to look at the shutdown channel, without blocking.
    Checking,
    /// About to try the socket once, without blocking.
    Serving,
    /// About to sleep one poll interval.
    Pausing,
    /// The run loop has ended.
    Stopped,
}

/// What the worker reports after doing what its phase asked for.
#[derive(Clone, Copy, Debug, PartialEq, Eq, Structural)]
pub enum Event {
    /// The shutdown channel was looked at; `token` tells whether it held one.
    Checked { token: bool },
    /// The socket was tried once, whatever came of it.
    Served,
    /// The sleep is over.
    Slept,
}

/// What the worker has to do next.
#[derive(Clone, Copy, Debug, PartialEq, Eq, Structural)]
pub enum Action {
    /// Look at the shutdown channel.
    Check,
    /// Try the socket once and answer what arrived.
    Serve,
    /// Sleep for the given number of milliseconds.
    Sleep(u64),
    /// Leave the run loop.
    Exit,
}

impl Phase {
    /// The phase that follows `self` on `event`. An event that does not belong
    /// to the phase changes nothing.
    pub open spec fn step(self, event: Event) -> Phase {
        match (self, event) {
            (Phase::Checking, Event::Checked { token }) => if token {
                Phase::Stopped
            } else {
                Phase::Serving
            },
            (Phase::Serving, Event::Served) => Phase::Pausing,
            (Phase::Pausing, Event::Slept) => Phase::Checking,
            _ => self,
        }
    }

    /// What a worker in this phase has to do.
    pub open spec fn duty(self) -> Action {
        match self {
            Phase::Checking => Action::Check,
            Phase::Serving => Action::Serve,
            Phase::Pausing => Action::Sleep(POLL_INTERVAL_MS),
            Phase::Stopped => Action::Exit,
        }
    }

    /// The event that a worker in this phase reports while a shutdown token
    /// waits in its channel.
    pub open spec fn report_with_token(self) -> Event {
        match self {
            Phase::Checking => Event::Checked { token: true },
            Phase::Serving => Event::Served,
            Phase::Pausing => Event::Slept,
            Phase::Stopped => Event::Checked { token: true },
        }
    }

    /// The phase reached from `self` after `n` steps of a worker whose channel
    /// holds a shutdown token.
    pub open spec fn run_with_token(self, n: nat) -> Phase
        decreases n,
    {
        if n == 0 {
            self
        } else {
            self.step(self.report_with_token()).run_with_token((n - 1) as nat)
        }
    }

    /// The milliseconds slept during the first `n` steps of a worker whose
    /// channel holds a shutdown token.
    pub open spec fn slept_with_token(self, n: nat) -> nat
        decreases n,
    {
        if n == 0 {
            0
        } else {
            let here: nat = match self.duty() {
                Action::Sleep(ms) => ms as nat,
                _ => 0,
            };
            here + self.step(self.report_with_token()).slept_with_token((n - 1) as nat)
        }
    }

    /// The phase in which a worker enters its run loop.
    pub fn start() -> (phase: Phase)
        ensures
            phase == Phase::Checking,
    {
        Phase::Checking
    }

    /// Takes the worker's report and gives the next phase.
    pub fn advance(self, event: Event) -> (next: Phase)
        ensures
            next == self.step(event),
    {
        match self {
            Phase::Checking => match event {
                Event::Checked { token } => if token {
                    Phase::Stopped
                } else {
                    Phase::Serving
                },
                _ => self,
            },
            Phase::Serving => match event {
                Event::Served => Phase::Pausing,
                _ => self,
            },
            Phase::Pausing => match event {
                Event::Slept => Phase::Checking,
                _ => self,
            },
            Phase::Stopped => self,
        }
    }

    /// Tells the worker what to do in this phase.
    pub fn action(self) -> (todo: Action)
        ensures
            todo == self.duty(),
    {
        match self {
            Phase::Checking => Action::Check,
            Phase::Serving => Action::Serve,
            Phase::Pausing => Action::Sleep(POLL_INTERVAL_MS),
            Phase::Stopped => Action::Exit,
        }
    }
}

/// A run loop ends in one way only: a look at the shutdown channel that finds
/// a token. Nothing that happens at the socket ends it.
pub proof fn lemma_only_a_token_stops(phase: Phase, event: Event)
    requires
        phase != Phase::Stopped,
    ensures
        phase.step(event) == Phase::Stopped <==> phase == Phase::Checking && event == (Event::Checked {
            token: true,
        }),
{
}

/// Once a shutdown token waits in the channel, the worker leaves its loop
/// within three steps, whatever its phase, and sleeps at most one poll
/// interval on the way.
pub proof fn lemma_stop_within_one_interval(phase: Phase)
    ensures
        phase.run_with_token(3) == Phase::Stopped,
        phase.slept_with_token(3) <= POLL_INTERVAL_MS,
{
    reveal_with_fuel(Phase::run_with_token, 4);
    reveal_with_fuel(Phase::slept_with_token, 4);
}

/// A stopped run loop stays stopped: no later event, a second shutdown token
/// among them, starts it again or asks the worker for anything but to leave.
pub proof fn lemma_stopped_is_final(event: Event)
    ensures
        Phase::Stopped.step(event) == Phase::Stopped,
        Phase::Stopped.duty() == Action::Exit,
{
}

/// The label of a service and nothing else: the shutdown channel itself stays
/// with the thread that owns it.
#[derive(Debug)]
pub struct ServerState {
    /// Put in front of every log line of the service.
    pub prefix: String,
}

impl ServerState {
    /// The state of a service with the given label.
    pub fn labelled(prefix: &str) -> (state: Self)
        ensures
            state.prefix@ == prefix@,
    {
        ServerState { prefix: prefix.to_owned() }
    }
}

/// The registry of worker threads. `H` is whatever the caller joins a thread
/// by. Handles are kept in the order in which they were registered and leave
/// the registry all at once.
pub struct ServerFactory<H> {
    handles: Vec<H>,
}

impl<H> View for ServerFactory<H> {
    type V = Seq<H>;

    closed spec fn view(&self) -> Seq<H> {
        self.handles@
    }
}

impl<H> ServerFactory<H> {
    /// A registry without handles.
    pub fn new() -> (factory: Self)
        ensures
            factory@ == Seq::<H>::empty(),
    {
        ServerFactory { handles: Vec::new() }
    }

    /// Appends the handle of a thread that was just started.
    pub fn register(&mut self, handle: H)
        ensures
            final(self)@ == old(self)@.push(handle),
    {
        self.handles.push(handle);
    }

    /// The number of handles that wait to be joined.
    pub fn len(&self) -> (n: usize)
        ensures
            n == self@.len(),
    {
        self.handles.len()
    }

    /// Hands out every handle, oldest first, and leaves the registry empty, so
    /// that no handle can be joined a second time.
    pub fn drain(&mut self) -> (all: Vec<H>)
        ensures
            all@ == old(self)@,
            final(self)@ == Seq::<H>::empty(),
    {
        let mut all: Vec<H> = Vec::new();
        std::mem::swap(&mut self.handles, &mut all);
        all
    }
}

} // verus!
