//! The heartbeat scheduler of one session.
//!
//! The scheduler is a state machine that is told what happened and answers
//! with what to do next; whoever drives it sleeps and sends. It waits for the
//! server's `Hello`, then waits a random time below the heartbeat interval,
//! and, once that time has passed and the `Authenticate` frame has gone out,
//! sends a ping, sleeps exactly the heartbeat interval, sends the next ping,
//! and so on until a send fails or the session is torn down.
//!
//! The random first delay keeps many clients that reconnect at the same
//! moment from pinging in lockstep.
use vstd::prelude::*;

verus! {

/// Where the scheduler stands.
#[derive(Debug, Clone, Copy, PartialEq, Eq, Structural)]
pub enum HeartbeatState {
    /// No `Hello` yet: the scheduler does nothing.
    AwaitingHello,
    /// Waiting for the first ping: for the random delay to pass and for the
    /// `Authenticate` frame to be sent, in whichever order.
    Jittering { heartbeat_interval: u64, jitter_elapsed: bool, authenticated: bool },
    /// Sending a ping every `heartbeat_interval` milliseconds.
    Pinging { heartbeat_interval: u64 },
    /// Done: a send failed or the session was torn down.
    Stopped,
}

/// What the scheduler is told.
#[derive(Debug, Clone, Copy, PartialEq, Eq, Structural)]
pub enum HeartbeatEvent {
    /// The server said `Hello`; `jitter` is the delay drawn for the first ping.
    Hello { heartbeat_interval: u64, jitter: u64 },
    /// The `Authenticate` frame was sent.
    AuthenticateSent,
    /// The sleep that the scheduler asked for is over.
    TimerElapsed,
    /// The ping that the scheduler asked for was sent.
    PingSent,
    /// A send on the connection failed.
    SendFailed,
    /// The session is torn down.
    Cancelled,
}

/// What the scheduler asks for.
#[derive(Debug, Clone, Copy, PartialEq, Eq, Structural)]
pub enum HeartbeatAction {
    /// Nothing.
    Idle,
    /// Sleep for `millis` milliseconds, then report `TimerElapsed`.
    Sleep { millis: u64 },
    /// Send a ping frame, then report `PingSent` or `SendFailed`.
    SendPing,
    /// End the task: the scheduler has stopped.
    Stop,
}

/// The state after `event` and the action that it calls for.
///
/// A failed send and a cancellation stop the scheduler from every state. Once
/// stopped it stays stopped and asks for nothing. An event that a state does
/// not expect changes nothing, and neither does a `Hello` whose delay does not
/// lie below its heartbeat interval.
pub open spec fn heartbeat_step(state: HeartbeatState, event: HeartbeatEvent) -> (
    HeartbeatState,
    HeartbeatAction,
) {
    match (state, event) {
        (HeartbeatState::Stopped, _) => (HeartbeatState::Stopped, HeartbeatAction::Idle),
        (_, HeartbeatEvent::SendFailed) => (HeartbeatState::Stopped, HeartbeatAction::Stop),
        (_, HeartbeatEvent::Cancelled) => (HeartbeatState::Stopped, HeartbeatAction::Stop),
        (
            HeartbeatState::AwaitingHello,
            HeartbeatEvent::Hello { heartbeat_interval, jitter },
        ) => if jitter < heartbeat_interval {
            (
                HeartbeatState::Jittering {
                    heartbeat_interval,
                    jitter_elapsed: false,
                    authenticated: false,
                },
                HeartbeatAction::Sleep { millis: jitter },
            )
        } else {
            (state, HeartbeatAction::Idle)
        },
        (
            HeartbeatState::Jittering { heartbeat_interval, jitter_elapsed: false, authenticated },
            HeartbeatEvent::TimerElapsed,
        ) => if authenticated {
            (HeartbeatState::Pinging { heartbeat_interval }, HeartbeatAction::SendPing)
        } else {
            (
                HeartbeatState::Jittering {
                    heartbeat_interval,
                    jitter_elapsed: true,
                    authenticated: false,
                },
                HeartbeatAction::Idle,
            )
        },
        (
            HeartbeatState::Jittering { heartbeat_interval, jitter_elapsed, authenticated: false },
            HeartbeatEvent::AuthenticateSent,
        ) => if jitter_elapsed {
            (HeartbeatState::Pinging { heartbeat_interval }, HeartbeatAction::SendPing)
        } else {
            (
                HeartbeatState::Jittering {
                    heartbeat_interval,
                    jitter_elapsed: false,
                    authenticated: true,
                },
                HeartbeatAction::Idle,
            )
        },
        (HeartbeatState::Pinging { heartbeat_interval }, HeartbeatEvent::PingSent) => (
            state,
            HeartbeatAction::Sleep { millis: heartbeat_interval },
        ),
        (HeartbeatState::Pinging { .. }, HeartbeatEvent::TimerElapsed) => (
            state,
            HeartbeatAction::SendPing,
        ),
        _ => (state, HeartbeatAction::Idle),
    }
}

/// The state and the action after a `Hello` whose first delay is `jitter`.
pub open spec fn hello_step(state: HeartbeatState, heartbeat_interval: u64, jitter: u64) -> (
    HeartbeatState,
    HeartbeatAction,
) {
    heartbeat_step(state, HeartbeatEvent::Hello { heartbeat_interval, jitter })
}

/// The random number generator that draws the first delay.
#[verifier::external_type_specification]
#[verifier::external_body]
pub struct ExStdRng(rand::rngs::StdRng);

/// Calls `rand::Rng::gen_range` on the range from zero up to `bound`, which
/// draws a number of that range. The range is empty for a `bound` of zero,
/// where `gen_range` panics.
#[verifier::external_body]
fn random_below(rng: &mut rand::rngs::StdRng, bound: u64) -> (drawn: u64)
    requires
        bound > 0,
    ensures
        drawn < bound,
{
    rand::Rng::gen_range(rng, 0..bound)
}

/// Draws the delay before the first ping: a number of milliseconds below the
/// heartbeat interval.
pub fn draw_jitter(rng: &mut rand::rngs::StdRng, heartbeat_interval: u64) -> (jitter: u64)
    requires
        heartbeat_interval > 0,
    ensures
        jitter < heartbeat_interval,
{
    random_below(rng, heartbeat_interval)
}

/// The heartbeat scheduler of one session.
#[derive(Debug)]
pub struct Heartbeat {
    state: HeartbeatState,
}

impl Heartbeat {
    /// Where the scheduler stands.
    pub closed spec fn spec_state(&self) -> HeartbeatState {
        self.state
    }

    /// A scheduler that waits for the server's `Hello`.
    pub fn new() -> (heartbeat: Heartbeat)
        ensures
            heartbeat.state() == HeartbeatState::AwaitingHello,
    {
        Heartbeat { state: HeartbeatState::AwaitingHello }
    }

    /// Where the scheduler stands.
    #[verifier::when_used_as_spec(spec_state)]
    pub fn state(&self) -> (state: HeartbeatState)
        ensures
            state == self.spec_state(),
    {
        self.state
    }

    /// Tells whether the scheduler has stopped for good.
    pub fn is_stopped(&self) -> (stopped: bool)
        ensures
            stopped == (self.state() == HeartbeatState::Stopped),
    {
        self.state == HeartbeatState::Stopped
    }

    /// Takes one event and returns what to do next.
    pub fn step(&mut self, event: HeartbeatEvent) -> (action: HeartbeatAction)
        ensures
            (final(self).state(), action) == heartbeat_step(old(self).state(), event),
    {
        let (state, action) = match (self.state, event) {
            (HeartbeatState::Stopped, _) => (HeartbeatState::Stopped, HeartbeatAction::Idle),
            (_, HeartbeatEvent::SendFailed) => (HeartbeatState::Stopped, HeartbeatAction::Stop),
            (_, HeartbeatEvent::Cancelled) => (HeartbeatState::Stopped, HeartbeatAction::Stop),
            (
                HeartbeatState::AwaitingHello,
                HeartbeatEvent::Hello { heartbeat_interval, jitter },
            ) => if jitter < heartbeat_interval {
                (
                    HeartbeatState::Jittering {
                        heartbeat_interval,
                        jitter_elapsed: false,
                        authenticated: false,
                    },
                    HeartbeatAction::Sleep { millis: jitter },
                )
            } else {
                (HeartbeatState::AwaitingHello, HeartbeatAction::Idle)
            },
            (
                HeartbeatState::Jittering {
                    heartbeat_interval,
                    jitter_elapsed: false,
                    authenticated,
                },
                HeartbeatEvent::TimerElapsed,
            ) => if authenticated {
                (HeartbeatState::Pinging { heartbeat_interval }, HeartbeatAction::SendPing)
            } else {
                (
                    HeartbeatState::Jittering {
                        heartbeat_interval,
                        jitter_elapsed: true,
                        authenticated: false,
                    },
                    HeartbeatAction::Idle,
                )
            },
            (
                HeartbeatState::Jittering {
                    heartbeat_interval,
                    jitter_elapsed,
                    authenticated: false,
                },
                HeartbeatEvent::AuthenticateSent,
            ) => if jitter_elapsed {
                (HeartbeatState::Pinging { heartbeat_interval }, HeartbeatAction::SendPing)
            } else {
                (
                    HeartbeatState::Jittering {
                        heartbeat_interval,
                        jitter_elapsed: false,
                        authenticated: true,
                    },
                    HeartbeatAction::Idle,
                )
            },
            (HeartbeatState::Pinging { heartbeat_interval }, HeartbeatEvent::PingSent) => (
                HeartbeatState::Pinging { heartbeat_interval },
                HeartbeatAction::Sleep { millis: heartbeat_interval },
            ),
            (HeartbeatState::Pinging { heartbeat_interval }, HeartbeatEvent::TimerElapsed) => (
                HeartbeatState::Pinging { heartbeat_interval },
                HeartbeatAction::SendPing,
            ),
            (state, _) => (state, HeartbeatAction::Idle),
        };
        self.state = state;
        action
    }

    /// Takes the server's `Hello`: draws the delay before the first ping and
    /// asks to sleep for it. The delay depends on the generator, so the
    /// contract says what holds of every delay that can be drawn. No delay
    /// lies below a heartbeat interval of zero: such a `Hello` changes
    /// nothing.
    pub fn on_hello(&mut self, rng: &mut rand::rngs::StdRng, heartbeat_interval: u64) -> (action:
        HeartbeatAction)
        ensures
            heartbeat_interval == 0 ==> final(self).state() == old(self).state() && action
                == HeartbeatAction::Idle,
            heartbeat_interval > 0 ==> exists|jitter: u64|
                jitter < heartbeat_interval && #[trigger] hello_step(
                    old(self).state(),
                    heartbeat_interval,
                    jitter,
                ) == (final(self).state(), action),
            heartbeat_interval > 0 && old(self).state() == HeartbeatState::AwaitingHello ==> (
            action matches HeartbeatAction::Sleep { millis } && millis < heartbeat_interval),
    {
        if heartbeat_interval == 0 {
            return HeartbeatAction::Idle;
        }
        let jitter = draw_jitter(rng, heartbeat_interval);
        let action = self.step(HeartbeatEvent::Hello { heartbeat_interval, jitter });
        assert((self.state(), action) == hello_step(old(self).state(), heartbeat_interval, jitter));
        action
    }
}

/// A stopped scheduler stays stopped and never asks for anything again.
pub proof fn lemma_stopped_is_final(event: HeartbeatEvent)
    ensures
        heartbeat_step(HeartbeatState::Stopped, event) == (
            HeartbeatState::Stopped,
            HeartbeatAction::Idle,
        ),
{
}

/// A failed send and a cancellation stop the scheduler, whatever it was
/// doing, sleeping included.
pub proof fn lemma_failure_and_cancellation_stop(state: HeartbeatState, event: HeartbeatEvent)
    requires
        event == HeartbeatEvent::SendFailed || event == HeartbeatEvent::Cancelled,
    ensures
        heartbeat_step(state, event).0 == HeartbeatState::Stopped,
{
}

/// A ping is asked for only after the `Hello`: when the first delay has passed
/// and the `Authenticate` frame is out, or when the sleep between two pings is
/// over.
pub proof fn lemma_ping_only_when_due(state: HeartbeatState, event: HeartbeatEvent)
    requires
        heartbeat_step(state, event).1 == HeartbeatAction::SendPing,
    ensures
        heartbeat_step(state, event).0 is Pinging,
        match state {
            HeartbeatState::Pinging { .. } => event == HeartbeatEvent::TimerElapsed,
            HeartbeatState::Jittering { jitter_elapsed, authenticated, .. } => (jitter_elapsed
                && event == HeartbeatEvent::AuthenticateSent) || (authenticated && event
                == HeartbeatEvent::TimerElapsed),
            _ => false,
        },
{
}

/// Every sleep that the scheduler asks for is either the first delay, which
/// lies below the heartbeat interval, or exactly the heartbeat interval
/// between two pings.
pub proof fn lemma_sleep_lengths(state: HeartbeatState, event: HeartbeatEvent)
    requires
        heartbeat_step(state, event).1 is Sleep,
    ensures
        match (state, event) {
            (
                HeartbeatState::AwaitingHello,
                HeartbeatEvent::Hello { heartbeat_interval, jitter },
            ) => heartbeat_step(state, event).1 == (HeartbeatAction::Sleep { millis: jitter })
                && jitter < heartbeat_interval,
            (HeartbeatState::Pinging { heartbeat_interval }, HeartbeatEvent::PingSent) =>
                heartbeat_step(state, event).1 == (HeartbeatAction::Sleep {
                    millis: heartbeat_interval,
                }),
            _ => false,
        },
{
}

/// The heartbeat interval that the scheduler goes by, once it has taken a
/// `Hello`.
pub open spec fn interval_of(state: HeartbeatState) -> Option<u64> {
    match state {
        HeartbeatState::Jittering { heartbeat_interval, .. } => Some(heartbeat_interval),
        HeartbeatState::Pinging { heartbeat_interval } => Some(heartbeat_interval),
        _ => None,
    }
}

/// The scheduler keeps the heartbeat interval of its `Hello` until it stops:
/// no later event changes it.
pub proof fn lemma_interval_is_kept(state: HeartbeatState, event: HeartbeatEvent)
    requires
        interval_of(state) is Some,
    ensures
        heartbeat_step(state, event).0 == HeartbeatState::Stopped || interval_of(
            heartbeat_step(state, event).0,
        ) == interval_of(state),
{
}

} // verus!
