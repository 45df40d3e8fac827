//! The supervision cycle as a state machine: each event reported by the
//! surrounding driver yields the next phase and the one action to perform.
use vstd::prelude::*;

use crate::payload::Reading;
use crate::retry::{RetryPolicy, RetryStep};

verus! {

/// The pause at the start of every steady-state iteration, in milliseconds.
pub const CYCLE_PERIOD_MS: u64 = 5000;

/// The pause after a failed association attempt, in milliseconds.
pub const RECONNECT_DELAY_MS: u64 = 10000;

/// The pause after the link is back, letting the session reconnect, in milliseconds.
pub const SETTLE_DELAY_MS: u64 = 10000;

/// Where the cycle stands; each phase waits for one kind of event.
#[derive(Clone, Copy, Debug, PartialEq, Eq, Structural)]
pub enum Phase {
    /// Waiting for session creation attempt number `attempt`.
    CreatingSession { attempt: u32 },
    /// Sleeping before session creation attempt number `attempt`.
    CreateBackoff { attempt: u32 },
    /// Sleeping after the last allowed creation attempt failed; `attempts` were made.
    CreateExhausted { attempts: u32 },
    /// Waiting for initial subscription attempt number `attempt`.
    Subscribing { attempt: u32 },
    /// Sleeping before initial subscription attempt number `attempt`.
    SubscribeBackoff { attempt: u32 },
    /// Sleeping after the last allowed initial subscription attempt failed.
    SubscribeExhausted,
    /// Sleeping out the cycle period.
    Waiting,
    /// Waiting for a subscription issued in steady state, while none is confirmed.
    SteadySubscribing,
    /// Waiting for the link status at the top of an iteration.
    CheckingLink,
    /// Waiting for the sensor.
    Measuring,
    /// Waiting for the outcome of a publish.
    Publishing,
    /// Recovery: waiting for the link status.
    RecoverChecking,
    /// Recovery: waiting for an association attempt.
    RecoverConnecting,
    /// Recovery: sleeping after a failed association attempt.
    RecoverBackoff,
    /// Recovery: letting the session settle once the link is back.
    Settling,
    /// Recovery: waiting for the subscription to be issued again.
    Resubscribing,
    /// Stopped after a fatal fault.
    Halted,
}

/// What the driver reports back after performing an action.
#[derive(Clone, Copy, Debug, PartialEq, Eq, Structural)]
pub enum Event {
    SessionCreated { ok: bool },
    Subscribed { ok: bool },
    Slept,
    LinkStatus { connected: bool },
    Measured { reading: Reading },
    MeasureFailed,
    Published { ok: bool },
    Connected { ok: bool },
}

/// A fault that ends the process.
#[derive(Clone, Copy, Debug, PartialEq, Eq, Structural)]
pub enum Fault {
    /// No session could be created in `attempts` attempts.
    SessionExhausted { attempts: u32 },
    /// The sensor failed to measure.
    SensorFault,
    /// Subscribing again after recovery failed.
    ResubscribeFailed,
}

/// The one thing the driver is asked to do next.
#[derive(Clone, Copy, Debug, PartialEq, Eq, Structural)]
pub enum Action {
    CreateSession,
    Subscribe,
    Sleep { ms: u64 },
    CheckLink,
    Measure,
    /// Encode `reading` and publish it.
    Publish { reading: Reading },
    /// Make one association attempt.
    Connect,
    Abort { fault: Fault },
    /// The event did not fit the phase: nothing to do.
    Nothing,
}

pub open spec fn is_recovering(p: Phase) -> bool {
    match p {
        Phase::RecoverChecking | Phase::RecoverConnecting | Phase::RecoverBackoff
        | Phase::Settling | Phase::Resubscribing => true,
        _ => false,
    }
}

/// Attempt numbers stay within the policy's bound.
pub open spec fn phase_wf(policy: RetryPolicy, p: Phase) -> bool {
    match p {
        Phase::CreatingSession { attempt } | Phase::CreateBackoff { attempt }
        | Phase::Subscribing { attempt } | Phase::SubscribeBackoff { attempt } => 1 <= attempt
            <= policy.max_attempts,
        _ => true,
    }
}

/// The phase in which steady state resumes: the cycle sleeps first.
pub open spec fn resume() -> (Phase, Action) {
    (Phase::Waiting, Action::Sleep { ms: CYCLE_PERIOD_MS })
}

/// The transition table of the cycle; `subscribed` tells whether a subscription
/// has been confirmed.
pub open spec fn transition(policy: RetryPolicy, subscribed: bool, p: Phase, e: Event) -> (
    Phase,
    Action,
) {
    match (p, e) {
        (Phase::CreatingSession { attempt }, Event::SessionCreated { ok }) => {
            match policy.after_spec(attempt, ok) {
                RetryStep::Done => (Phase::Subscribing { attempt: 1 }, Action::Subscribe),
                RetryStep::Retry { next_attempt, delay_ms } => (
                    Phase::CreateBackoff { attempt: next_attempt },
                    Action::Sleep { ms: delay_ms },
                ),
                RetryStep::Exhausted { attempts } => (
                    Phase::CreateExhausted { attempts },
                    Action::Sleep { ms: policy.delay_ms },
                ),
            }
        },
        (Phase::CreateBackoff { attempt }, Event::Slept) => (
            Phase::CreatingSession { attempt },
            Action::CreateSession,
        ),
        (Phase::CreateExhausted { attempts }, Event::Slept) => (
            Phase::Halted,
            Action::Abort { fault: Fault::SessionExhausted { attempts } },
        ),
        (Phase::Subscribing { attempt }, Event::Subscribed { ok }) => {
            match policy.after_spec(attempt, ok) {
                RetryStep::Done => resume(),
                RetryStep::Retry { next_attempt, delay_ms } => (
                    Phase::SubscribeBackoff { attempt: next_attempt },
                    Action::Sleep { ms: delay_ms },
                ),
                RetryStep::Exhausted { .. } => (
                    Phase::SubscribeExhausted,
                    Action::Sleep { ms: policy.delay_ms },
                ),
            }
        },
        (Phase::SubscribeBackoff { attempt }, Event::Slept) => (
            Phase::Subscribing { attempt },
            Action::Subscribe,
        ),
        (Phase::SubscribeExhausted, Event::Slept) => resume(),
        (Phase::Waiting, Event::Slept) => {
            if subscribed {
                (Phase::CheckingLink, Action::CheckLink)
            } else {
                (Phase::SteadySubscribing, Action::Subscribe)
            }
        },
        (Phase::SteadySubscribing, Event::Subscribed { ok }) => (
            Phase::CheckingLink,
            Action::CheckLink,
        ),
        (Phase::CheckingLink, Event::LinkStatus { connected }) => {
            if connected {
                (Phase::Measuring, Action::Measure)
            } else {
                (Phase::RecoverConnecting, Action::Connect)
            }
        },
        (Phase::Measuring, Event::Measured { reading }) => (
            Phase::Publishing,
            Action::Publish { reading },
        ),
        (Phase::Measuring, Event::MeasureFailed) => (
            Phase::Halted,
            Action::Abort { fault: Fault::SensorFault },
        ),
        (Phase::Publishing, Event::Published { ok }) => {
            if ok {
                resume()
            } else {
                (Phase::RecoverChecking, Action::CheckLink)
            }
        },
        (Phase::RecoverChecking, Event::LinkStatus { connected }) => {
            if connected {
                (Phase::Settling, Action::Sleep { ms: SETTLE_DELAY_MS })
            } else {
                (Phase::RecoverConnecting, Action::Connect)
            }
        },
        (Phase::RecoverConnecting, Event::Connected { ok }) => {
            if ok {
                (Phase::RecoverChecking, Action::CheckLink)
            } else {
                (Phase::RecoverBackoff, Action::Sleep { ms: RECONNECT_DELAY_MS })
            }
        },
        (Phase::RecoverBackoff, Event::Slept) => (Phase::RecoverChecking, Action::CheckLink),
        (Phase::Settling, Event::Slept) => (Phase::Resubscribing, Action::Subscribe),
        (Phase::Resubscribing, Event::Subscribed { ok }) => {
            if ok {
                resume()
            } else {
                (Phase::Halted, Action::Abort { fault: Fault::ResubscribeFailed })
            }
        },
        _ => (p, Action::Nothing),
    }
}

/// Whether a subscription is confirmed after handling `e` in phase `p`: the
/// outcome of any subscription the phase was waiting for, else unchanged.
pub open spec fn subscribed_after(subscribed: bool, p: Phase, e: Event) -> bool {
    match (p, e) {
        (Phase::Subscribing { .. }, Event::Subscribed { ok })
        | (Phase::SteadySubscribing, Event::Subscribed { ok })
        | (Phase::Resubscribing, Event::Subscribed { ok }) => ok,
        _ => subscribed,
    }
}

/// A publish is only ever requested by the step that follows the sensor's reading,
/// and the cycle only comes to wait on the sensor from observing the link connected
/// in the same iteration; an observed link loss leads straight into recovery, with neither
/// a measurement nor a publish.
pub proof fn lemma_publish_needs_link_up(
    policy: RetryPolicy,
    sub1: bool,
    sub2: bool,
    p: Phase,
    e1: Event,
    e2: Event,
)
    ensures
        transition(policy, sub1, p, e1).1 is Publish ==> p == Phase::Measuring && e1 is Measured,
        transition(policy, sub1, p, e1).0 == Phase::Measuring && p != Phase::Measuring ==> p
            == Phase::CheckingLink && e1 == (Event::LinkStatus { connected: true }),
        p != Phase::Measuring && transition(policy, sub2, transition(policy, sub1, p, e1).0, e2).1
            is Publish ==> p == Phase::CheckingLink && e1 == (Event::LinkStatus {
            connected: true,
        }),
        p == Phase::CheckingLink && e1 == (Event::LinkStatus { connected: false })
            ==> is_recovering(transition(policy, sub1, p, e1).0) && transition(
            policy,
            sub1,
            p,
            e1,
        ).1 == Action::Connect,
{
}

/// A failed publish is followed at once by recovery, whose first action checks the
/// link; no phase of recovery ever requests a publish.
pub proof fn lemma_publish_failure_recovers(policy: RetryPolicy, sub: bool, p: Phase, e: Event)
    ensures
        p == Phase::Publishing && e == (Event::Published { ok: false }) ==> is_recovering(
            transition(policy, sub, p, e).0,
        ) && transition(policy, sub, p, e).1 == Action::CheckLink,
        is_recovering(p) ==> !(transition(policy, sub, p, e).1 is Publish),
{
}

/// While no subscription is confirmed, every steady-state iteration asks for one
/// before it checks the link.
pub proof fn lemma_unsubscribed_resubscribes(policy: RetryPolicy)
    ensures
        transition(policy, false, Phase::Waiting, Event::Slept) == (
            Phase::SteadySubscribing,
            Action::Subscribe,
        ),
        forall|ok: bool|
            #[trigger] transition(policy, false, Phase::SteadySubscribing, Event::Subscribed { ok })
                == (Phase::CheckingLink, Action::CheckLink) && subscribed_after(
                false,
                Phase::SteadySubscribing,
                Event::Subscribed { ok },
            ) == ok,
{
}

/// The phase reached from `p`, with subscription state `sub`, after handling
/// `events` in order.
pub open spec fn run(policy: RetryPolicy, sub: bool, p: Phase, events: Seq<Event>) -> Phase
    decreases events.len(),
{
    if events.len() == 0 {
        p
    } else {
        run(
            policy,
            subscribed_after(sub, p, events[0]),
            transition(policy, sub, p, events[0]).0,
            events.drop_first(),
        )
    }
}

/// `n` failed session creations, each followed by its pause, then a success.
pub open spec fn creation_events(n: nat) -> Seq<Event>
    decreases n,
{
    if n == 0 {
        seq![Event::SessionCreated { ok: true }]
    } else {
        seq![Event::SessionCreated { ok: false }, Event::Slept] + creation_events((n - 1) as nat)
    }
}

proof fn lemma_halted_stays(policy: RetryPolicy, sub: bool, events: Seq<Event>)
    ensures
        run(policy, sub, Phase::Halted, events) == Phase::Halted,
    decreases events.len(),
{
    if events.len() > 0 {
        lemma_halted_stays(policy, sub, events.drop_first());
    }
}

proof fn lemma_creation_from(policy: RetryPolicy, sub: bool, k: u32, n: nat)
    requires
        1 <= k <= policy.max_attempts,
    ensures
        run(policy, sub, Phase::CreatingSession { attempt: k }, creation_events(n)) == if k + n
            <= policy.max_attempts {
            Phase::Subscribing { attempt: 1 }
        } else {
            Phase::Halted
        },
    decreases n,
{
    let ev = creation_events(n);
    let start = Phase::CreatingSession { attempt: k };
    if n == 0 {
        assert(ev.drop_first().len() == 0);
    } else {
        let rest = creation_events((n - 1) as nat);
        assert(ev.drop_first() =~= seq![Event::Slept] + rest);
        assert((seq![Event::Slept] + rest).drop_first() =~= rest);
        if k < policy.max_attempts {
            let k1 = (k + 1) as u32;
            assert(transition(policy, sub, start, ev[0]).0 == Phase::CreateBackoff {
                attempt: k1,
            });
            assert(run(policy, sub, Phase::CreateBackoff { attempt: k1 }, seq![Event::Slept] + rest)
                == run(policy, sub, Phase::CreatingSession { attempt: k1 }, rest));
            lemma_creation_from(policy, sub, k1, (n - 1) as nat);
        } else {
            assert(transition(policy, sub, start, ev[0]).0 == Phase::CreateExhausted {
                attempts: k,
            });
            assert(run(policy, sub, Phase::CreateExhausted { attempts: k }, seq![Event::Slept] + rest)
                == run(policy, sub, Phase::Halted, rest));
            lemma_halted_stays(policy, sub, rest);
        }
    }
}

/// Session creation under the retry policy: after `n` failures and then a success,
/// the cycle goes on to subscribe, with no further creation attempt, when `n` is
/// below the policy's bound; otherwise it halts. Every failure, the last allowed
/// one included, is followed by the policy's pause, and the pause after the last
/// one ends in exhaustion reported after exactly `max_attempts` attempts.
pub proof fn lemma_session_creation(policy: RetryPolicy, sub: bool, n: nat)
    requires
        policy.max_attempts >= 1,
    ensures
        n < policy.max_attempts ==> run(
            policy,
            sub,
            Phase::CreatingSession { attempt: 1 },
            creation_events(n),
        ) == (Phase::Subscribing { attempt: 1 }),
        n >= policy.max_attempts ==> run(
            policy,
            sub,
            Phase::CreatingSession { attempt: 1 },
            creation_events(n),
        ) == Phase::Halted,
        forall|k: u32|
            1 <= k <= policy.max_attempts ==> #[trigger] transition(
                policy,
                sub,
                Phase::CreatingSession { attempt: k },
                Event::SessionCreated { ok: false },
            ).1 == (Action::Sleep { ms: policy.delay_ms }),
        transition(
            policy,
            sub,
            Phase::CreateExhausted { attempts: policy.max_attempts },
            Event::Slept,
        ) == (
            Phase::Halted,
            Action::Abort { fault: Fault::SessionExhausted { attempts: policy.max_attempts } },
        ),
{
    lemma_creation_from(policy, sub, 1, n);
}

/// The supervision cycle: a retry policy for startup, the current phase, and
/// whether a subscription has been confirmed.
#[derive(Clone, Copy, Debug, PartialEq, Eq, Structural)]
pub struct Supervisor {
    pub policy: RetryPolicy,
    pub phase: Phase,
    pub subscribed: bool,
}

impl Supervisor {
    pub open spec fn wf(&self) -> bool {
        self.policy.max_attempts >= 1 && phase_wf(self.policy, self.phase)
    }

    /// Begins at startup: the first action is creating the session.
    pub fn start(policy: RetryPolicy) -> (r: (Supervisor, Action))
        requires
            policy.max_attempts >= 1,
        ensures
            r.0.wf(),
            r.0.policy == policy,
            r.0.phase == (Phase::CreatingSession { attempt: 1 }),
            !r.0.subscribed,
            r.1 == Action::CreateSession,
    {
        (
            Supervisor {
                policy,
                phase: Phase::CreatingSession { attempt: 1 },
                subscribed: false,
            },
            Action::CreateSession,
        )
    }

    /// Takes the event that the last action produced, moves to the next phase and
    /// returns the next action.
    pub fn handle(&mut self, e: Event) -> (a: Action)
        requires
            old(self).wf(),
        ensures
            final(self).wf(),
            final(self).policy == old(self).policy,
            (final(self).phase, a) == transition(
                old(self).policy,
                old(self).subscribed,
                old(self).phase,
                e,
            ),
            final(self).subscribed == subscribed_after(old(self).subscribed, old(self).phase, e),
    {
        let policy = self.policy;
        let (p, a) = match (self.phase, e) {
            (Phase::CreatingSession { attempt }, Event::SessionCreated { ok }) => {
                match policy.after_attempt(attempt, ok) {
                    RetryStep::Done => (Phase::Subscribing { attempt: 1 }, Action::Subscribe),
                    RetryStep::Retry { next_attempt, delay_ms } => (
                        Phase::CreateBackoff { attempt: next_attempt },
                        Action::Sleep { ms: delay_ms },
                    ),
                    RetryStep::Exhausted { attempts } => (
                        Phase::CreateExhausted { attempts },
                        Action::Sleep { ms: policy.delay_ms },
                    ),
                }
            },
            (Phase::CreateBackoff { attempt }, Event::Slept) => (
                Phase::CreatingSession { attempt },
                Action::CreateSession,
            ),
            (Phase::CreateExhausted { attempts }, Event::Slept) => (
                Phase::Halted,
                Action::Abort { fault: Fault::SessionExhausted { attempts } },
            ),
            (Phase::Subscribing { attempt }, Event::Subscribed { ok }) => {
                self.subscribed = ok;
                match policy.after_attempt(attempt, ok) {
                    RetryStep::Done => (Phase::Waiting, Action::Sleep { ms: CYCLE_PERIOD_MS }),
                    RetryStep::Retry { next_attempt, delay_ms } => (
                        Phase::SubscribeBackoff { attempt: next_attempt },
                        Action::Sleep { ms: delay_ms },
                    ),
                    RetryStep::Exhausted { .. } => (
                        Phase::SubscribeExhausted,
                        Action::Sleep { ms: policy.delay_ms },
                    ),
                }
            },
            (Phase::SubscribeBackoff { attempt }, Event::Slept) => (
                Phase::Subscribing { attempt },
                Action::Subscribe,
            ),
            (Phase::SubscribeExhausted, Event::Slept) => (
                Phase::Waiting,
                Action::Sleep { ms: CYCLE_PERIOD_MS },
            ),
            (Phase::Waiting, Event::Slept) => {
                if self.subscribed {
                    (Phase::CheckingLink, Action::CheckLink)
                } else {
                    (Phase::SteadySubscribing, Action::Subscribe)
                }
            },
            (Phase::SteadySubscribing, Event::Subscribed { ok }) => {
                self.subscribed = ok;
                (Phase::CheckingLink, Action::CheckLink)
            },
            (Phase::CheckingLink, Event::LinkStatus { connected }) => {
                if connected {
                    (Phase::Measuring, Action::Measure)
                } else {
                    (Phase::RecoverConnecting, Action::Connect)
                }
            },
            (Phase::Measuring, Event::Measured { reading }) => (
                Phase::Publishing,
                Action::Publish { reading },
            ),
            (Phase::Measuring, Event::MeasureFailed) => (
                Phase::Halted,
                Action::Abort { fault: Fault::SensorFault },
            ),
            (Phase::Publishing, Event::Published { ok }) => {
                if ok {
                    (Phase::Waiting, Action::Sleep { ms: CYCLE_PERIOD_MS })
                } else {
                    (Phase::RecoverChecking, Action::CheckLink)
                }
            },
            (Phase::RecoverChecking, Event::LinkStatus { connected }) => {
                if connected {
                    (Phase::Settling, Action::Sleep { ms: SETTLE_DELAY_MS })
                } else {
                    (Phase::RecoverConnecting, Action::Connect)
                }
            },
            (Phase::RecoverConnecting, Event::Connected { ok }) => {
                if ok {
                    (Phase::RecoverChecking, Action::CheckLink)
                } else {
                    (Phase::RecoverBackoff, Action::Sleep { ms: RECONNECT_DELAY_MS })
                }
            },
            (Phase::RecoverBackoff, Event::Slept) => (Phase::RecoverChecking, Action::CheckLink),
            (Phase::Settling, Event::Slept) => (Phase::Resubscribing, Action::Subscribe),
            (Phase::Resubscribing, Event::Subscribed { ok }) => {
                self.subscribed = ok;
                if ok {
                    (Phase::Waiting, Action::Sleep { ms: CYCLE_PERIOD_MS })
                } else {
                    (Phase::Halted, Action::Abort { fault: Fault::ResubscribeFailed })
                }
            },
            (p, _) => (p, Action::Nothing),
        };
        self.phase = p;
        a
    }

    /// The current phase.
    pub fn phase(&self) -> (p: Phase)
        ensures
            p == self.phase,
    {
        self.phase
    }
}

} // verus!
