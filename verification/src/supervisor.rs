//! The connection supervisor's decisions.
//!
//! The supervisor keeps one session with the broker alive: it connects,
//! subscribes, receives, and after a failure waits and connects again, until
//! it is told to stop. Opening sockets, receiving and sleeping are the
//! caller's work. What to do next, and which events the consumer gets to
//! see, is decided here: [`Supervisor::step`] takes what happened and returns
//! the events to emit and the next thing to do.

use crate::config::{text_of, MqttConfig};
use crate::metric::{EventView, MqttEvent};
use crate::mqtt::{map_publish, publish_event, subscriptions, topic_filter};
use crate::text::{decimal_string, decimal_text};
use vstd::arithmetic::power2::{lemma2_to64, lemma_pow2_unfold, pow2};
use vstd::prelude::*;
use vstd::string::StringExecFns;

verus! {

/// The first pause after a failure, in seconds.
pub const INITIAL_BACKOFF_SECS: u64 = 1;

/// The longest pause between two attempts, in seconds.
pub const MAX_BACKOFF_SECS: u64 = 30;

/// A session that lasted this many seconds counts as healthy: after it the
/// pause starts over.
pub const HEALTHY_SESSION_SECS: u64 = 60;

/// Where the supervisor stands.
#[derive(Clone, Copy, Debug, PartialEq, Eq, Structural)]
pub enum Phase {
    /// Not started yet.
    Idle,
    /// An attempt begins: the connection is being opened.
    Connecting,
    /// The subscription is requested and not acknowledged yet.
    Subscribed,
    /// The session is acknowledged; publishes are received.
    Receiving,
    /// The last attempt failed; the pause before the next one runs.
    ReconnectWait,
    /// Stopped for good.
    Stopped,
}

/// What the caller does next.
#[derive(Clone, Copy, Debug, PartialEq, Eq, Structural)]
pub enum Action {
    /// Nothing until the supervisor is started.
    AwaitStart,
    /// Open a connection and request the subscription.
    Connect,
    /// Receive the next notification of the session.
    Receive,
    /// Wait this many seconds, or until a stop is requested.
    Wait(u64),
    /// Leave the loop; close the session first where `disconnect` is set.
    Finish { disconnect: bool },
}

/// What happened since the last step.
#[derive(Debug)]
pub enum Signal<V> {
    /// The caller starts the supervisor.
    Start,
    /// The caller asked the supervisor to stop.
    Stop,
    /// The connection is open and the subscription is requested.
    Opened,
    /// The broker acknowledged the session.
    Acknowledged,
    /// A publish arrived; `reading` is the payload's value where it held a number.
    Publish { topic: String, reading: Option<V> },
    /// Any other notification of the session.
    Other,
    /// The attempt or the session failed after `uptime_secs` seconds.
    Failed { reason: String, uptime_secs: u64 },
    /// The peer closed the session after `uptime_secs` seconds.
    Closed { uptime_secs: u64 },
    /// The pause is over.
    WaitElapsed,
}

/// A signal with its texts as character sequences.
pub enum SignalView<V> {
    Start,
    Stop,
    Opened,
    Acknowledged,
    Publish { topic: Seq<char>, reading: Option<V> },
    Other,
    Failed { reason: Seq<char>, uptime_secs: u64 },
    Closed { uptime_secs: u64 },
    WaitElapsed,
}

impl<V> View for Signal<V> {
    type V = SignalView<V>;

    open spec fn view(&self) -> SignalView<V> {
        match *self {
            Signal::Start => SignalView::Start,
            Signal::Stop => SignalView::Stop,
            Signal::Opened => SignalView::Opened,
            Signal::Acknowledged => SignalView::Acknowledged,
            Signal::Publish { topic, reading } => SignalView::Publish { topic: topic@, reading },
            Signal::Other => SignalView::Other,
            Signal::Failed { reason, uptime_secs } => SignalView::Failed {
                reason: reason@,
                uptime_secs,
            },
            Signal::Closed { uptime_secs } => SignalView::Closed { uptime_secs },
            Signal::WaitElapsed => SignalView::WaitElapsed,
        }
    }
}

/// The supervisor's state as the contracts see it.
pub struct SupervisorView {
    pub phase: Phase,
    /// The pause that the next failure of a short session is followed by.
    pub backoff_secs: u64,
    /// The pause that the last failure was followed by.
    pub wait_secs: u64,
    /// The topic filter of the subscription.
    pub filter: Seq<char>,
}

/// What one step yields: the events for the consumer, in order, and the next
/// thing to do.
#[derive(Debug)]
pub struct Step<V> {
    pub events: Vec<MqttEvent<V>>,
    pub action: Action,
}

/// The events of a vector, each by its view.
pub open spec fn event_views<V>(events: Seq<MqttEvent<V>>) -> Seq<EventView<V>> {
    Seq::new(events.len(), |i: int| events[i]@)
}

/// The pause after a failure: the current backoff, or the initial one where
/// the session was healthy.
pub open spec fn wait_after(backoff_secs: u64, uptime_secs: u64) -> u64 {
    if uptime_secs >= HEALTHY_SESSION_SECS {
        INITIAL_BACKOFF_SECS
    } else {
        backoff_secs
    }
}

/// Twice the pause, and at most the longest.
pub open spec fn doubled(wait_secs: u64) -> u64 {
    if 2 * wait_secs >= MAX_BACKOFF_SECS {
        MAX_BACKOFF_SECS
    } else {
        (2 * wait_secs) as u64
    }
}

/// The reason reported where the peer closed the session.
pub open spec fn closed_reason() -> Seq<char> {
    "connection closed"@
}

/// The reason reported where the caller stopped the supervisor.
pub open spec fn stopped_reason() -> Seq<char> {
    "stopped"@
}

/// The status text that announces the subscription.
pub open spec fn connected_status(filter: Seq<char>) -> Seq<char> {
    "MQTT connected; subs: "@ + filter
}

/// The status text that announces a pause.
pub open spec fn reconnect_status(wait_secs: u64) -> Seq<char> {
    "Reconnecting in "@ + decimal_text(wait_secs as nat) + "s"@
}

/// Whether a session is open in this phase.
pub open spec fn session_open(phase: Phase) -> bool {
    phase == Phase::Subscribed || phase == Phase::Receiving
}

/// What a failure or a close is: its reason and how long the session lasted.
pub open spec fn failure_of<V>(signal: SignalView<V>) -> Option<(Seq<char>, u64)> {
    match signal {
        SignalView::Failed { reason, uptime_secs } => Some((reason, uptime_secs)),
        SignalView::Closed { uptime_secs } => Some((closed_reason(), uptime_secs)),
        _ => None,
    }
}

/// How long the session lasted that a failure or a close ended.
pub open spec fn uptime_of<V>(signal: SignalView<V>) -> u64 {
    match failure_of(signal) {
        Some((_, uptime_secs)) => uptime_secs,
        None => 0,
    }
}

/// Whether an attempt is under way in this phase.
pub open spec fn attempt_running(phase: Phase) -> bool {
    phase == Phase::Connecting || session_open(phase)
}

/// The state after a step.
pub open spec fn next_state<V>(s: SupervisorView, signal: SignalView<V>) -> SupervisorView {
    if s.phase == Phase::Stopped {
        s
    } else if signal is Stop {
        SupervisorView { phase: Phase::Stopped, ..s }
    } else if attempt_running(s.phase) && failure_of(signal) is Some {
        let wait = wait_after(s.backoff_secs, uptime_of(signal));
        SupervisorView {
            phase: Phase::ReconnectWait,
            backoff_secs: doubled(wait),
            wait_secs: wait,
            ..s
        }
    } else if s.phase == Phase::Idle && signal is Start {
        SupervisorView { phase: Phase::Connecting, ..s }
    } else if s.phase == Phase::Connecting && signal is Opened {
        SupervisorView { phase: Phase::Subscribed, ..s }
    } else if s.phase == Phase::Subscribed && signal is Acknowledged {
        SupervisorView { phase: Phase::Receiving, ..s }
    } else if s.phase == Phase::ReconnectWait && signal is WaitElapsed {
        SupervisorView { phase: Phase::Connecting, ..s }
    } else {
        s
    }
}

/// The events that a step emits, in order.
pub open spec fn emitted<V>(s: SupervisorView, signal: SignalView<V>) -> Seq<EventView<V>> {
    if s.phase == Phase::Stopped {
        seq![]
    } else if signal is Stop {
        seq![EventView::Disconnected(stopped_reason())]
    } else if attempt_running(s.phase) && failure_of(signal) is Some {
        let (reason, _) = failure_of(signal)->0;
        seq![
            EventView::Disconnected(reason),
            EventView::Status(reconnect_status(wait_after(s.backoff_secs, uptime_of(signal)))),
        ]
    } else if s.phase == Phase::Subscribed && signal is Acknowledged {
        seq![EventView::Status(connected_status(s.filter)), EventView::Connected]
    } else if s.phase == Phase::Receiving && signal is Publish {
        match publish_event(signal->topic, signal->reading) {
            Some(event) => seq![event],
            None => seq![],
        }
    } else {
        seq![]
    }
}

/// What is to be done in a state.
pub open spec fn pending_action(s: SupervisorView) -> Action {
    match s.phase {
        Phase::Idle => Action::AwaitStart,
        Phase::Connecting => Action::Connect,
        Phase::Subscribed | Phase::Receiving => Action::Receive,
        Phase::ReconnectWait => Action::Wait(s.wait_secs),
        Phase::Stopped => Action::Finish { disconnect: false },
    }
}

/// What the caller does after a step.
pub open spec fn next_action<V>(s: SupervisorView, signal: SignalView<V>) -> Action {
    if s.phase != Phase::Stopped && signal is Stop {
        Action::Finish { disconnect: session_open(s.phase) }
    } else {
        pending_action(next_state(s, signal))
    }
}

/// The pauses stay within their bounds.
pub open spec fn well_formed(s: SupervisorView) -> bool {
    &&& INITIAL_BACKOFF_SECS <= s.backoff_secs <= MAX_BACKOFF_SECS
    &&& INITIAL_BACKOFF_SECS <= s.wait_secs <= MAX_BACKOFF_SECS
}

/// The pause that follows a failure which `failures` failures of short
/// sessions went before: the initial pause doubled that often, and at most
/// the longest pause.
pub open spec fn backoff_after(failures: nat) -> u64 {
    if pow2(failures) >= MAX_BACKOFF_SECS {
        MAX_BACKOFF_SECS
    } else {
        pow2(failures) as u64
    }
}

/// The state after a run of steps.
pub open spec fn run_state<V>(s: SupervisorView, signals: Seq<SignalView<V>>) -> SupervisorView
    decreases signals.len(),
{
    if signals.len() == 0 {
        s
    } else {
        next_state(run_state(s, signals.drop_last()), signals.last())
    }
}

/// The events that a run of steps emits, in order.
pub open spec fn run_events<V>(s: SupervisorView, signals: Seq<SignalView<V>>) -> Seq<
    EventView<V>,
>
    decreases signals.len(),
{
    if signals.len() == 0 {
        seq![]
    } else {
        run_events(s, signals.drop_last()) + emitted(
            run_state(s, signals.drop_last()),
            signals.last(),
        )
    }
}

/// Whether a step ends an attempt in a failure.
pub open spec fn is_failure_step<V>(s: SupervisorView, signal: SignalView<V>) -> bool {
    attempt_running(s.phase) && failure_of(signal) is Some
}

/// How many attempts fail in a run of steps.
pub open spec fn failures_in<V>(s: SupervisorView, signals: Seq<SignalView<V>>) -> nat
    decreases signals.len(),
{
    if signals.len() == 0 {
        0
    } else {
        let before = failures_in(s, signals.drop_last());
        if is_failure_step(run_state(s, signals.drop_last()), signals.last()) {
            before + 1
        } else {
            before
        }
    }
}

/// No signal of the run reports a session that lasted long enough to count as healthy.
pub open spec fn all_short<V>(signals: Seq<SignalView<V>>) -> bool {
    forall|i: int|
        0 <= i < signals.len() ==> uptime_of(#[trigger] signals[i]) < HEALTHY_SESSION_SECS
}

/// Metric events stand only between a `Connected` and the next
/// `Disconnected`, and no `Connected` follows another without a
/// `Disconnected` between them. `inside` says whether the sequence begins
/// after a `Connected`.
pub open spec fn bracketed<V>(events: Seq<EventView<V>>, inside: bool) -> bool
    decreases events.len(),
{
    if events.len() == 0 {
        true
    } else {
        match events[0] {
            EventView::Connected => !inside && bracketed(events.drop_first(), true),
            EventView::Disconnected(_) => bracketed(events.drop_first(), false),
            EventView::Metric { .. } => inside && bracketed(events.drop_first(), inside),
            EventView::Status(_) => bracketed(events.drop_first(), inside),
        }
    }
}

/// Whether a sequence of events ends after a `Connected` that no
/// `Disconnected` followed.
pub open spec fn inside_after<V>(events: Seq<EventView<V>>, inside: bool) -> bool
    decreases events.len(),
{
    if events.len() == 0 {
        inside
    } else {
        match events[0] {
            EventView::Connected => inside_after(events.drop_first(), true),
            EventView::Disconnected(_) => inside_after(events.drop_first(), false),
            _ => inside_after(events.drop_first(), inside),
        }
    }
}

/// A step keeps the pauses within their bounds, and the pause it asks for
/// lies within them.
pub proof fn lemma_step_keeps_well_formed<V>(s: SupervisorView, signal: SignalView<V>)
    requires
        well_formed(s),
    ensures
        well_formed(next_state(s, signal)),
        next_action(s, signal) matches Action::Wait(secs) ==> INITIAL_BACKOFF_SECS <= secs
            <= MAX_BACKOFF_SECS,
{
}

/// Whatever happens, the pauses stay within their bounds: every pause of
/// a supervisor that started within them lasts at least the initial pause
/// and at most the longest.
pub proof fn lemma_run_keeps_well_formed<V>(s: SupervisorView, signals: Seq<SignalView<V>>)
    requires
        well_formed(s),
    ensures
        well_formed(run_state(s, signals)),
        forall|i: int|
            0 <= i < signals.len() ==> (#[trigger] next_action(
                run_state(s, signals.take(i)),
                signals[i],
            ) matches Action::Wait(secs) ==> INITIAL_BACKOFF_SECS <= secs <= MAX_BACKOFF_SECS),
    decreases signals.len(),
{
    if signals.len() > 0 {
        let before = signals.drop_last();
        lemma_run_keeps_well_formed(s, before);
        lemma_step_keeps_well_formed(run_state(s, before), signals.last());
        assert forall|i: int| 0 <= i < signals.len() implies (#[trigger] next_action(
            run_state(s, signals.take(i)),
            signals[i],
        ) matches Action::Wait(secs) ==> INITIAL_BACKOFF_SECS <= secs <= MAX_BACKOFF_SECS) by {
            if i < before.len() {
                assert(signals.take(i) =~= before.take(i));
                assert(signals[i] == before[i]);
            } else {
                assert(signals.take(i) =~= before);
            }
        }
    }
}

/// Doubling the pause after `n` failures gives the pause after `n + 1`.
pub proof fn lemma_backoff_doubles(n: nat)
    ensures
        doubled(backoff_after(n)) == backoff_after(n + 1),
        INITIAL_BACKOFF_SECS <= backoff_after(n) <= MAX_BACKOFF_SECS,
{
    lemma_pow2_unfold(n + 1);
    vstd::arithmetic::power2::lemma_pow2_pos(n);
}

/// The first pauses are 1, 2, 4, 8 and 16 seconds; from the sixth on a pause
/// lasts 30 seconds.
pub proof fn lemma_backoff_values(n: nat)
    ensures
        backoff_after(0) == 1,
        backoff_after(1) == 2,
        backoff_after(2) == 4,
        backoff_after(3) == 8,
        backoff_after(4) == 16,
        n >= 5 ==> backoff_after(n) == 30,
{
    lemma2_to64();
    if n > 5 {
        vstd::arithmetic::power2::lemma_pow2_strictly_increases(5, n);
    }
}

/// A failure of a short session is followed by the current backoff, which
/// then doubles; a failure of a healthy session is followed by the initial
/// pause.
pub proof fn lemma_failure_pause<V>(s: SupervisorView, signal: SignalView<V>, n: nat)
    requires
        is_failure_step(s, signal),
        s.backoff_secs == backoff_after(n),
    ensures
        uptime_of(signal) < HEALTHY_SESSION_SECS ==> {
            &&& next_action(s, signal) == Action::Wait(backoff_after(n))
            &&& next_state(s, signal).backoff_secs == backoff_after(n + 1)
        },
        uptime_of(signal) >= HEALTHY_SESSION_SECS ==> {
            &&& next_action(s, signal) == Action::Wait(INITIAL_BACKOFF_SECS)
            &&& next_state(s, signal).backoff_secs == backoff_after(1)
        },
{
    lemma_backoff_doubles(n);
    lemma_backoff_doubles(0);
    lemma_backoff_values(0);
}

/// In a run without healthy sessions the backoff counts the failures: after
/// `k` failed attempts it is the initial pause doubled `k` times, capped, and
/// where the run ends in a failure the pause in force is the initial pause
/// doubled `k - 1` times, capped.
pub proof fn lemma_backoff_schedule<V>(s: SupervisorView, signals: Seq<SignalView<V>>, n: nat)
    requires
        s.backoff_secs == backoff_after(n),
        all_short(signals),
    ensures
        run_state(s, signals).backoff_secs == backoff_after(n + failures_in(s, signals)),
        signals.len() > 0 && is_failure_step(run_state(s, signals.drop_last()), signals.last())
            ==> {
            &&& failures_in(s, signals) >= 1
            &&& run_state(s, signals).wait_secs == backoff_after(
                (n + failures_in(s, signals) - 1) as nat,
            )
            &&& run_state(s, signals).phase == Phase::ReconnectWait
        },
    decreases signals.len(),
{
    if signals.len() > 0 {
        let before = signals.drop_last();
        assert forall|i: int| 0 <= i < before.len() implies uptime_of(#[trigger] before[i])
            < HEALTHY_SESSION_SECS by {
            assert(before[i] == signals[i]);
        }
        lemma_backoff_schedule(s, before, n);
        let mid = run_state(s, before);
        let k = n + failures_in(s, before);
        if is_failure_step(mid, signals.last()) {
            lemma_failure_pause(mid, signals.last(), k);
        }
    }
}

/// Once stopped, the supervisor stays stopped and emits nothing, whatever
/// it is told.
pub proof fn lemma_stopped_is_silent<V>(s: SupervisorView, signals: Seq<SignalView<V>>)
    requires
        s.phase == Phase::Stopped,
    ensures
        run_state(s, signals) == s,
        run_events(s, signals) == Seq::<EventView<V>>::empty(),
    decreases signals.len(),
{
    if signals.len() > 0 {
        lemma_stopped_is_silent(s, signals.drop_last());
    }
}

/// A stop request ends a running supervisor at once: it emits the one event
/// that reports the stop, and the caller leaves the loop, closing the
/// session where one is open.
pub proof fn lemma_stop_is_immediate<V>(s: SupervisorView)
    requires
        s.phase != Phase::Stopped,
    ensures
        next_state(s, SignalView::<V>::Stop).phase == Phase::Stopped,
        emitted(s, SignalView::<V>::Stop) == seq![
            EventView::<V>::Disconnected(stopped_reason()),
        ],
        next_action(s, SignalView::<V>::Stop) == (Action::Finish {
            disconnect: session_open(s.phase),
        }),
{
}

/// Bracketing reads a concatenation part by part.
pub proof fn lemma_bracketed_concat<V>(a: Seq<EventView<V>>, b: Seq<EventView<V>>, inside: bool)
    ensures
        bracketed(a + b, inside) == (bracketed(a, inside) && bracketed(b, inside_after(a, inside))),
        inside_after(a + b, inside) == inside_after(b, inside_after(a, inside)),
    decreases a.len(),
{
    if a.len() > 0 {
        assert((a + b).drop_first() =~= a.drop_first() + b);
        match a[0] {
            EventView::Connected => lemma_bracketed_concat(a.drop_first(), b, true),
            EventView::Disconnected(_) => lemma_bracketed_concat(a.drop_first(), b, false),
            _ => lemma_bracketed_concat(a.drop_first(), b, inside),
        }
    }
}

/// The events of one step are bracketed, and a `Connected` is open after
/// them exactly where the supervisor is receiving.
pub proof fn lemma_step_bracketed<V>(s: SupervisorView, signal: SignalView<V>)
    ensures
        bracketed(emitted(s, signal), s.phase == Phase::Receiving),
        inside_after(emitted(s, signal), s.phase == Phase::Receiving) == (next_state(
            s,
            signal,
        ).phase == Phase::Receiving),
{
    reveal_with_fuel(bracketed, 3);
    reveal_with_fuel(inside_after, 3);
}

/// Whatever happens, the events of a run are bracketed: every metric event
/// stands between a `Connected` and the `Disconnected` that ends the
/// session, and a `Disconnected` stands between any two `Connected`.
pub proof fn lemma_run_bracketed<V>(s: SupervisorView, signals: Seq<SignalView<V>>)
    ensures
        bracketed(run_events(s, signals), s.phase == Phase::Receiving),
        inside_after(run_events(s, signals), s.phase == Phase::Receiving) == (run_state(
            s,
            signals,
        ).phase == Phase::Receiving),
    decreases signals.len(),
{
    if signals.len() > 0 {
        let before = signals.drop_last();
        lemma_run_bracketed(s, before);
        lemma_step_bracketed(run_state(s, before), signals.last());
        lemma_bracketed_concat(
            run_events(s, before),
            emitted(run_state(s, before), signals.last()),
            s.phase == Phase::Receiving,
        );
    }
}

/// Decides, step by step, what the network loop does.
#[derive(Debug)]
pub struct Supervisor {
    phase: Phase,
    backoff_secs: u64,
    wait_secs: u64,
    filter: String,
}

impl View for Supervisor {
    type V = SupervisorView;

    closed spec fn view(&self) -> SupervisorView {
        SupervisorView {
            phase: self.phase,
            backoff_secs: self.backoff_secs,
            wait_secs: self.wait_secs,
            filter: self.filter@,
        }
    }
}

impl Supervisor {
    /// A supervisor that has not started, for the subscription that `cfg` asks for.
    pub fn new(cfg: &MqttConfig) -> (sup: Supervisor)
        ensures
            sup@ == (SupervisorView {
                phase: Phase::Idle,
                backoff_secs: INITIAL_BACKOFF_SECS,
                wait_secs: INITIAL_BACKOFF_SECS,
                filter: topic_filter(text_of(cfg.topic_prefix)),
            }),
            well_formed(sup@),
    {
        let mut subs = subscriptions(cfg);
        let filter = subs.remove(0);
        Supervisor {
            phase: Phase::Idle,
            backoff_secs: INITIAL_BACKOFF_SECS,
            wait_secs: INITIAL_BACKOFF_SECS,
            filter,
        }
    }

    /// Where the supervisor stands.
    pub fn phase(&self) -> (phase: Phase)
        ensures
            phase == self@.phase,
    {
        self.phase
    }

    /// The pause that follows the next failure of a short session.
    pub fn backoff_secs(&self) -> (secs: u64)
        ensures
            secs == self@.backoff_secs,
    {
        self.backoff_secs
    }

    /// The topic filter of the subscription.
    pub fn filter(&self) -> (filter: &str)
        ensures
            filter@ == self@.filter,
    {
        self.filter.as_str()
    }

    /// Takes what happened and says what follows: the events to hand to the
    /// consumer, in order, and the caller's next action.
    pub fn step<V>(&mut self, signal: Signal<V>) -> (step: Step<V>)
        ensures
            final(self)@ == next_state(old(self)@, signal@),
            event_views(step.events@) == emitted(old(self)@, signal@),
            step.events@.len() == emitted(old(self)@, signal@).len(),
            step.action == next_action(old(self)@, signal@),
            well_formed(old(self)@) ==> well_formed(final(self)@),
            well_formed(old(self)@) ==> (step.action matches Action::Wait(secs)
                ==> INITIAL_BACKOFF_SECS <= secs <= MAX_BACKOFF_SECS),
    {
        let mut events: Vec<MqttEvent<V>> = Vec::new();
        if self.phase == Phase::Stopped {
            return Step { events, action: Action::Finish { disconnect: false } };
        }
        let running = self.phase == Phase::Connecting || self.phase == Phase::Subscribed
            || self.phase == Phase::Receiving;
        match signal {
            Signal::Stop => {
                let disconnect = self.phase == Phase::Subscribed || self.phase == Phase::Receiving;
                self.phase = Phase::Stopped;
                events.push(MqttEvent::Disconnected(String::from_str("stopped")));
                return Step { events, action: Action::Finish { disconnect } };
            },
            Signal::Failed { reason, uptime_secs } => {
                if running {
                    let wait = self.fail(uptime_secs);
                    events.push(MqttEvent::Disconnected(reason));
                    events.push(MqttEvent::Status(reconnect_text(wait)));
                }
            },
            Signal::Closed { uptime_secs } => {
                if running {
                    let wait = self.fail(uptime_secs);
                    events.push(MqttEvent::Disconnected(String::from_str("connection closed")));
                    events.push(MqttEvent::Status(reconnect_text(wait)));
                }
            },
            Signal::Start => {
                if self.phase == Phase::Idle {
                    self.phase = Phase::Connecting;
                }
            },
            Signal::Opened => {
                if self.phase == Phase::Connecting {
                    self.phase = Phase::Subscribed;
                }
            },
            Signal::Acknowledged => {
                if self.phase == Phase::Subscribed {
                    self.phase = Phase::Receiving;
                    let status = String::from_str("MQTT connected; subs: ").concat(
                        self.filter.as_str(),
                    );
                    events.push(MqttEvent::Status(status));
                    events.push(MqttEvent::Connected);
                }
            },
            Signal::Publish { topic, reading } => {
                if self.phase == Phase::Receiving {
                    match map_publish(topic.as_str(), reading) {
                        Some(event) => {
                            events.push(event);
                        },
                        None => {},
                    }
                }
            },
            Signal::WaitElapsed => {
                if self.phase == Phase::ReconnectWait {
                    self.phase = Phase::Connecting;
                }
            },
            Signal::Other => {},
        }
        let action = match self.phase {
            Phase::Idle => Action::AwaitStart,
            Phase::Connecting => Action::Connect,
            Phase::Subscribed | Phase::Receiving => Action::Receive,
            Phase::ReconnectWait => Action::Wait(self.wait_secs),
            Phase::Stopped => Action::Finish { disconnect: false },
        };
        Step { events, action }
    }

    /// Enters the pause after a failure and returns its length.
    fn fail(&mut self, uptime_secs: u64) -> (wait: u64)
        ensures
            wait == wait_after(old(self)@.backoff_secs, uptime_secs),
            final(self)@ == (SupervisorView {
                phase: Phase::ReconnectWait,
                backoff_secs: doubled(wait),
                wait_secs: wait,
                ..old(self)@
            }),
    {
        let wait = if uptime_secs >= HEALTHY_SESSION_SECS {
            INITIAL_BACKOFF_SECS
        } else {
            self.backoff_secs
        };
        self.phase = Phase::ReconnectWait;
        self.wait_secs = wait;
        self.backoff_secs = if wait >= 15 {
            MAX_BACKOFF_SECS
        } else {
            2 * wait
        };
        wait
    }
}

/// The status text that announces a pause of `wait_secs` seconds.
fn reconnect_text(wait_secs: u64) -> (text: String)
    ensures
        text@ == reconnect_status(wait_secs),
{
    String::from_str("Reconnecting in ").concat(decimal_string(wait_secs).as_str()).concat("s")
}

} // verus!
