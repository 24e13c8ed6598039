//! The consumer's side: the current state that the stream of events adds up to.

use crate::channel::EventChannel;
use crate::metric::{EventView, MetricKind, MqttEvent};
use vstd::prelude::*;
use vstd::string::StringExecFns;

verus! {

/// A reading no older than this many seconds is fresh.
pub const FRESH_SECS: u64 = 15;

/// A reading no older than this many seconds, and not fresh, is stale.
pub const STALE_SECS: u64 = 60;

/// The last value seen of each metric, and where and when the last one came.
#[derive(Debug, Clone)]
pub struct Metrics<V> {
    pub pm1: Option<V>,
    pub pm25: Option<V>,
    pub pm10: Option<V>,
    pub tvoc: Option<V>,
    pub co2: Option<V>,
    pub temp: Option<V>,
    pub humidity: Option<V>,
    pub last_topic: Option<String>,
    /// The consumer's clock, in seconds, at the last metric event.
    pub last_update: Option<u64>,
}

/// What the consumer knows: the metrics, whether the session is up, and the
/// text to show as status.
#[derive(Debug)]
pub struct MetricsStore<V> {
    pub metrics: Metrics<V>,
    pub connected: bool,
    pub status: String,
}

/// The state of a store as the contracts see it.
#[verifier::ext_equal]
pub struct Snapshot<V> {
    /// The last value of each metric seen so far.
    pub values: Map<MetricKind, V>,
    pub last_topic: Option<Seq<char>>,
    pub last_update: Option<u64>,
    pub connected: bool,
    pub status: Seq<char>,
}

/// How current the data is.
#[derive(Clone, Copy, Debug, PartialEq, Eq, Structural)]
pub enum Availability {
    Offline,
    Fresh,
    Stale,
    Stalled,
    NoData,
}

/// The status text after a `Connected`.
pub open spec fn connected_text() -> Seq<char> {
    "MQTT connected"@
}

/// The status text after a `Disconnected` with this reason.
pub open spec fn disconnected_text(reason: Seq<char>) -> Seq<char> {
    "MQTT disconnected: "@ + reason
}

/// The state after one event, seen at time `now`.
pub open spec fn applied<V>(s: Snapshot<V>, event: EventView<V>, now: u64) -> Snapshot<V> {
    match event {
        EventView::Connected => Snapshot { connected: true, status: connected_text(), ..s },
        EventView::Disconnected(reason) => Snapshot {
            connected: false,
            status: disconnected_text(reason),
            ..s
        },
        EventView::Status(message) => Snapshot { status: message, ..s },
        EventView::Metric { topic, value, kind } => Snapshot {
            values: s.values.insert(kind, value),
            last_topic: Some(topic),
            last_update: Some(now),
            ..s
        },
    }
}

/// The state after a sequence of events, in order, all seen at time `now`.
pub open spec fn applied_all<V>(s: Snapshot<V>, events: Seq<EventView<V>>, now: u64) -> Snapshot<V>
    decreases events.len(),
{
    if events.len() == 0 {
        s
    } else {
        applied_all(applied(s, events[0], now), events.drop_first(), now)
    }
}

/// How many seconds lie between an update and `now`; none where the clock
/// reads less than at the update.
pub open spec fn age_secs(last_update: u64, now: u64) -> u64 {
    if now >= last_update {
        (now - last_update) as u64
    } else {
        0
    }
}

/// How current the data is at time `now`.
pub open spec fn availability_at(connected: bool, last_update: Option<u64>, now: u64)
    -> Availability {
    if !connected {
        Availability::Offline
    } else {
        match last_update {
            None => Availability::NoData,
            Some(at) => if age_secs(at, now) <= FRESH_SECS {
                Availability::Fresh
            } else if age_secs(at, now) <= STALE_SECS {
                Availability::Stale
            } else {
                Availability::Stalled
            },
        }
    }
}

/// Whether a sequence of events ends with the session up: the last
/// `Connected` or `Disconnected` decides, and `connected` where there is none.
pub open spec fn connected_after<V>(events: Seq<EventView<V>>, connected: bool) -> bool
    decreases events.len(),
{
    if events.len() == 0 {
        connected
    } else {
        match events.last() {
            EventView::Connected => true,
            EventView::Disconnected(_) => false,
            _ => connected_after(events.drop_last(), connected),
        }
    }
}

/// Taking a sequence of events in is taking in all but the last, then the last.
pub proof fn lemma_applied_all_last<V>(s: Snapshot<V>, events: Seq<EventView<V>>, now: u64)
    requires
        events.len() > 0,
    ensures
        applied_all(s, events, now) == applied(
            applied_all(s, events.drop_last(), now),
            events.last(),
            now,
        ),
    decreases events.len(),
{
    if events.len() == 1 {
        assert(events.drop_first() =~= events.drop_last());
    } else {
        let rest = events.drop_first();
        lemma_applied_all_last(applied(s, events[0], now), rest, now);
        assert(rest.drop_last() =~= events.drop_last().drop_first());
        assert(rest.last() == events.last());
    }
}

/// The store says that the session is up exactly where the last lifecycle
/// event was a `Connected`; metric and status events do not change that.
pub proof fn lemma_connected_follows_lifecycle<V>(
    s: Snapshot<V>,
    events: Seq<EventView<V>>,
    now: u64,
)
    ensures
        applied_all(s, events, now).connected == connected_after(events, s.connected),
    decreases events.len(),
{
    if events.len() > 0 {
        lemma_applied_all_last(s, events, now);
        lemma_connected_follows_lifecycle(s, events.drop_last(), now);
    }
}

/// The last metric event of each kind decides the value of that kind: after
/// a sequence of events that ends in a metric event, the store holds its
/// value, its topic and the time.
pub proof fn lemma_last_metric_wins<V>(s: Snapshot<V>, events: Seq<EventView<V>>, now: u64)
    requires
        events.len() > 0,
        events.last() is Metric,
    ensures
        applied_all(s, events, now).values[events.last()->kind] == events.last()->value,
        applied_all(s, events, now).values.contains_key(events.last()->kind),
        applied_all(s, events, now).last_topic == Some(events.last()->topic),
        applied_all(s, events, now).last_update == Some(now),
        applied_all(s, events, now).connected == applied_all(
            s,
            events.drop_last(),
            now,
        ).connected,
{
    lemma_applied_all_last(s, events, now);
}

impl Availability {
    /// The word shown for this state.
    pub open spec fn label_text(self) -> Seq<char> {
        match self {
            Availability::Offline => "offline"@,
            Availability::Fresh => "fresh"@,
            Availability::Stale => "stale"@,
            Availability::Stalled => "stalled"@,
            Availability::NoData => "no data"@,
        }
    }

    /// The word shown for this state.
    pub fn label(self) -> (text: &'static str)
        ensures
            text@ == self.label_text(),
    {
        match self {
            Availability::Offline => "offline",
            Availability::Fresh => "fresh",
            Availability::Stale => "stale",
            Availability::Stalled => "stalled",
            Availability::NoData => "no data",
        }
    }
}

/// Classifies how current the data is: offline without a session; without
/// any update, no data; else by the age of the last update.
pub fn availability(connected: bool, last_update: Option<u64>, now: u64) -> (a: Availability)
    ensures
        a == availability_at(connected, last_update, now),
{
    if !connected {
        return Availability::Offline;
    }
    match last_update {
        None => Availability::NoData,
        Some(at) => {
            let age: u64 = if now >= at {
                now - at
            } else {
                0
            };
            if age <= FRESH_SECS {
                Availability::Fresh
            } else if age <= STALE_SECS {
                Availability::Stale
            } else {
                Availability::Stalled
            }
        },
    }
}

impl<V> Metrics<V> {
    /// The field that holds the last value of `kind`.
    pub open spec fn slot(&self, kind: MetricKind) -> Option<V> {
        match kind {
            MetricKind::Pm1 => self.pm1,
            MetricKind::Pm25 => self.pm25,
            MetricKind::Pm10 => self.pm10,
            MetricKind::Tvoc => self.tvoc,
            MetricKind::Co2 => self.co2,
            MetricKind::Temperature => self.temp,
            MetricKind::Humidity => self.humidity,
        }
    }

    /// The last value of each metric seen so far.
    pub open spec fn values(&self) -> Map<MetricKind, V> {
        Map::new(|kind: MetricKind| self.slot(kind) is Some, |kind: MetricKind| self.slot(kind)->0)
    }

    /// Metrics of which nothing was seen yet.
    pub fn new() -> (m: Self)
        ensures
            m.values() == Map::<MetricKind, V>::empty(),
            m.last_topic is None,
            m.last_update is None,
    {
        let m = Metrics {
            pm1: None,
            pm25: None,
            pm10: None,
            tvoc: None,
            co2: None,
            temp: None,
            humidity: None,
            last_topic: None,
            last_update: None,
        };
        m
    }

    /// Records a value as the last one of its kind.
    pub fn set(&mut self, kind: MetricKind, value: V)
        ensures
            final(self).values() == old(self).values().insert(kind, value),
            final(self).last_topic == old(self).last_topic,
            final(self).last_update == old(self).last_update,
    {
        match kind {
            MetricKind::Pm1 => {
                self.pm1 = Some(value);
            },
            MetricKind::Pm25 => {
                self.pm25 = Some(value);
            },
            MetricKind::Pm10 => {
                self.pm10 = Some(value);
            },
            MetricKind::Tvoc => {
                self.tvoc = Some(value);
            },
            MetricKind::Co2 => {
                self.co2 = Some(value);
            },
            MetricKind::Temperature => {
                self.temp = Some(value);
            },
            MetricKind::Humidity => {
                self.humidity = Some(value);
            },
        }
    }
}

impl<V: Copy> Metrics<V> {
    /// The last value seen of `kind`, if any.
    pub fn get(&self, kind: MetricKind) -> (value: Option<V>)
        ensures
            value == self.slot(kind),
            value is Some <==> self.values().contains_key(kind),
            value is Some ==> value->0 == self.values()[kind],
    {
        match kind {
            MetricKind::Pm1 => self.pm1,
            MetricKind::Pm25 => self.pm25,
            MetricKind::Pm10 => self.pm10,
            MetricKind::Tvoc => self.tvoc,
            MetricKind::Co2 => self.co2,
            MetricKind::Temperature => self.temp,
            MetricKind::Humidity => self.humidity,
        }
    }
}

impl<V> View for MetricsStore<V> {
    type V = Snapshot<V>;

    open spec fn view(&self) -> Snapshot<V> {
        Snapshot {
            values: self.metrics.values(),
            last_topic: match self.metrics.last_topic {
                Some(t) => Some(t@),
                None => None,
            },
            last_update: self.metrics.last_update,
            connected: self.connected,
            status: self.status@,
        }
    }
}

impl<V> MetricsStore<V> {
    /// The state of a store that has seen no event: no values, no session,
    /// an empty status.
    pub open spec fn fresh() -> Snapshot<V> {
        Snapshot {
            values: Map::<MetricKind, V>::empty(),
            last_topic: None,
            last_update: None,
            connected: false,
            status: Seq::<char>::empty(),
        }
    }

    /// A store that has seen no event.
    pub fn new() -> (store: Self)
        ensures
            store@ == Self::fresh(),
    {
        MetricsStore { metrics: Metrics::new(), connected: false, status: String::new() }
    }

    /// Takes one event, seen at time `now`, into the state.
    pub fn apply(&mut self, event: MqttEvent<V>, now: u64)
        ensures
            final(self)@ == applied(old(self)@, event@, now),
    {
        match event {
            MqttEvent::Connected => {
                self.status = String::from_str("MQTT connected");
                self.connected = true;
            },
            MqttEvent::Disconnected(reason) => {
                self.status = String::from_str("MQTT disconnected: ").concat(reason.as_str());
                self.connected = false;
            },
            MqttEvent::Status(message) => {
                self.status = message;
            },
            MqttEvent::Metric { topic, value, kind } => {
                self.metrics.last_topic = Some(topic);
                self.metrics.last_update = Some(now);
                self.metrics.set(kind, value);
            },
        }
    }

    /// Takes every event that waits in the channel into the state, in the
    /// order in which they were sent, and leaves the channel empty.
    pub fn poll(&mut self, channel: &mut EventChannel<V>, now: u64)
        ensures
            final(self)@ == applied_all(old(self)@, old(channel)@.queued, now),
            final(channel)@.queued == Seq::<EventView<V>>::empty(),
            final(channel)@.closed == old(channel)@.closed,
    {
        loop
            invariant
                applied_all(self@, channel@.queued, now) == applied_all(
                    old(self)@,
                    old(channel)@.queued,
                    now,
                ),
                channel@.closed == old(channel)@.closed,
            ensures
                self@ == applied_all(old(self)@, old(channel)@.queued, now),
                channel@.queued == Seq::<EventView<V>>::empty(),
                channel@.closed == old(channel)@.closed,
            decreases channel@.queued.len(),
        {
            match channel.try_receive() {
                Some(event) => {
                    self.apply(event, now);
                },
                None => {
                    break;
                },
            }
        }
    }

    /// How current the data is at time `now`.
    pub fn availability(&self, now: u64) -> (a: Availability)
        ensures
            a == availability_at(self@.connected, self@.last_update, now),
    {
        availability(self.connected, self.metrics.last_update, now)
    }
}

} // verus!
