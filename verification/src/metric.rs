//! The readings a sensor reports and the events that carry them.

use crate::text::same_text;
use vstd::prelude::*;

verus! {

/// What a reading measures. The unit follows from the kind.
#[derive(Clone, Copy, Debug, PartialEq, Eq, Hash, Structural)]
pub enum MetricKind {
    Pm1,
    Pm25,
    Pm10,
    Tvoc,
    Co2,
    Temperature,
    Humidity,
}

impl MetricKind {
    /// The short name of a kind.
    pub open spec fn name_text(self) -> Seq<char> {
        match self {
            MetricKind::Pm1 => "pm1"@,
            MetricKind::Pm25 => "pm25"@,
            MetricKind::Pm10 => "pm10"@,
            MetricKind::Tvoc => "tvoc"@,
            MetricKind::Co2 => "co2"@,
            MetricKind::Temperature => "temp"@,
            MetricKind::Humidity => "humidity"@,
        }
    }

    /// The kind that a short name stands for. Besides the names of
    /// [`MetricKind::name_text`], `pm2_5` and `temperature` are understood.
    pub open spec fn named(name: Seq<char>) -> Option<MetricKind> {
        if name == "pm1"@ {
            Some(MetricKind::Pm1)
        } else if name == "pm25"@ || name == "pm2_5"@ {
            Some(MetricKind::Pm25)
        } else if name == "pm10"@ {
            Some(MetricKind::Pm10)
        } else if name == "tvoc"@ {
            Some(MetricKind::Tvoc)
        } else if name == "co2"@ {
            Some(MetricKind::Co2)
        } else if name == "temp"@ || name == "temperature"@ {
            Some(MetricKind::Temperature)
        } else if name == "humidity"@ {
            Some(MetricKind::Humidity)
        } else {
            None
        }
    }

    /// The short name of a kind.
    pub fn name(self) -> (name: &'static str)
        ensures
            name@ == self.name_text(),
    {
        match self {
            MetricKind::Pm1 => "pm1",
            MetricKind::Pm25 => "pm25",
            MetricKind::Pm10 => "pm10",
            MetricKind::Tvoc => "tvoc",
            MetricKind::Co2 => "co2",
            MetricKind::Temperature => "temp",
            MetricKind::Humidity => "humidity",
        }
    }

    /// The kind that a short name stands for, if any.
    pub fn from_name(name: &str) -> (kind: Option<MetricKind>)
        ensures
            kind == Self::named(name@),
    {
        if same_text(name, "pm1") {
            Some(MetricKind::Pm1)
        } else if same_text(name, "pm25") || same_text(name, "pm2_5") {
            Some(MetricKind::Pm25)
        } else if same_text(name, "pm10") {
            Some(MetricKind::Pm10)
        } else if same_text(name, "tvoc") {
            Some(MetricKind::Tvoc)
        } else if same_text(name, "co2") {
            Some(MetricKind::Co2)
        } else if same_text(name, "temp") || same_text(name, "temperature") {
            Some(MetricKind::Temperature)
        } else if same_text(name, "humidity") {
            Some(MetricKind::Humidity)
        } else {
            None
        }
    }
}

/// Every kind is found again by its short name.
pub proof fn lemma_name_round_trip(kind: MetricKind)
    ensures
        MetricKind::named(kind.name_text()) == Some(kind),
{
    reveal_strlit("pm1");
    reveal_strlit("pm25");
    reveal_strlit("pm2_5");
    reveal_strlit("pm10");
    reveal_strlit("tvoc");
    reveal_strlit("co2");
    reveal_strlit("temp");
    reveal_strlit("temperature");
    reveal_strlit("humidity");
    assert("pm1"@.len() == 3 && "pm25"@.len() == 4 && "pm2_5"@.len() == 5 && "pm10"@.len() == 4);
    assert("temperature"@.len() == 11 && "humidity"@.len() == 8);
    assert("pm1"@[0] != "co2"@[0]);
    assert("pm25"@[2] != "pm10"@[2]);
    assert("pm25"@[1] != "temp"@[1] && "pm10"@[1] != "temp"@[1] && "tvoc"@[1] != "temp"@[1]);
}

/// One message from the connection supervisor to the consumer.
///
/// `V` is the type of a reading's value; the library stores and forwards
/// values and never looks inside one.
#[derive(Debug, Clone, PartialEq)]
pub enum MqttEvent<V> {
    Connected,
    Disconnected(String),
    Metric { topic: String, value: V, kind: MetricKind },
    Status(String),
}

/// An event with its texts as character sequences.
pub enum EventView<V> {
    Connected,
    Disconnected(Seq<char>),
    Metric { topic: Seq<char>, value: V, kind: MetricKind },
    Status(Seq<char>),
}

impl<V> View for MqttEvent<V> {
    type V = EventView<V>;

    open spec fn view(&self) -> EventView<V> {
        match *self {
            MqttEvent::Connected => EventView::Connected,
            MqttEvent::Disconnected(reason) => EventView::Disconnected(reason@),
            MqttEvent::Metric { topic, value, kind } => EventView::Metric { topic: topic@, value, kind },
            MqttEvent::Status(message) => EventView::Status(message@),
        }
    }
}

} // verus!
