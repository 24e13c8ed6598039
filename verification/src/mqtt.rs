//! Topic rules: which metric a sensor name stands for, which event a publish
//! becomes, and which topic filter a configuration asks for.

use crate::config::MqttConfig;
use crate::metric::{EventView, MetricKind, MqttEvent};
use crate::text::{
    chars_of, contains, ends_with, has_infix, has_suffix, last_segment, last_segment_start,
    lower, skip_space_backward, skip_space_forward, to_lower, trim,
};
use vstd::prelude::*;
use vstd::string::{StrSliceExecFns, StringExecFns};

verus! {

/// The metric that a sensor name stands for, if any. The name is read in
/// lower case; the rules are tried in this order and the first that fits
/// decides.
pub open spec fn sensor_kind(name: Seq<char>) -> Option<MetricKind> {
    let n = lower(name);
    if ends_with(n, "pm_1mm_weight_concentration"@) {
        Some(MetricKind::Pm1)
    } else if ends_with(n, "pm_2_5mm_weight_concentration"@) {
        Some(MetricKind::Pm25)
    } else if ends_with(n, "pm_10mm_weight_concentration"@) {
        Some(MetricKind::Pm10)
    } else if contains(n, "pm_1_to_2_5"@) {
        Some(MetricKind::Pm25)
    } else if contains(n, "pm_0_3_to_1"@) {
        Some(MetricKind::Pm1)
    } else if contains(n, "pm_2_5_to_4"@) {
        Some(MetricKind::Pm25)
    } else if contains(n, "pm_4_to_10"@) {
        Some(MetricKind::Pm10)
    } else if contains(n, "voc"@) {
        Some(MetricKind::Tvoc)
    } else if contains(n, "co2"@) {
        Some(MetricKind::Co2)
    } else if contains(n, "temp"@) {
        Some(MetricKind::Temperature)
    } else if contains(n, "hum"@) {
        Some(MetricKind::Humidity)
    } else {
        None
    }
}

/// The event that a publish on `topic` becomes: a metric event where the
/// topic's last segment names a sensor and the payload held a reading,
/// nothing otherwise.
pub open spec fn publish_event<V>(topic: Seq<char>, reading: Option<V>) -> Option<EventView<V>> {
    match (sensor_kind(last_segment(topic)), reading) {
        (Some(kind), Some(value)) => Some(EventView::Metric { topic, value, kind }),
        _ => None,
    }
}

/// The topic prefix used where the configuration names none.
pub open spec fn default_prefix() -> Seq<char> {
    "homeassistant"@
}

/// Whether a character separates two levels of a topic or is the wildcard
/// for all levels below.
pub open spec fn is_slash_or_wildcard(c: char) -> bool {
    c == '/' || c == '#'
}

/// `s` without the slashes and wildcards it ends with, however many and in
/// whatever order.
pub open spec fn without_trailing_wildcards(s: Seq<char>) -> Seq<char>
    decreases s.len(),
{
    if s.len() > 0 && is_slash_or_wildcard(s.last()) {
        without_trailing_wildcards(s.drop_last())
    } else {
        s
    }
}

/// A configured prefix without surrounding white space and then without
/// the slashes and wildcards it ends with.
pub open spec fn topic_base(raw: Seq<char>) -> Seq<char> {
    without_trailing_wildcards(trim(raw))
}

/// The one topic filter the listener subscribes to.
pub open spec fn topic_filter(prefix: Option<Seq<char>>) -> Seq<char> {
    match prefix {
        Some(p) => topic_base(p) + "/#"@,
        None => topic_base(default_prefix()) + "/#"@,
    }
}

/// The topic the connection test subscribes to.
pub open spec fn status_topic(prefix: Option<Seq<char>>) -> Seq<char> {
    match prefix {
        Some(p) => p + "/status"@,
        None => "homeassistant/status"@,
    }
}

/// What is left of a sequence without its trailing slashes and wildcards
/// is its beginning, and ends in neither.
pub proof fn lemma_without_trailing_wildcards(s: Seq<char>)
    ensures
        without_trailing_wildcards(s).len() <= s.len(),
        without_trailing_wildcards(s) == s.subrange(
            0,
            without_trailing_wildcards(s).len() as int,
        ),
        forall|i: int|
            without_trailing_wildcards(s).len() <= i < s.len() ==> is_slash_or_wildcard(
                #[trigger] s[i],
            ),
        without_trailing_wildcards(s).len() > 0 ==> !is_slash_or_wildcard(
            without_trailing_wildcards(s).last(),
        ),
    decreases s.len(),
{
    if s.len() > 0 && is_slash_or_wildcard(s.last()) {
        let head = s.drop_last();
        lemma_without_trailing_wildcards(head);
        let kept = without_trailing_wildcards(head);
        assert(kept =~= s.subrange(0, kept.len() as int));
        assert forall|i: int| kept.len() <= i < s.len() implies is_slash_or_wildcard(
            #[trigger] s[i],
        ) by {
            if i < head.len() {
                assert(head[i] == s[i]);
            }
        }
    } else {
        assert(s =~= s.subrange(0, s.len() as int));
    }
}

/// The base of a topic filter ends in neither a slash nor a wildcard, so
/// the filter holds one wildcard at its end and none that the prefix ended
/// in; and the base is the beginning of the trimmed prefix.
pub proof fn lemma_topic_base_ends_clean(raw: Seq<char>)
    ensures
        topic_base(raw).len() > 0 ==> !is_slash_or_wildcard(topic_base(raw).last()),
        topic_base(raw) == trim(raw).subrange(0, topic_base(raw).len() as int),
        forall|i: int|
            topic_base(raw).len() <= i < trim(raw).len() ==> is_slash_or_wildcard(
                #[trigger] trim(raw)[i],
            ),
{
    lemma_without_trailing_wildcards(trim(raw));
}

/// Lower case is its own lower case.
pub proof fn lemma_lower_settled(s: Seq<char>)
    ensures
        lower(lower(s)) == lower(s),
{
}

/// The kind of a sensor name does not depend on the case of its letters:
/// two names that read the same in lower case are of one kind, and a name is
/// of the kind of its lower-case form.
pub proof fn lemma_sensor_kind_ignores_case(a: Seq<char>, b: Seq<char>)
    requires
        lower(a) == lower(b),
    ensures
        sensor_kind(a) == sensor_kind(b),
        sensor_kind(lower(a)) == sensor_kind(a),
{
    lemma_lower_settled(a);
}

/// Classifies a sensor name. Total: every name gets an answer.
pub fn map_sensor_kind(name: &str) -> (kind: Option<MetricKind>)
    ensures
        kind == sensor_kind(name@),
{
    let n = to_lower(&chars_of(name));
    if has_suffix(&n, &chars_of("pm_1mm_weight_concentration")) {
        Some(MetricKind::Pm1)
    } else if has_suffix(&n, &chars_of("pm_2_5mm_weight_concentration")) {
        Some(MetricKind::Pm25)
    } else if has_suffix(&n, &chars_of("pm_10mm_weight_concentration")) {
        Some(MetricKind::Pm10)
    } else if has_infix(&n, &chars_of("pm_1_to_2_5")) {
        Some(MetricKind::Pm25)
    } else if has_infix(&n, &chars_of("pm_0_3_to_1")) {
        Some(MetricKind::Pm1)
    } else if has_infix(&n, &chars_of("pm_2_5_to_4")) {
        Some(MetricKind::Pm25)
    } else if has_infix(&n, &chars_of("pm_4_to_10")) {
        Some(MetricKind::Pm10)
    } else if has_infix(&n, &chars_of("voc")) {
        Some(MetricKind::Tvoc)
    } else if has_infix(&n, &chars_of("co2")) {
        Some(MetricKind::Co2)
    } else if has_infix(&n, &chars_of("temp")) {
        Some(MetricKind::Temperature)
    } else if has_infix(&n, &chars_of("hum")) {
        Some(MetricKind::Humidity)
    } else {
        None
    }
}

/// Turns one publish into a metric event, or into nothing. `reading` is the
/// payload's value where the payload held a number.
pub fn map_publish<V>(topic: &str, reading: Option<V>) -> (event: Option<MqttEvent<V>>)
    ensures
        match event {
            Some(e) => Some(e@) == publish_event(topic@, reading),
            None => publish_event(topic@, reading) is None,
        },
        reading is None ==> event is None,
{
    let chars = chars_of(topic);
    let start = last_segment_start(&chars);
    let name = topic.substring_char(start, chars.len());
    let kind = map_sensor_kind(name);
    match (kind, reading) {
        (Some(kind), Some(value)) => Some(
            MqttEvent::Metric { topic: String::from_str(topic), value, kind },
        ),
        _ => None,
    }
}

/// One past the last position of `s[from..to]` that holds neither a slash
/// nor a wildcard, or `from`.
fn skip_wildcards_backward(s: &Vec<char>, from: usize, to: usize) -> (k: usize)
    requires
        from <= to <= s.len(),
    ensures
        from <= k <= to,
        s@.subrange(from as int, k as int) == without_trailing_wildcards(
            s@.subrange(from as int, to as int),
        ),
{
    let mut k: usize = to;
    while k > from && (s[k - 1] == '/' || s[k - 1] == '#')
        invariant
            from <= k <= to <= s.len(),
            without_trailing_wildcards(s@.subrange(from as int, k as int))
                == without_trailing_wildcards(s@.subrange(from as int, to as int)),
        decreases k,
    {
        assert(s@.subrange(from as int, k as int).drop_last() =~= s@.subrange(
            from as int,
            k - 1,
        ));
        k -= 1;
    }
    k
}

/// The topic filters of the listener: one, the configured prefix without
/// the slashes and wildcards it ends with, followed by `/#`.
pub fn subscriptions(cfg: &MqttConfig) -> (subs: Vec<String>)
    ensures
        subs@.len() == 1,
        subs@[0]@ == topic_filter(crate::config::text_of(cfg.topic_prefix)),
{
    let raw: &str = match &cfg.topic_prefix {
        Some(p) => p.as_str(),
        None => "homeassistant",
    };
    let chars = chars_of(raw);
    let from = skip_space_forward(&chars, 0, chars.len());
    let to = skip_space_backward(&chars, from, chars.len());
    let to = skip_wildcards_backward(&chars, from, to);
    proof {
        assert(chars@.subrange(0, chars@.len() as int) =~= chars@);
    }
    let base = raw.substring_char(from, to);
    let filter = String::from_str(base).concat("/#");
    vec![filter]
}

/// The topic the connection test subscribes to.
pub fn test_topic(cfg: &MqttConfig) -> (topic: String)
    ensures
        topic@ == status_topic(crate::config::text_of(cfg.topic_prefix)),
{
    match &cfg.topic_prefix {
        Some(prefix) => prefix.clone().concat("/status"),
        None => String::from_str("homeassistant/status"),
    }
}

} // verus!
