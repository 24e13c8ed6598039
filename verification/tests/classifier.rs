use air1_monitor::config::MqttConfig;
use air1_monitor::metric::{MetricKind, MqttEvent};
use air1_monitor::mqtt::{map_publish, map_sensor_kind, subscriptions, test_topic};
use air1_monitor::text::{decimal_string, same_text};

fn with_prefix(prefix: &str) -> MqttConfig {
    let mut cfg = MqttConfig::default();
    cfg.topic_prefix = Some(prefix.to_string());
    cfg
}

#[test]
fn sensor_names_map_to_their_kinds() {
    let cases = [
        ("pm_1mm_weight_concentration", MetricKind::Pm1),
        ("pm_2_5mm_weight_concentration", MetricKind::Pm25),
        ("pm_10mm_weight_concentration", MetricKind::Pm10),
        ("pm_1_to_2_5", MetricKind::Pm25),
        ("pm_0_3_to_1", MetricKind::Pm1),
        ("pm_2_5_to_4", MetricKind::Pm25),
        ("pm_4_to_10", MetricKind::Pm10),
        ("voc", MetricKind::Tvoc),
        ("sen55_voc", MetricKind::Tvoc),
        ("co2", MetricKind::Co2),
        ("temp", MetricKind::Temperature),
        ("temperature", MetricKind::Temperature),
        ("humidity", MetricKind::Humidity),
        ("hum", MetricKind::Humidity),
        ("sen55_humidity", MetricKind::Humidity),
    ];
    for (name, kind) in cases {
        assert_eq!(map_sensor_kind(name), Some(kind), "{}", name);
        assert_eq!(map_sensor_kind(&name.to_uppercase()), Some(kind), "{}", name);
        let decorated = format!("Apollo_AIR1_{}", name);
        assert_eq!(map_sensor_kind(&decorated), Some(kind), "{}", decorated);
    }
}

#[test]
fn the_first_rule_that_fits_decides() {
    assert_eq!(map_sensor_kind("co2_pm_1mm_weight_concentration"), Some(MetricKind::Pm1));
    assert_eq!(map_sensor_kind("pm_1mm_weight_concentration_raw"), None);
    assert_eq!(map_sensor_kind("pm_4_to_10_pm_1_to_2_5"), Some(MetricKind::Pm25));
    assert_eq!(map_sensor_kind("voc_co2_temp"), Some(MetricKind::Tvoc));
    assert_eq!(map_sensor_kind("co2_temperature"), Some(MetricKind::Co2));
    assert_eq!(map_sensor_kind("temp_humidity"), Some(MetricKind::Temperature));
    assert_eq!(map_sensor_kind("Température"), Some(MetricKind::Temperature));
    assert_eq!(map_sensor_kind("HÜM"), None);
    assert_eq!(map_sensor_kind("door"), None);
    assert_eq!(map_sensor_kind(""), None);
}

#[test]
fn publish_without_a_reading_is_dropped() {
    let reading: Option<f64> = "not-a-number".parse().ok();
    assert!(reading.is_none());
    for topic in ["home/sensor/pm_2_5mm_weight_concentration", "co2", "", "a/b/voc", "x/y/"] {
        assert!(map_publish(topic, reading).is_none());
    }
}

#[test]
fn publish_is_classified_by_its_last_segment() {
    assert_eq!(
        map_publish("home/sensor/pm_2_5mm_weight_concentration", Some(12.3)),
        Some(MqttEvent::Metric {
            topic: "home/sensor/pm_2_5mm_weight_concentration".to_string(),
            value: 12.3,
            kind: MetricKind::Pm25,
        })
    );
    assert_eq!(
        map_publish("CO2", Some(415.0)),
        Some(MqttEvent::Metric { topic: "CO2".to_string(), value: 415.0, kind: MetricKind::Co2 })
    );
    assert_eq!(map_publish("home/co2/state", Some(1.0)), None);
    assert_eq!(map_publish("home/co2/", Some(1.0)), None);
    assert_eq!(map_publish("home/humidity/door", Some(1.0)), None);
    assert_eq!(
        map_publish("/temp", Some(-3.5)),
        Some(MqttEvent::Metric {
            topic: "/temp".to_string(),
            value: -3.5,
            kind: MetricKind::Temperature,
        })
    );
}

#[test]
fn the_filter_is_the_prefix_without_wildcards() {
    assert_eq!(subscriptions(&MqttConfig::default()), vec!["homeassistant/#".to_string()]);
    let cases = [
        ("home", "home/#"),
        ("apollo_air1/#", "apollo_air1/#"),
        ("apollo_air1/", "apollo_air1/#"),
        ("apollo_air1#", "apollo_air1/#"),
        ("  home/sensors/#  ", "home/sensors/#"),
        ("a/#/#", "a/#"),
        ("a/##//", "a/#"),
        ("a//#", "a/#"),
        ("a/#/", "a/#"),
        ("a/#/#/", "a/#"),
        ("a/b#/", "a/b/#"),
        ("home /#", "home /#"),
        ("a/#b", "a/#b/#"),
        ("\u{a0}home\u{3000}\t", "home/#"),
        ("#", "/#"),
        ("", "/#"),
        ("/", "/#"),
    ];
    for (prefix, filter) in cases {
        assert_eq!(subscriptions(&with_prefix(prefix)), vec![filter.to_string()], "{:?}", prefix);
    }
}

#[test]
fn the_test_topic_keeps_the_prefix_as_it_is() {
    assert_eq!(test_topic(&MqttConfig::default()), "homeassistant/status");
    assert_eq!(test_topic(&with_prefix("home")), "home/status");
    assert_eq!(test_topic(&with_prefix("home/#")), "home/#/status");
}

#[test]
fn kinds_have_short_names() {
    let kinds = [
        (MetricKind::Pm1, "pm1"),
        (MetricKind::Pm25, "pm25"),
        (MetricKind::Pm10, "pm10"),
        (MetricKind::Tvoc, "tvoc"),
        (MetricKind::Co2, "co2"),
        (MetricKind::Temperature, "temp"),
        (MetricKind::Humidity, "humidity"),
    ];
    for (kind, name) in kinds {
        assert_eq!(kind.name(), name);
        assert_eq!(MetricKind::from_name(name), Some(kind));
    }
    assert_eq!(MetricKind::from_name("pm2_5"), Some(MetricKind::Pm25));
    assert_eq!(MetricKind::from_name("temperature"), Some(MetricKind::Temperature));
    assert_eq!(MetricKind::from_name("PM25"), None);
    assert_eq!(MetricKind::from_name("battery"), None);
}

#[test]
fn numbers_are_written_in_decimal() {
    assert_eq!(decimal_string(0), "0");
    assert_eq!(decimal_string(8), "8");
    assert_eq!(decimal_string(30), "30");
    assert_eq!(decimal_string(1905), "1905");
    assert_eq!(decimal_string(u64::MAX), "18446744073709551615");
    assert!(same_text("pm25", "pm25"));
    assert!(!same_text("pm25", "pm2"));
    assert!(!same_text("pm25", "pm10"));
}
