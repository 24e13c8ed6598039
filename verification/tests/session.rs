use air1_monitor::channel::EventChannel;
use air1_monitor::config::{ConfigError, ConfigPaths, MqttConfig};
use air1_monitor::metric::{MetricKind, MqttEvent};
use air1_monitor::session::{
    build_options, test_step, SessionOptions, TestNote, TestVerdict, TlsMode,
    PROBE_TIMEOUT_SECS, TEST_TIMEOUT_NANOS, TEST_TIMEOUT_SECS,
};
use air1_monitor::store::{Metrics, MetricsStore};
use air1_monitor::supervisor::{Action, Signal, Supervisor};
use std::path::PathBuf;

#[test]
fn options_take_the_defaults_where_nothing_is_configured() {
    let mut cfg = MqttConfig::default();
    cfg.client_id = None;
    assert_eq!(
        build_options(&cfg, None, false),
        SessionOptions {
            client_id: "air1-monitor".to_string(),
            host: "localhost".to_string(),
            port: 1883,
            credentials: None,
            keep_alive_secs: 30,
            clean_session: false,
            tls: TlsMode::Off,
        }
    );
    assert_eq!(build_options(&cfg, Some("unused"), true).credentials, None);
    assert!(build_options(&cfg, None, true).clean_session);
}

#[test]
fn options_follow_the_configuration() {
    let cfg = MqttConfig {
        host: "broker.example".to_string(),
        port: 8883,
        tls: true,
        ca_path: Some(PathBuf::from("/etc/ssl/ca.pem")),
        client_id: Some("kitchen".to_string()),
        username: Some("sensor".to_string()),
        topic_prefix: None,
        qos: 1,
        keepalive_secs: 65535,
        remember_password: true,
    };
    let options = build_options(&cfg, Some("s3cret"), false);
    assert_eq!(options.client_id, "kitchen");
    assert_eq!(options.host, "broker.example");
    assert_eq!(options.port, 8883);
    assert_eq!(options.credentials, Some(("sensor".to_string(), "s3cret".to_string())));
    assert_eq!(options.keep_alive_secs, 65535);
    assert_eq!(options.tls, TlsMode::CaBundle);
    assert_eq!(
        build_options(&cfg, None, false).credentials,
        Some(("sensor".to_string(), String::new()))
    );
    let mut platform = cfg.clone();
    platform.ca_path = None;
    assert_eq!(build_options(&platform, None, false).tls, TlsMode::PlatformRoots);
    platform.tls = false;
    platform.ca_path = Some(PathBuf::from("ca.pem"));
    assert_eq!(build_options(&platform, None, false).tls, TlsMode::Off);
}

#[test]
fn the_connection_test_ends_on_the_first_acknowledgment() {
    assert_eq!(PROBE_TIMEOUT_SECS, 3);
    assert_eq!(TEST_TIMEOUT_SECS, 5);
    assert_eq!(TEST_TIMEOUT_NANOS, 5_000_000_000);
    assert_eq!(test_step(TestNote::Other, 0), TestVerdict::Continue);
    assert_eq!(test_step(TestNote::Acknowledged, 1_000), TestVerdict::Passed);
    assert_eq!(test_step(TestNote::Acknowledged, 5_000_000_000), TestVerdict::Passed);
    assert_eq!(
        test_step(TestNote::Acknowledged, 5_000_000_001),
        TestVerdict::Failed("MQTT test timed out after 5s".to_string())
    );
    assert_eq!(
        test_step(TestNote::Other, 6_000_000_000),
        TestVerdict::Failed("MQTT test timed out after 5s".to_string())
    );
    assert_eq!(
        test_step(TestNote::Failed("connection refused".to_string()), 10),
        TestVerdict::Failed("MQTT error during test: connection refused".to_string())
    );
    assert_eq!(
        test_step(TestNote::Failed("connection refused".to_string()), u128::MAX),
        TestVerdict::Failed("MQTT test timed out after 5s".to_string())
    );
    assert_eq!(
        test_step(TestNote::Ended, 0),
        TestVerdict::Failed("MQTT test ended without ConnAck".to_string())
    );
    assert_eq!(
        test_step(TestNote::Ended, u128::MAX),
        TestVerdict::Failed("MQTT test ended without ConnAck".to_string())
    );
}

#[test]
fn the_channel_hands_events_on_in_order() {
    let mut channel: EventChannel<f64> = EventChannel::new();
    assert_eq!(channel.try_receive(), None);
    channel.send(MqttEvent::Connected);
    channel.send(MqttEvent::Status("one".to_string()));
    channel.send(MqttEvent::Status("two".to_string()));
    assert_eq!(channel.len(), 3);
    assert_eq!(channel.try_receive(), Some(MqttEvent::Connected));
    assert_eq!(channel.try_receive(), Some(MqttEvent::Status("one".to_string())));
    channel.send(MqttEvent::Disconnected("bye".to_string()));
    assert_eq!(channel.try_receive(), Some(MqttEvent::Status("two".to_string())));
    assert_eq!(channel.try_receive(), Some(MqttEvent::Disconnected("bye".to_string())));
    assert_eq!(channel.try_receive(), None);
    assert_eq!(channel.len(), 0);
}

#[test]
fn a_closed_channel_drops_what_is_sent() {
    let mut channel: EventChannel<f64> = EventChannel::new();
    channel.send(MqttEvent::Connected);
    assert!(!channel.is_closed());
    channel.close();
    assert!(channel.is_closed());
    assert_eq!(channel.try_receive(), None);
    channel.send(MqttEvent::Connected);
    assert_eq!(channel.len(), 0);
    assert_eq!(channel.try_receive(), None);
}

#[test]
fn the_store_keeps_the_last_value_of_each_kind() {
    let mut store: MetricsStore<f64> = MetricsStore::new();
    let event = MqttEvent::Metric { topic: "s/t".to_string(), value: 25.5, kind: MetricKind::Pm25 };
    store.apply(event, 9);
    assert_eq!(store.metrics.get(MetricKind::Pm25), Some(25.5));
    assert_eq!(store.metrics.last_topic, Some("s/t".to_string()));
    assert_eq!(store.metrics.last_update, Some(9));
    assert!(!store.connected);
    for kind in [MetricKind::Pm1, MetricKind::Pm10, MetricKind::Tvoc, MetricKind::Co2] {
        assert_eq!(store.metrics.get(kind), None);
    }
    let mut metrics: Metrics<u8> = Metrics::new();
    let kinds = [
        MetricKind::Pm1,
        MetricKind::Pm25,
        MetricKind::Pm10,
        MetricKind::Tvoc,
        MetricKind::Co2,
        MetricKind::Temperature,
        MetricKind::Humidity,
    ];
    for (i, kind) in kinds.into_iter().enumerate() {
        metrics.set(kind, i as u8);
    }
    metrics.set(MetricKind::Co2, 40);
    assert_eq!(metrics.pm1, Some(0));
    assert_eq!(metrics.pm25, Some(1));
    assert_eq!(metrics.pm10, Some(2));
    assert_eq!(metrics.tvoc, Some(3));
    assert_eq!(metrics.co2, Some(40));
    assert_eq!(metrics.temp, Some(5));
    assert_eq!(metrics.humidity, Some(6));
}

#[test]
fn events_in_order_leave_both_metrics_and_no_session() {
    let mut store: MetricsStore<f64> = MetricsStore::new();
    let mut channel = EventChannel::new();
    channel.send(MqttEvent::Connected);
    channel.send(MqttEvent::Metric { topic: "a".to_string(), value: 1.5, kind: MetricKind::Tvoc });
    channel.send(MqttEvent::Metric { topic: "b".to_string(), value: 2.5, kind: MetricKind::Co2 });
    channel.send(MqttEvent::Disconnected("gone".to_string()));
    store.poll(&mut channel, 3);
    assert_eq!(store.metrics.tvoc, Some(1.5));
    assert_eq!(store.metrics.co2, Some(2.5));
    assert_eq!(store.metrics.last_topic, Some("b".to_string()));
    assert!(!store.connected);
    assert_eq!(store.status, "MQTT disconnected: gone");
    assert_eq!(channel.len(), 0);
}

#[test]
fn a_publish_reaches_the_consumer() {
    let mut cfg = MqttConfig::default();
    cfg.host = "localhost".to_string();
    cfg.port = 1883;
    cfg.tls = false;
    cfg.topic_prefix = Some("home".to_string());
    assert_eq!(cfg.validate(), Ok(()));
    assert_eq!(cfg.check_credentials(None), Ok::<(), ConfigError>(()));

    let mut sup = Supervisor::new(&cfg);
    assert_eq!(sup.filter(), "home/#");
    let mut channel: EventChannel<f64> = EventChannel::new();
    let reading: Option<f64> = "12.3".trim().parse().ok();
    let signals = vec![
        Signal::Start,
        Signal::Opened,
        Signal::Acknowledged,
        Signal::Publish { topic: "home/sensor/pm_2_5mm_weight_concentration".to_string(), reading },
    ];
    let mut action = Action::AwaitStart;
    for signal in signals {
        let step = sup.step(signal);
        for event in step.events {
            channel.send(event);
        }
        action = step.action;
    }
    assert_eq!(action, Action::Receive);

    let mut store: MetricsStore<f64> = MetricsStore::new();
    store.poll(&mut channel, 0);
    assert_eq!(store.metrics.get(MetricKind::Pm25), Some(12.3));
    assert_eq!(
        store.metrics.last_topic,
        Some("home/sensor/pm_2_5mm_weight_concentration".to_string())
    );
    assert!(store.connected);
}

#[test]
fn the_configuration_file_is_named_config_toml() {
    assert_eq!(ConfigPaths::in_dir(None).err(), Some(ConfigError::NoConfigDir));
    let paths = ConfigPaths::in_dir(Some(PathBuf::from("/home/alice/.config/monitor"))).unwrap();
    assert_eq!(paths.config_file, PathBuf::from("/home/alice/.config/monitor/config.toml"));
    match ConfigPaths::new() {
        Ok(paths) => assert!(paths.config_file.ends_with("config.toml")),
        Err(e) => assert_eq!(e, ConfigError::NoConfigDir),
    }
    assert!(ConfigPaths::default().config_file.ends_with("config.toml"));
}
