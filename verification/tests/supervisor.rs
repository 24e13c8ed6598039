use air1_monitor::config::MqttConfig;
use air1_monitor::metric::{MetricKind, MqttEvent};
use air1_monitor::supervisor::{Action, Phase, Signal, Supervisor};

fn fresh() -> Supervisor {
    Supervisor::new(&MqttConfig::default())
}

fn failed(reason: &str, uptime_secs: u64) -> Signal<f64> {
    Signal::Failed { reason: reason.to_string(), uptime_secs }
}

fn publish(topic: &str, reading: Option<f64>) -> Signal<f64> {
    Signal::Publish { topic: topic.to_string(), reading }
}

/// Brings a supervisor from the start of an attempt to the receive loop.
fn connect(sup: &mut Supervisor) {
    assert_eq!(sup.phase(), Phase::Connecting);
    let step = sup.step::<f64>(Signal::Opened);
    assert!(step.events.is_empty());
    assert_eq!(step.action, Action::Receive);
    assert_eq!(sup.phase(), Phase::Subscribed);
    let step = sup.step::<f64>(Signal::Acknowledged);
    assert_eq!(step.action, Action::Receive);
    assert_eq!(sup.phase(), Phase::Receiving);
}

/// Fails the attempt under way and returns the pause that follows.
fn fail_and_wait(sup: &mut Supervisor, uptime_secs: u64) -> u64 {
    let step = sup.step(failed("connection refused", uptime_secs));
    assert_eq!(sup.phase(), Phase::ReconnectWait);
    let wait = match step.action {
        Action::Wait(secs) => secs,
        other => panic!("expected a pause, got {:?}", other),
    };
    assert_eq!(
        step.events,
        vec![
            MqttEvent::Disconnected("connection refused".to_string()),
            MqttEvent::Status(format!("Reconnecting in {}s", wait)),
        ]
    );
    let step = sup.step::<f64>(Signal::WaitElapsed);
    assert!(step.events.is_empty());
    assert_eq!(step.action, Action::Connect);
    wait
}

#[test]
fn a_new_supervisor_waits_for_its_start() {
    let mut sup = fresh();
    assert_eq!(sup.phase(), Phase::Idle);
    assert_eq!(sup.backoff_secs(), 1);
    assert_eq!(sup.filter(), "homeassistant/#");
    let step = sup.step::<f64>(Signal::Other);
    assert_eq!(step.action, Action::AwaitStart);
    assert!(step.events.is_empty());
    let step = sup.step::<f64>(Signal::Start);
    assert_eq!(step.action, Action::Connect);
    assert!(step.events.is_empty());
    assert_eq!(sup.phase(), Phase::Connecting);
}

#[test]
fn the_acknowledgment_announces_the_subscription() {
    let mut cfg = MqttConfig::default();
    cfg.topic_prefix = Some("home/".to_string());
    let mut sup = Supervisor::new(&cfg);
    sup.step::<f64>(Signal::Start);
    sup.step::<f64>(Signal::Opened);
    let step = sup.step::<f64>(Signal::Acknowledged);
    assert_eq!(
        step.events,
        vec![MqttEvent::Status("MQTT connected; subs: home/#".to_string()), MqttEvent::Connected]
    );
}

#[test]
fn publishes_become_metric_events_while_receiving() {
    let mut sup = fresh();
    sup.step::<f64>(Signal::Start);
    let step = sup.step(publish("home/co2", Some(400.0)));
    assert!(step.events.is_empty());
    assert_eq!(step.action, Action::Connect);
    connect(&mut sup);
    let step = sup.step(publish("home/co2", Some(400.0)));
    assert_eq!(
        step.events,
        vec![MqttEvent::Metric {
            topic: "home/co2".to_string(),
            value: 400.0,
            kind: MetricKind::Co2,
        }]
    );
    assert_eq!(step.action, Action::Receive);
    assert!(sup.step(publish("home/co2", None)).events.is_empty());
    assert!(sup.step(publish("home/door", Some(1.0))).events.is_empty());
    assert!(sup.step::<f64>(Signal::Other).events.is_empty());
    assert_eq!(sup.phase(), Phase::Receiving);
}

#[test]
fn the_pause_doubles_with_each_failure() {
    let mut sup = fresh();
    sup.step::<f64>(Signal::Start);
    assert_eq!(fail_and_wait(&mut sup, 0), 1);
    assert_eq!(fail_and_wait(&mut sup, 59), 2);
    assert_eq!(fail_and_wait(&mut sup, 5), 4);
    // The pauses so far were 1, 2 and 4 seconds; a fourth failure is followed by 8.
    assert_eq!(sup.backoff_secs(), 8);
    assert_eq!(fail_and_wait(&mut sup, 1), 8);
    assert_eq!(fail_and_wait(&mut sup, 1), 16);
    assert_eq!(fail_and_wait(&mut sup, 1), 30);
    assert_eq!(fail_and_wait(&mut sup, 1), 30);
    assert_eq!(sup.backoff_secs(), 30);
}

#[test]
fn a_healthy_session_resets_the_pause() {
    let mut sup = fresh();
    sup.step::<f64>(Signal::Start);
    assert_eq!(fail_and_wait(&mut sup, 0), 1);
    assert_eq!(fail_and_wait(&mut sup, 0), 2);
    assert_eq!(fail_and_wait(&mut sup, 0), 4);
    connect(&mut sup);
    assert_eq!(fail_and_wait(&mut sup, 60), 1);
    assert_eq!(fail_and_wait(&mut sup, 0), 2);
    connect(&mut sup);
    let step = sup.step::<f64>(Signal::Closed { uptime_secs: 3600 });
    assert_eq!(
        step.events,
        vec![
            MqttEvent::Disconnected("connection closed".to_string()),
            MqttEvent::Status("Reconnecting in 1s".to_string()),
        ]
    );
    assert_eq!(step.action, Action::Wait(1));
}

#[test]
fn a_stop_during_the_pause_ends_the_loop_at_once() {
    let mut sup = fresh();
    sup.step::<f64>(Signal::Start);
    for _ in 0..5 {
        fail_and_wait(&mut sup, 0);
    }
    let step = sup.step(failed("unreachable", 0));
    assert_eq!(step.action, Action::Wait(30));
    let step = sup.step::<f64>(Signal::Stop);
    assert_eq!(step.events, vec![MqttEvent::Disconnected("stopped".to_string())]);
    assert_eq!(step.action, Action::Finish { disconnect: false });
    assert_eq!(sup.phase(), Phase::Stopped);
}

#[test]
fn a_stop_closes_the_open_session() {
    let mut sup = fresh();
    sup.step::<f64>(Signal::Start);
    connect(&mut sup);
    let step = sup.step::<f64>(Signal::Stop);
    assert_eq!(step.events, vec![MqttEvent::Disconnected("stopped".to_string())]);
    assert_eq!(step.action, Action::Finish { disconnect: true });

    let mut idle = fresh();
    let step = idle.step::<f64>(Signal::Stop);
    assert_eq!(step.events, vec![MqttEvent::Disconnected("stopped".to_string())]);
    assert_eq!(step.action, Action::Finish { disconnect: false });
}

#[test]
fn nothing_follows_the_stop() {
    let mut sup = fresh();
    sup.step::<f64>(Signal::Start);
    connect(&mut sup);
    sup.step::<f64>(Signal::Stop);
    let later = [
        Signal::Start,
        Signal::Stop,
        Signal::Opened,
        Signal::Acknowledged,
        publish("home/co2", Some(1.0)),
        Signal::Other,
        failed("late", 100),
        Signal::Closed { uptime_secs: 100 },
        Signal::WaitElapsed,
    ];
    for signal in later {
        let step = sup.step(signal);
        assert!(step.events.is_empty());
        assert_eq!(step.action, Action::Finish { disconnect: false });
        assert_eq!(sup.phase(), Phase::Stopped);
    }
}

#[test]
fn signals_out_of_place_change_nothing() {
    let mut sup = fresh();
    sup.step::<f64>(Signal::Start);
    for signal in [Signal::<f64>::Acknowledged, Signal::WaitElapsed, Signal::Start] {
        let step = sup.step(signal);
        assert!(step.events.is_empty());
        assert_eq!(step.action, Action::Connect);
        assert_eq!(sup.phase(), Phase::Connecting);
    }
    let step = sup.step(failed("no route", 0));
    assert_eq!(step.action, Action::Wait(1));
    for signal in [failed("again", 0), Signal::Opened, Signal::Closed { uptime_secs: 90 }] {
        let step = sup.step(signal);
        assert!(step.events.is_empty());
        assert_eq!(step.action, Action::Wait(1));
        assert_eq!(sup.backoff_secs(), 2);
    }
}

#[test]
fn metric_events_stand_between_connected_and_disconnected() {
    let mut sup = fresh();
    let signals = vec![
        Signal::Start,
        publish("a/co2", Some(1.0)),
        Signal::Opened,
        publish("a/co2", Some(2.0)),
        Signal::Acknowledged,
        publish("a/co2", Some(3.0)),
        failed("reset", 2),
        publish("a/co2", Some(4.0)),
        Signal::WaitElapsed,
        Signal::Opened,
        Signal::Acknowledged,
        publish("a/temp", Some(5.0)),
        Signal::Stop,
        publish("a/temp", Some(6.0)),
    ];
    let mut events = Vec::new();
    for signal in signals {
        events.extend(sup.step(signal).events);
    }
    let mut inside = false;
    let mut values = Vec::new();
    for event in &events {
        match event {
            MqttEvent::Connected => {
                assert!(!inside);
                inside = true;
            }
            MqttEvent::Disconnected(_) => inside = false,
            MqttEvent::Metric { value, .. } => {
                assert!(inside);
                values.push(*value);
            }
            MqttEvent::Status(_) => {}
        }
    }
    assert!(!inside);
    assert_eq!(values, vec![3.0, 5.0]);
    assert_eq!(events.last(), Some(&MqttEvent::Disconnected("stopped".to_string())));
}

#[test]
fn every_pause_lies_between_one_and_thirty_seconds() {
    let mut sup = fresh();
    sup.step::<f64>(Signal::Start);
    let uptimes = [0, 59, 60, 3, 3, 3, 3, 3, 3, 3, 61, 0, u64::MAX, 1, 1, 1, 1, 1, 1];
    for uptime_secs in uptimes {
        let wait = fail_and_wait(&mut sup, uptime_secs);
        assert!((1..=30).contains(&wait));
        assert!((1..=30).contains(&sup.backoff_secs()));
    }
}
