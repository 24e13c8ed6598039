use air1_monitor::config::{optional_text, AppConfig, ConfigError, MqttConfig};
use air1_monitor::dashboard::{
    built_in_sections, default_gauges_for, normalize_gauges, normalize_section,
    normalize_sections, DashboardConfig, DashboardSection, GaugeConfig,
};

fn gauge(id: &str, enabled: bool) -> GaugeConfig {
    GaugeConfig { id: id.to_string(), enabled }
}

fn section(id: &str, enabled: bool, gauges: Vec<GaugeConfig>) -> DashboardSection {
    DashboardSection { id: id.to_string(), enabled, gauges }
}

fn ids(sections: &[DashboardSection]) -> Vec<String> {
    sections.iter().map(|s| s.id.clone()).collect()
}

fn gauge_ids(gauges: &[GaugeConfig]) -> Vec<String> {
    gauges.iter().map(|g| g.id.clone()).collect()
}

#[test]
fn the_built_in_layout_has_three_sections() {
    let sections = built_in_sections();
    assert_eq!(ids(&sections), vec!["particulates", "gases", "environment"]);
    assert_eq!(gauge_ids(&sections[0].gauges), vec!["pm25", "pm10", "pm1"]);
    assert_eq!(gauge_ids(&sections[1].gauges), vec!["co2", "tvoc"]);
    assert_eq!(gauge_ids(&sections[2].gauges), vec!["temp", "humidity"]);
    assert!(sections.iter().all(|s| s.enabled && s.gauges.iter().all(|g| g.enabled)));
    assert!(default_gauges_for("attic").is_empty());
    assert_eq!(DashboardConfig::default().sections, sections);
}

#[test]
fn an_empty_layout_becomes_the_built_in_one() {
    assert_eq!(normalize_sections(Vec::new()), built_in_sections());
    let layout = DashboardConfig { sections: Vec::new() }.normalize();
    assert_eq!(layout, DashboardConfig::default());
}

#[test]
fn of_two_items_with_one_id_the_first_stays() {
    let gauges = vec![gauge("co2", false), gauge("tvoc", true), gauge("co2", true)];
    assert_eq!(normalize_gauges(gauges, "gases"), vec![gauge("co2", false), gauge("tvoc", true)]);

    let sections = vec![
        section("gases", false, vec![gauge("tvoc", false)]),
        section("gases", true, vec![gauge("co2", false)]),
    ];
    let out = normalize_sections(sections);
    assert_eq!(ids(&out), vec!["gases", "particulates", "environment"]);
    assert_eq!(out[0], section("gases", false, vec![gauge("tvoc", false), gauge("co2", true)]));
    assert_eq!(out[1], built_in_sections()[0]);
    assert_eq!(out[2], built_in_sections()[2]);
}

#[test]
fn missing_built_in_gauges_follow_at_the_end() {
    let out = normalize_section(section("particulates", true, vec![gauge("pm10", false)]));
    assert_eq!(
        out,
        section(
            "particulates",
            true,
            vec![gauge("pm10", false), gauge("pm25", true), gauge("pm1", true)]
        )
    );
    let out = normalize_section(section("environment", false, Vec::new()));
    assert_eq!(out, section("environment", false, vec![gauge("temp", true), gauge("humidity", true)]));
}

#[test]
fn unknown_ids_stay_as_they_are() {
    let attic = section("attic", false, vec![gauge("radon", true), gauge("radon", false)]);
    let cellar = section("cellar", true, Vec::new());
    let odd = section("gases", true, vec![gauge("ozone", false), gauge("co2", true)]);
    let out = normalize_sections(vec![attic, cellar.clone(), odd]);
    assert_eq!(ids(&out), vec!["attic", "cellar", "gases", "particulates", "environment"]);
    assert_eq!(out[0], section("attic", false, vec![gauge("radon", true)]));
    assert_eq!(out[1], cellar);
    assert_eq!(
        out[2],
        section("gases", true, vec![gauge("ozone", false), gauge("co2", true), gauge("tvoc", true)])
    );
}

#[test]
fn repairing_twice_changes_nothing_more() {
    let layouts = vec![
        Vec::new(),
        built_in_sections(),
        vec![
            section("gases", true, vec![gauge("co2", true), gauge("co2", false)]),
            section("attic", true, vec![gauge("radon", true), gauge("pm25", false)]),
            section("gases", false, Vec::new()),
            section("", true, vec![gauge("", true), gauge("", false)]),
            section("Particulates", true, Vec::new()),
            section("environment", true, vec![gauge("humidity", false)]),
            section("attic", false, Vec::new()),
        ],
    ];
    for layout in layouts {
        let once = normalize_sections(layout);
        let twice = normalize_sections(once.clone());
        assert_eq!(once, twice);
        let mut seen = Vec::new();
        for s in &once {
            assert!(!seen.contains(&s.id));
            seen.push(s.id.clone());
            let mut inner = Vec::new();
            for g in &s.gauges {
                assert!(!inner.contains(&g.id));
                inner.push(g.id.clone());
            }
        }
        for built_in in ["particulates", "gases", "environment"] {
            assert!(seen.contains(&built_in.to_string()));
        }
    }
}

#[test]
fn a_loaded_configuration_is_checked_and_repaired() {
    let mut cfg = AppConfig::default();
    cfg.mqtt.keepalive_secs = 42;
    cfg.dashboard =
        DashboardConfig { sections: vec![section("gases", true, vec![gauge("co2", false)])] };
    let checked = cfg.clone().checked().unwrap();
    assert_eq!(checked.mqtt, cfg.mqtt);
    assert_eq!(ids(&checked.dashboard.sections), vec!["gases", "particulates", "environment"]);
    assert_eq!(checked.clone().checked().unwrap(), checked);

    let mut bad = cfg.clone();
    bad.mqtt.port = 0;
    assert_eq!(bad.checked(), Err(ConfigError::PortOutOfRange));
}

#[test]
fn settings_are_checked_in_order() {
    let good = MqttConfig::default();
    assert_eq!(good.validate(), Ok(()));
    assert_eq!(good.host, "localhost");
    assert_eq!(good.port, 1883);
    assert!(!good.tls);
    assert_eq!(good.client_id, Some("air1-monitor".to_string()));
    assert_eq!(good.qos, 0);
    assert_eq!(good.keepalive_secs, 30);

    let mut cfg = good.clone();
    cfg.keepalive_secs = 0;
    assert_eq!(cfg.validate(), Err(ConfigError::KeepaliveZero));
    cfg.qos = 3;
    assert_eq!(cfg.validate(), Err(ConfigError::QosOutOfRange));
    cfg.qos = 2;
    cfg.keepalive_secs = 1;
    assert_eq!(cfg.validate(), Ok(()));
    cfg.qos = 3;
    cfg.port = 0;
    assert_eq!(cfg.validate(), Err(ConfigError::PortOutOfRange));
    cfg.port = 65535;
    cfg.qos = 0;
    assert_eq!(cfg.validate(), Ok(()));
    cfg.port = 0;
    cfg.host = String::new();
    assert_eq!(cfg.validate(), Err(ConfigError::EmptyHost));
    assert_eq!(ConfigError::EmptyHost.message(), "host must not be empty");
    assert_eq!(ConfigError::PortOutOfRange.message(), "port must be between 1 and 65535");
    assert_eq!(ConfigError::QosOutOfRange.message(), "QoS must be 0, 1 or 2");
    assert_eq!(ConfigError::KeepaliveZero.message(), "keepalive must be at least 1 second");
    assert_eq!(ConfigError::NoConfigDir.message(), "could not determine XDG config dir");
}

#[test]
fn a_blank_setting_is_absent() {
    assert_eq!(optional_text(String::new()), None);
    assert_eq!(optional_text("  \t\u{3000}".to_string()), None);
    assert_eq!(optional_text(" home ".to_string()), Some(" home ".to_string()));
    assert_eq!(optional_text("\u{200b}".to_string()), Some("\u{200b}".to_string()));
}
