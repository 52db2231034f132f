use icmpmolester::config::{
    load_config, ConfigError, FileConfig, LineConfig, LineDefaults, DEFAULT_PACKET_LOSS_ALERT_THRESHOLD,
    DEFAULT_PING_COUNT, DEFAULT_PING_TIMEOUT_MS, DEFAULT_TRACEROUTE_MAX_HOPS,
};
use icmpmolester::decimal::Millionths;

fn integer(table: &toml::Table, key: &str) -> Option<i64> {
    table.get(key).and_then(|value| value.as_integer())
}

fn threshold(table: &toml::Table, key: &str) -> Option<Millionths> {
    table
        .get(key)
        .and_then(|value| value.as_float())
        .map(|percent| Millionths((percent * 1_000_000.0).round() as u64))
}

fn file_config(contents: &str) -> FileConfig {
    let root: toml::Table = contents.parse().unwrap();
    let empty = toml::Table::new();
    let defaults = root.get("defaults").and_then(|value| value.as_table()).unwrap_or(&empty);
    let lines = root.get("lines").and_then(|value| value.as_array()).unwrap();
    FileConfig {
        defaults: LineDefaults {
            ping_count: integer(defaults, "ping_count").map(|n| n as u32),
            ping_timeout_ms: integer(defaults, "ping_timeout_ms").map(|n| n as u64),
            traceroute_max_hops: integer(defaults, "traceroute_max_hops").map(|n| n as u8),
            packet_loss_alert_threshold: threshold(defaults, "packet_loss_alert_threshold"),
        },
        lines: lines
            .iter()
            .map(|value| {
                let line = value.as_table().unwrap();
                LineConfig {
                    name: line.get("name").and_then(|v| v.as_str()).unwrap().to_string(),
                    target: line.get("target").and_then(|v| v.as_str()).unwrap().to_string(),
                    ping_count: integer(line, "ping_count").map(|n| n as u32),
                    ping_timeout_ms: integer(line, "ping_timeout_ms").map(|n| n as u64),
                    traceroute_max_hops: integer(line, "traceroute_max_hops").map(|n| n as u8),
                    packet_loss_alert_threshold: threshold(line, "packet_loss_alert_threshold"),
                }
            })
            .collect(),
    }
}

#[test]
fn applies_defaults_and_overrides() {
    let contents = r#"
            [defaults]
            ping_count = 10
            ping_timeout_ms = 1500
            traceroute_max_hops = 20

            [[lines]]
            name = "Line A"
            target = "8.8.8.8"

            [[lines]]
            name = "Line B"
            target = "1.1.1.1"
            ping_count = 4
        "#;

    let parsed = file_config(contents);
    let defaults = parsed.defaults;
    let settings: Vec<_> = parsed.lines.iter().map(|line| defaults.apply(line)).collect();

    assert_eq!(settings.len(), 2);
    assert_eq!(settings[0].ping_count, 10);
    assert_eq!(settings[0].ping_timeout_ms, 1500);
    assert_eq!(settings[1].ping_count, 4);
    assert_eq!(settings[1].traceroute_max_hops, 20);
}

#[test]
fn built_in_values_where_nothing_is_set() {
    let line = LineConfig {
        name: "Line A".to_string(),
        target: "8.8.8.8".to_string(),
        ping_count: None,
        ping_timeout_ms: None,
        traceroute_max_hops: None,
        packet_loss_alert_threshold: None,
    };
    let settings = LineDefaults::default().apply(&line);
    assert_eq!(settings.name, "Line A");
    assert_eq!(settings.target, "8.8.8.8");
    assert_eq!(settings.ping_count, 5);
    assert_eq!(settings.ping_timeout_ms, 1000);
    assert_eq!(settings.traceroute_max_hops, 30);
    assert_eq!(settings.packet_loss_alert_threshold, Millionths(1_000_000));
    assert_eq!(DEFAULT_PING_COUNT, 5);
    assert_eq!(DEFAULT_PING_TIMEOUT_MS, 1000);
    assert_eq!(DEFAULT_TRACEROUTE_MAX_HOPS, 30);
    assert_eq!(DEFAULT_PACKET_LOSS_ALERT_THRESHOLD, 1_000_000);
}

#[test]
fn own_value_beats_default_beats_built_in() {
    let defaults = LineDefaults {
        ping_count: Some(10),
        ping_timeout_ms: None,
        traceroute_max_hops: Some(20),
        packet_loss_alert_threshold: Some(Millionths(2_500_000)),
    };
    let line = LineConfig {
        name: "Line B".to_string(),
        target: "1.1.1.1".to_string(),
        ping_count: Some(4),
        ping_timeout_ms: Some(0),
        traceroute_max_hops: None,
        packet_loss_alert_threshold: Some(Millionths(0)),
    };
    let settings = defaults.apply(&line);
    assert_eq!(settings.ping_count, 4);
    assert_eq!(settings.ping_timeout_ms, 0);
    assert_eq!(settings.traceroute_max_hops, 20);
    assert_eq!(settings.packet_loss_alert_threshold, Millionths(0));

    let bare = LineConfig {
        name: "Line C".to_string(),
        target: "9.9.9.9".to_string(),
        ping_count: None,
        ping_timeout_ms: None,
        traceroute_max_hops: None,
        packet_loss_alert_threshold: None,
    };
    let settings = defaults.apply(&bare);
    assert_eq!(settings.ping_count, 10);
    assert_eq!(settings.ping_timeout_ms, 1000);
    assert_eq!(settings.traceroute_max_hops, 20);
    assert_eq!(settings.packet_loss_alert_threshold, Millionths(2_500_000));
}

#[test]
fn loads_lines_in_file_order() {
    let parsed = file_config(
        r#"
            [defaults]
            packet_loss_alert_threshold = 2.5

            [[lines]]
            name = "Line A"
            target = "8.8.8.8"

            [[lines]]
            name = "Line B"
            target = "1.1.1.1"
            packet_loss_alert_threshold = 0.5

            [[lines]]
            name = "Line C"
            target = "9.9.9.9"
            ping_timeout_ms = 250
        "#,
    );
    let config = load_config(&parsed).unwrap();
    let names: Vec<&str> = config.lines.iter().map(|line| line.name.as_str()).collect();
    assert_eq!(names, vec!["Line A", "Line B", "Line C"]);
    assert_eq!(config.lines[0].packet_loss_alert_threshold, Millionths(2_500_000));
    assert_eq!(config.lines[1].packet_loss_alert_threshold, Millionths(500_000));
    assert_eq!(config.lines[2].ping_timeout_ms, 250);
    assert_eq!(config.lines[2].ping_count, 5);
}

#[test]
fn refuses_a_file_without_lines() {
    let parsed = FileConfig { defaults: LineDefaults::default(), lines: Vec::new() };
    assert_eq!(load_config(&parsed).unwrap_err(), ConfigError::NoLines);
}
