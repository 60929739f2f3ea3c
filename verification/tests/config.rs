use wagonet::timeout_config::{KeepAliveConfig, TimeoutConfig};
use wagonet::{Duration, Error};

#[test]
fn with_ping_interval_clamps_when_interval_ge_read_header() {
    let config = TimeoutConfig::default().with_ping_interval(Duration::from_secs(60));
    assert_eq!(config.ping_interval, Duration::from_secs(59));
}

#[test]
fn with_ping_interval_clamps_to_half_when_read_header_small() {
    let config = TimeoutConfig {
        read_header: Duration::from_millis(500),
        ..Default::default()
    }
    .with_ping_interval(Duration::from_secs(10));
    assert_eq!(config.ping_interval, Duration::from_millis(250));
}

#[test]
fn with_ping_interval_does_not_change_when_valid() {
    let config = TimeoutConfig::default().with_ping_interval(Duration::from_secs(30));
    assert_eq!(config.ping_interval, Duration::from_secs(30));
}

#[test]
fn validate_returns_ok_when_valid() {
    let config = TimeoutConfig::default();
    let result = config.validate();
    assert!(result.is_ok());
}

#[test]
fn validate_returns_error_when_invalid() {
    let config = TimeoutConfig {
        read_header: Duration::from_secs(10),
        ping_interval: Duration::from_secs(20),
        ..Default::default()
    };
    let result = config.validate();
    assert!(result.is_err());

    let err = result.unwrap_err();
    let err_str = err.to_string();
    assert!(err_str.contains("ping_interval"));
    assert!(err_str.contains("read_header"));
}

#[test]
fn validate_returns_error_when_equal() {
    let config = TimeoutConfig {
        read_header: Duration::from_secs(10),
        ping_interval: Duration::from_secs(10),
        ..Default::default()
    };
    let result = config.validate();
    assert!(result.is_err());
}

#[test]
fn timeout_invariant() {
    let config = TimeoutConfig {
        read_header: Duration::from_secs(10),
        ping_interval: Duration::from_secs(30),
        ..Default::default()
    };
    assert!(config.validate().is_err());

    let config = TimeoutConfig {
        read_header: Duration::from_secs(60),
        ping_interval: Duration::from_secs(30),
        ..Default::default()
    };
    assert!(config.validate().is_ok());
}

#[test]
fn validation_message_shows_both_spans() {
    let config = TimeoutConfig {
        read_header: Duration::from_millis(1500),
        ping_interval: Duration::from_secs(20),
        ..Default::default()
    };
    match config.validate() {
        Err(Error::Config(text)) => assert_eq!(
            text,
            "TimeoutConfig invariant violated: ping_interval (20s) >= read_header (1.5s). \
             Pings may not prevent server-side connection timeout."
        ),
        _ => panic!("the interval is too long"),
    }
}

#[test]
fn clamping_by_size_of_read_header() {
    let clamp = |read_header: Duration| {
        TimeoutConfig { read_header, ..Default::default() }
            .with_ping_interval(Duration::from_secs(100))
            .ping_interval
    };
    assert_eq!(clamp(Duration::from_secs(1)), Duration::from_millis(500));
    assert_eq!(clamp(Duration::from_secs(3)), Duration::from_secs(2));
    assert_eq!(clamp(Duration::from_secs(2)), Duration::from_secs(1));
    assert_eq!(clamp(Duration::from_millis(1999)), Duration::new(0, 999_500_000));
    assert_eq!(clamp(Duration::from_millis(1001)), Duration::new(0, 500_500_000));
    assert_eq!(clamp(Duration::from_millis(200)), Duration::from_millis(100));
    assert_eq!(clamp(Duration::from_millis(199)), Duration::new(0, 99_500_000));
    assert_eq!(clamp(Duration::from_millis(100)), Duration::from_millis(50));
    assert_eq!(clamp(Duration::zero()), Duration::zero());
}

#[test]
fn clamping_keeps_the_other_limits() {
    let probes = KeepAliveConfig { time: Duration::from_secs(60), interval: Duration::from_secs(15) };
    let config = TimeoutConfig {
        connect: Duration::from_secs(1),
        read_header: Duration::from_secs(2),
        read_data: Duration::from_secs(3),
        write: Duration::from_secs(4),
        keep_alive: Some(probes),
        ping_interval: Duration::from_secs(5),
    }
    .with_ping_interval(Duration::from_secs(9));
    assert_eq!(config.connect, Duration::from_secs(1));
    assert_eq!(config.read_header, Duration::from_secs(2));
    assert_eq!(config.read_data, Duration::from_secs(3));
    assert_eq!(config.write, Duration::from_secs(4));
    assert_eq!(config.keep_alive.unwrap().time, Duration::from_secs(60));
    assert_eq!(config.ping_interval, Duration::from_secs(1));
}

#[test]
fn clamped_configurations_validate() {
    let config = TimeoutConfig { read_header: Duration::from_millis(3), ..Default::default() };
    let config = config.with_ping_interval(Duration::from_secs(9));
    assert!(config.validate().is_ok());
    let again = config.with_ping_interval(config.ping_interval);
    assert_eq!(again.ping_interval, config.ping_interval);
}

#[test]
fn default_configurations() {
    let config = TimeoutConfig::default();
    assert_eq!(config.connect, Duration::from_secs(10));
    assert_eq!(config.read_header, Duration::from_secs(60));
    assert_eq!(config.read_data, Duration::from_secs(60));
    assert_eq!(config.write, Duration::from_secs(60));
    assert!(config.keep_alive.is_none());
    assert_eq!(config.ping_interval, Duration::from_secs(30));
    let probes = KeepAliveConfig::default();
    assert_eq!(probes.time, Duration::from_secs(30));
    assert_eq!(probes.interval, Duration::from_secs(10));
}

#[test]
fn spans_of_time() {
    let span = Duration::from_millis(2750);
    assert_eq!(span, Duration::new(2, 750_000_000));
    assert_eq!(span.as_secs(), 2);
    assert_eq!(span.subsec_nanos(), 750_000_000);
    assert_eq!(span.half(), Duration::new(1, 375_000_000));
    assert_eq!(Duration::from_secs(7).quarter(), Duration::from_millis(1750));
    assert_eq!(
        Duration::new(2, 100).saturating_sub(Duration::new(0, 200)),
        Duration::new(1, 999_999_900)
    );
    assert!(Duration::from_secs(1).saturating_sub(span).is_zero());
    assert!(Duration::from_millis(999) < Duration::from_secs(1));
    assert!(Duration::new(1, 1) > Duration::from_secs(1));
}

#[test]
fn equal_spans_are_equal() {
    assert!(Duration::from_secs(1) == Duration::from_millis(1000));
    assert!(Duration::from_secs(1) != Duration::from_millis(1001));
    assert!(Duration::new(1, 1) != Duration::new(2, 1));
}
