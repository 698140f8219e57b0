use testcontainers::ports::Ports;
use testcontainers::readiness::{advance, contains_text};
use testcontainers::wait_for::parse_u64;
use testcontainers::{ContainerState, Duration, HealthStatus, Observation, ReadyStep, Readiness, WaitFor};

fn observe(stdout: &str, waited: Duration) -> Observation {
    Observation {
        stdout: stdout.to_owned(),
        stderr: String::new(),
        waited,
        health: HealthStatus::Unreported,
    }
}

#[test]
fn seconds_and_millis_lengths() {
    match WaitFor::seconds(3) {
        WaitFor::Duration { length } => {
            assert_eq!(length.as_millis(), 3000);
            assert_eq!(length, Duration::from_secs(3));
        }
        other => panic!("unexpected {other:?}"),
    }
    match WaitFor::millis(1500) {
        WaitFor::Duration { length } => {
            assert_eq!(length.as_millis(), 1500);
            assert_eq!(length.as_secs(), 1);
            assert_eq!(length.subsec_nanos(), 500_000_000);
        }
        other => panic!("unexpected {other:?}"),
    }
    match WaitFor::seconds(u64::MAX) {
        WaitFor::Duration { length } => assert_eq!(length.as_millis(), u64::MAX as u128 * 1000),
        other => panic!("unexpected {other:?}"),
    }
    assert_eq!(WaitFor::millis(0), WaitFor::seconds(0));
    assert_eq!(WaitFor::millis(2000), WaitFor::seconds(2));
}

#[test]
fn millis_from_environment_value() {
    assert_eq!(WaitFor::millis_in_env_var(None), WaitFor::Nothing);
    assert_eq!(WaitFor::millis_in_env_var(Some("abc")), WaitFor::Nothing);
    assert_eq!(WaitFor::millis_in_env_var(Some("")), WaitFor::Nothing);
    assert_eq!(WaitFor::millis_in_env_var(Some("-5")), WaitFor::Nothing);
    assert_eq!(WaitFor::millis_in_env_var(Some("2.5")), WaitFor::Nothing);
    assert_eq!(WaitFor::millis_in_env_var(Some("250")), WaitFor::millis(250));
    assert_eq!(WaitFor::millis_in_env_var(Some("+7")), WaitFor::millis(7));
}

#[test]
fn parse_u64_bounds() {
    assert_eq!(parse_u64("0"), Some(0));
    assert_eq!(parse_u64("007"), Some(7));
    assert_eq!(parse_u64("+"), None);
    assert_eq!(parse_u64("18446744073709551615"), Some(u64::MAX));
    assert_eq!(parse_u64("18446744073709551616"), None);
    assert_eq!(parse_u64("99999999999999999999x"), None);
    assert_eq!(parse_u64(" 1"), None);
}

#[test]
fn message_constructors() {
    assert_eq!(
        WaitFor::message_on_stdout("up"),
        WaitFor::StdOutMessage { message: "up".to_owned() }
    );
    assert_eq!(
        WaitFor::message_on_stderr("up"),
        WaitFor::StdErrMessage { message: "up".to_owned() }
    );
}

#[test]
fn published_port_lookup() {
    let ports = Ports::new().with_ipv4_mapping(80, 32768);
    assert_eq!(ports.map_to_host_port_ipv4(80), Some(32768));
    assert_eq!(ports.map_to_host_port_ipv6(80), None);
    assert_eq!(ports.map_to_host_port_ipv4(8080), None);
    let state = ContainerState::new(ports);
    assert_eq!(state.host_port_ipv4(80), 32768);
    assert_eq!(state.ports().map_to_host_port_ipv6(80), None);
}

#[test]
fn later_mapping_of_a_port_wins() {
    let ports = Ports::new()
        .with_ipv4_mapping(80, 1000)
        .with_ipv6_mapping(80, 2000)
        .with_ipv4_mapping(80, 1001);
    let state = ContainerState::new(ports);
    assert_eq!(state.host_port_ipv4(80), 1001);
    assert_eq!(state.host_port_ipv6(80), 2000);
}

#[test]
fn substring_search() {
    assert!(contains_text("server is ready now", "is ready"));
    assert!(contains_text("abc", ""));
    assert!(contains_text("abc", "abc"));
    assert!(!contains_text("abc", "abcd"));
    assert!(!contains_text("Ready", "ready"));
    assert!(contains_text("ééx", "éx"));
}

#[test]
fn conditions_evaluated() {
    let o = Observation {
        stdout: "listening".to_owned(),
        stderr: "warning: slow".to_owned(),
        waited: Duration::from_millis(999),
        health: HealthStatus::Starting,
    };
    assert_eq!(WaitFor::Nothing.evaluate(&o), Readiness::Satisfied);
    assert_eq!(WaitFor::message_on_stdout("listen").evaluate(&o), Readiness::Satisfied);
    assert_eq!(WaitFor::message_on_stdout("slow").evaluate(&o), Readiness::Pending);
    assert_eq!(WaitFor::message_on_stderr("slow").evaluate(&o), Readiness::Satisfied);
    assert_eq!(WaitFor::seconds(1).evaluate(&o), Readiness::Pending);
    assert_eq!(WaitFor::millis(999).evaluate(&o), Readiness::Satisfied);
    assert_eq!(WaitFor::Healthcheck.evaluate(&o), Readiness::Pending);
    let healthy = Observation { health: HealthStatus::Healthy, ..o.clone() };
    assert_eq!(WaitFor::Healthcheck.evaluate(&healthy), Readiness::Satisfied);
    let unhealthy = Observation { health: HealthStatus::Unhealthy, ..o };
    assert_eq!(WaitFor::Healthcheck.evaluate(&unhealthy), Readiness::Failed);
}

#[test]
fn message_then_settle_time() {
    let conditions = vec![WaitFor::message_on_stdout("ready"), WaitFor::seconds(2)];
    let zero = Duration::from_millis(0);
    let long = Duration::from_secs(5);
    // Waiting long does not help while the message is missing.
    assert_eq!(advance(&conditions, 0, &observe("booting", long)), ReadyStep::Waiting { current: 0 });
    // The message moves on to the settle time, not to readiness.
    assert_eq!(advance(&conditions, 0, &observe("ready", zero)), ReadyStep::Waiting { current: 1 });
    assert_eq!(
        advance(&conditions, 1, &observe("ready", Duration::from_millis(1999))),
        ReadyStep::Waiting { current: 1 }
    );
    assert_eq!(
        advance(&conditions, 1, &observe("ready", Duration::from_millis(2000))),
        ReadyStep::Ready
    );
}

#[test]
fn no_conditions_means_ready() {
    let conditions: Vec<WaitFor> = vec![];
    assert_eq!(advance(&conditions, 0, &observe("", Duration::from_secs(0))), ReadyStep::Ready);
}

#[test]
fn unhealthy_container_fails() {
    let conditions = vec![WaitFor::Nothing, WaitFor::Healthcheck];
    let mut o = observe("", Duration::from_secs(0));
    assert_eq!(advance(&conditions, 0, &o), ReadyStep::Waiting { current: 1 });
    o.health = HealthStatus::Unhealthy;
    assert_eq!(advance(&conditions, 1, &o), ReadyStep::Failed { at: 1 });
}
