use tokio_util::sync::CancellationToken;
use tunnel_supervisor::connection::{conclude, SSHTunnelConnection, SessionEnd};
use tunnel_supervisor::tunnel::Tunnel;

fn staging() -> Tunnel {
    Tunnel {
        name: "Staging".to_string(),
        local_port: 33007,
        away_port: 3306,
        away_host: "db.staging.internal".to_string(),
        target: "bastion.staging".to_string(),
        aws_profile: None,
        aws_region: None,
    }
}

#[test]
fn a_new_connection_is_idle() {
    let mut connection = SSHTunnelConnection::from(staging());
    assert!(!connection.has_session());
    assert!(!connection.signal_fired());
    assert!(!connection.connected());
    assert_eq!(connection.tunnel().name, "Staging");
    assert_eq!(connection.tunnel().local_port, 33007);
}

#[test]
fn connect_twice_starts_one_process() {
    let mut connection = SSHTunnelConnection::from(staging());
    let first = connection.connect();
    let second = connection.connect();
    assert!(first.is_some());
    assert!(second.is_none());
    assert!(connection.connected());
    assert!(!first.unwrap().is_cancelled());
}

#[test]
fn disconnect_on_idle_changes_nothing() {
    let mut connection = SSHTunnelConnection::from(staging());
    connection.disconnect();
    assert!(!connection.has_session());
    connection.disconnect();
    assert!(!connection.connected());
    assert!(connection.connect().is_some());
}

#[test]
fn disconnect_fires_the_signal_and_forgets_the_session() {
    let mut connection = SSHTunnelConnection::from(staging());
    let watch = connection.connect().unwrap();
    assert!(!watch.is_cancelled());
    connection.disconnect();
    assert!(watch.is_cancelled());
    assert!(!connection.has_session());
    assert!(!connection.connected());
}

#[test]
fn a_process_that_ended_is_seen_as_disconnected() {
    let mut connection = SSHTunnelConnection::from(staging());
    let watch = connection.connect().unwrap();
    assert!(connection.connected());
    assert!(!conclude(SessionEnd::Exited, &watch));
    assert!(connection.has_session());
    assert!(connection.signal_fired());
    assert!(!connection.connected());
    assert!(!connection.has_session());
}

#[test]
fn connect_after_the_process_ended_starts_again() {
    let mut connection = SSHTunnelConnection::from(staging());
    let first = connection.connect().unwrap();
    first.cancel();
    let second = connection.connect().expect("a new session");
    assert!(!second.is_cancelled());
    assert!(connection.connected());
    assert!(connection.connect().is_none());
}

#[test]
fn conclude_after_exit_fires_the_signal() {
    let signal = CancellationToken::new();
    assert!(!conclude(SessionEnd::Exited, &signal));
    assert!(signal.is_cancelled());
}

#[test]
fn conclude_after_cancellation_asks_for_the_kill() {
    let signal = CancellationToken::new();
    signal.cancel();
    assert!(conclude(SessionEnd::Cancelled, &signal));
    let untouched = CancellationToken::new();
    assert!(conclude(SessionEnd::Cancelled, &untouched));
    assert!(!untouched.is_cancelled());
}

#[test]
fn observe_keeps_a_running_session_and_drops_an_ended_one() {
    let mut connection = SSHTunnelConnection::from(staging());
    assert!(!connection.observe(false));
    assert!(!connection.observe(true));
    assert!(connection.install(false, CancellationToken::new()));
    assert!(connection.observe(false));
    assert!(connection.has_session());
    let watch = connection.connect();
    assert!(watch.is_none());
    let signal = CancellationToken::new();
    assert!(!connection.install(false, signal.clone()));
    assert!(!connection.observe(true));
    assert!(!connection.has_session());
    assert!(!signal.is_cancelled());
}

#[test]
fn a_session_is_dropped_with_its_signal_fired() {
    let mut connection = SSHTunnelConnection::from(staging());
    let watch = connection.connect().unwrap();
    assert!(!connection.observe(true));
    assert!(watch.is_cancelled());
}

#[test]
fn install_takes_the_signal_only_without_a_running_session() {
    let mut connection = SSHTunnelConnection::from(staging());
    let first = CancellationToken::new();
    let second = CancellationToken::new();
    let third = CancellationToken::new();
    assert!(connection.install(true, first.clone()));
    assert!(!connection.install(false, second.clone()));
    connection.disconnect();
    assert!(first.is_cancelled());
    assert!(!second.is_cancelled());
    assert!(connection.install(false, second.clone()));
    assert!(!second.is_cancelled());
    assert!(connection.install(true, third.clone()));
    assert!(second.is_cancelled());
    assert!(!third.is_cancelled());
    connection.disconnect();
    assert!(third.is_cancelled());
}

#[test]
fn cancel_fires_the_signal_and_reports_disconnected() {
    let mut connection = SSHTunnelConnection::from(staging());
    assert!(!connection.cancel());
    let watch = connection.connect().unwrap();
    assert!(!connection.cancel());
    assert!(watch.is_cancelled());
    assert!(!connection.has_session());
}
