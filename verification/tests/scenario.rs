use std::sync::Arc;
use tokio::sync::Mutex;
use tunnel_supervisor::commands::{TunnelState, TunnelStatus};
use tunnel_supervisor::supervisor::SSHTunnels;
use tunnel_supervisor::tunnel::Tunnel;

fn tunnel(name: &str, local_port: u32) -> Tunnel {
    Tunnel {
        name: name.to_string(),
        local_port,
        away_port: 3306,
        away_host: "db.internal".to_string(),
        target: "bastion".to_string(),
        aws_profile: None,
        aws_region: None,
    }
}

fn two() -> SSHTunnels {
    SSHTunnels::from_tunnels(vec![tunnel("Staging", 33007), tunnel("Production", 33006)])
}

#[test]
fn end_to_end_toggle_and_list() {
    let mut tunnels = two();
    assert_eq!(
        tunnels.list().0,
        vec![
            ("Staging".to_string(), TunnelStatus::Disconnected),
            ("Production".to_string(), TunnelStatus::Disconnected),
        ]
    );
    let launch = tunnels.toggle("Production", TunnelState::On).expect("a process to start");
    assert_eq!(launch.index, 1);
    assert_eq!(
        tunnels.list().0,
        vec![
            ("Staging".to_string(), TunnelStatus::Disconnected),
            ("Production".to_string(), TunnelStatus::Connected(33006)),
        ]
    );
    assert!(tunnels.toggle("Production", TunnelState::Off).is_none());
    assert!(launch.signal.is_cancelled());
    assert_eq!(
        tunnels.list().0,
        vec![
            ("Staging".to_string(), TunnelStatus::Disconnected),
            ("Production".to_string(), TunnelStatus::Disconnected),
        ]
    );
}

#[test]
fn listings_between_toggles_are_whole() {
    let mut tunnels = two();
    for round in 0..6 {
        let desired = if round % 2 == 0 { TunnelState::On } else { TunnelState::Off };
        tunnels.toggle("Staging", desired);
        let listing = tunnels.list().0;
        assert_eq!(listing.len(), 2);
        let expected = if round % 2 == 0 {
            TunnelStatus::Connected(33007)
        } else {
            TunnelStatus::Disconnected
        };
        assert_eq!(listing[0], ("Staging".to_string(), expected));
        assert_eq!(listing[1], ("Production".to_string(), TunnelStatus::Disconnected));
    }
}

#[test]
fn concurrent_toggles_and_listings_see_whole_states() {
    let shared = Arc::new(Mutex::new(two()));
    let runtime = tokio::runtime::Builder::new_multi_thread()
        .worker_threads(2)
        .build()
        .expect("a runtime");
    let toggling = {
        let shared = shared.clone();
        runtime.spawn(async move {
            let mut held = Vec::new();
            for round in 0..200 {
                let desired = if round % 2 == 0 { TunnelState::On } else { TunnelState::Off };
                let launch = shared.lock().await.toggle("Staging", desired);
                assert_eq!(launch.is_some(), round % 2 == 0);
                held.extend(launch);
                tokio::task::yield_now().await;
            }
            held.len()
        })
    };
    let listing = {
        let shared = shared.clone();
        runtime.spawn(async move {
            for _ in 0..200 {
                let listing = shared.lock().await.list().0;
                assert_eq!(listing.len(), 2);
                assert_eq!(listing[0].0, "Staging");
                assert!(
                    listing[0].1 == TunnelStatus::Connected(33007)
                        || listing[0].1 == TunnelStatus::Disconnected
                );
                assert_eq!(listing[1], ("Production".to_string(), TunnelStatus::Disconnected));
                tokio::task::yield_now().await;
            }
        })
    };
    assert_eq!(runtime.block_on(toggling).expect("the toggling task"), 100);
    runtime.block_on(listing).expect("the listing task");
    assert_eq!(
        runtime.block_on(async { shared.lock().await.list().0 }),
        vec![
            ("Staging".to_string(), TunnelStatus::Disconnected),
            ("Production".to_string(), TunnelStatus::Disconnected),
        ]
    );
}
