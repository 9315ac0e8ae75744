use tunnel_supervisor::commands::{
    Command, GetHealthCheck, ListContainers, ListTunnels, ServiceHealthCheck, SetContainerStatus,
    ToggleTunnels,
};
use tunnel_supervisor::config::{Service, ServiceSection};
use tunnel_supervisor::healthcheck::{get_healthcheck, section_check, service_check};
use tunnel_supervisor::spring::HealthStatus;
use tunnel_supervisor::text::{chars_of, contains, same_text};

fn service(name: &str) -> Service {
    Service {
        name: name.to_string(),
        url: format!("https://{}.example.test/", name.len()),
        spring_healthcheck: None,
    }
}

#[test]
fn a_service_is_up_unless_it_is_a_storybook() {
    assert!(service_check(&service("Web")).up);
    assert!(!service_check(&service("Storybook")).up);
    assert!(!service_check(&service("Design Storybook (staging)")).up);
    assert!(service_check(&service("storybook")).up);
    assert!(service_check(&service("Storyboo")).up);
    assert!(service_check(&service("")).up);
}

#[test]
fn only_the_api_shows_a_database_and_a_search_cluster() {
    assert_eq!(
        service_check(&service("MDisrupt API")),
        ServiceHealthCheck {
            name: "MDisrupt API".to_string(),
            url: "https://12.example.test/".to_string(),
            up: true,
            db: Some(true),
            elasticsearch: Some(false),
        }
    );
    assert_eq!(
        service_check(&service("MDisrupt API v2")),
        ServiceHealthCheck {
            name: "MDisrupt API v2".to_string(),
            url: "https://15.example.test/".to_string(),
            up: true,
            db: None,
            elasticsearch: None,
        }
    );
}

#[test]
fn the_answer_keeps_sections_and_services_in_order() {
    let sections = vec![
        ServiceSection {
            name: "Backend".to_string(),
            services: vec![service("MDisrupt API"), service("Worker")],
        },
        ServiceSection { name: "Empty".to_string(), services: Vec::new() },
        ServiceSection { name: "Frontend".to_string(), services: vec![service("Storybook")] },
    ];
    let shown = get_healthcheck(&sections);
    assert_eq!(shown.len(), 3);
    assert_eq!(shown[0].name, "Backend");
    assert_eq!(shown[0].services.len(), 2);
    assert_eq!(shown[0].services[1].name, "Worker");
    assert_eq!(shown[0].services[0].db, Some(true));
    assert!(shown[1].services.is_empty());
    assert_eq!(shown[2].name, "Frontend");
    assert!(!shown[2].services[0].up);
    assert!(get_healthcheck(&Vec::new()).is_empty());
    assert_eq!(section_check(&sections[2]).services[0].url, "https://9.example.test/");
}

#[test]
fn contains_finds_a_text_at_any_place() {
    assert!(contains("abc", ""));
    assert!(contains("", ""));
    assert!(!contains("", "a"));
    assert!(contains("abc", "abc"));
    assert!(contains("abc", "a"));
    assert!(contains("abc", "c"));
    assert!(contains("abc", "bc"));
    assert!(!contains("abc", "abcd"));
    assert!(!contains("abc", "ac"));
    assert!(contains("aab", "ab"));
    assert!(contains("héllo wörld", "o wö"));
    assert!(!contains("héllo", "e"));
}

#[test]
fn same_text_compares_character_by_character() {
    assert!(same_text("", ""));
    assert!(same_text("tunnel", "tunnel"));
    assert!(!same_text("tunnel", "Tunnel"));
    assert!(!same_text("tunnel", "tunnels"));
    assert_eq!(chars_of("añb"), vec!['a', 'ñ', 'b']);
    assert!(chars_of("").is_empty());
}

#[test]
fn every_command_has_its_name() {
    assert_eq!(ListContainers::name(), "containers_list");
    assert_eq!(SetContainerStatus::name(), "set_container");
    assert_eq!(ListTunnels::name(), "tunnels_list");
    assert_eq!(ToggleTunnels::name(), "tunnels_toggle");
    assert_eq!(GetHealthCheck::name(), "get_healthcheck");
}

#[test]
fn only_up_counts_as_healthy() {
    assert!(bool::from(HealthStatus::UP));
    assert!(!bool::from(HealthStatus::DOWN));
    assert!(!bool::from(HealthStatus::OUT_OF_SERVICE));
    let up: bool = HealthStatus::UP.into();
    assert!(up);
}
