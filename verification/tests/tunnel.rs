use tunnel_supervisor::tunnel::{append_decimal, Tunnel};

fn production() -> Tunnel {
    Tunnel {
        name: "Production".to_string(),
        local_port: 33006,
        away_port: 3306,
        away_host: "db.prod.internal".to_string(),
        target: "ec2-user@bastion.prod".to_string(),
        aws_profile: Some("prod-admin".to_string()),
        aws_region: Some("eu-west-1".to_string()),
    }
}

fn decimal(n: u32) -> String {
    let mut text = String::new();
    append_decimal(&mut text, n);
    text
}

#[test]
fn forward_joins_ports_and_host_with_colons() {
    assert_eq!(production().forward(), "33006:db.prod.internal:3306");
}

#[test]
fn arguments_are_the_option_the_forward_and_the_target() {
    assert_eq!(
        production().arguments(),
        vec![
            "-L".to_string(),
            "33006:db.prod.internal:3306".to_string(),
            "ec2-user@bastion.prod".to_string()
        ]
    );
}

#[test]
fn environment_names_region_then_profile() {
    assert_eq!(
        production().environment(),
        vec![
            ("AWS_REGION".to_string(), "eu-west-1".to_string()),
            ("AWS_PROFILE".to_string(), "prod-admin".to_string()),
        ]
    );
}

#[test]
fn environment_leaves_out_what_is_not_set() {
    let mut tunnel = production();
    tunnel.aws_region = None;
    assert_eq!(
        tunnel.environment(),
        vec![("AWS_PROFILE".to_string(), "prod-admin".to_string())]
    );
    tunnel.aws_profile = None;
    assert!(tunnel.environment().is_empty());
    tunnel.aws_region = Some("us-east-1".to_string());
    assert_eq!(
        tunnel.environment(),
        vec![("AWS_REGION".to_string(), "us-east-1".to_string())]
    );
}

#[test]
fn decimal_numerals_have_no_leading_zero() {
    assert_eq!(decimal(0), "0");
    assert_eq!(decimal(7), "7");
    assert_eq!(decimal(10), "10");
    assert_eq!(decimal(1234567890), "1234567890");
    assert_eq!(decimal(65535), "65535");
    assert_eq!(decimal(u32::MAX), "4294967295");
}

#[test]
fn append_decimal_keeps_what_was_written() {
    let mut text = "port ".to_string();
    append_decimal(&mut text, 8080);
    append_decimal(&mut text, 0);
    assert_eq!(text, "port 80800");
}

#[test]
fn forward_agrees_with_the_formatting_of_std() {
    for (local, away) in [(1u32, 65535u32), (80, 8080), (99, 100), (4294967295, 0)] {
        let mut tunnel = production();
        tunnel.local_port = local;
        tunnel.away_port = away;
        assert_eq!(tunnel.forward(), format!("{}:{}:{}", local, tunnel.away_host, away));
    }
}

#[test]
fn a_tunnel_is_well_formed_with_names_and_ports_in_range() {
    assert!(production().is_well_formed());
    let mut tunnel = production();
    tunnel.local_port = 0;
    assert!(!tunnel.is_well_formed());
    tunnel.local_port = 65535;
    assert!(tunnel.is_well_formed());
    tunnel.away_port = 65536;
    assert!(!tunnel.is_well_formed());
    tunnel.away_port = 1;
    assert!(tunnel.is_well_formed());
    tunnel.name = String::new();
    assert!(!tunnel.is_well_formed());
    tunnel.name = "é".to_string();
    assert!(tunnel.is_well_formed());
    tunnel.away_host = String::new();
    assert!(!tunnel.is_well_formed());
    tunnel.away_host = "h".to_string();
    tunnel.target = String::new();
    assert!(!tunnel.is_well_formed());
}

#[test]
fn open_gives_the_ssh_command() {
    let command = production().open();
    assert_eq!(command.program, "ssh");
    assert_eq!(command.arguments, production().arguments());
    assert_eq!(command.arguments[1], "33006:db.prod.internal:3306");
    assert_eq!(command.environment, production().environment());
    assert!(command.kill_on_drop);
}
