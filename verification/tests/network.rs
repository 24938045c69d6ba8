use oxidizer_firewall::network::{detect_interface_step, InterfaceAction, InterfaceEvent};
use oxidizer_firewall::network::{
    fallback_interfaces, host_from_hostname, link_names, parse_default_route_interface, Host,
};

#[test]
fn parses_dev_interface_from_default_route() {
    let route = "default via 10.0.0.1 dev eth0 proto dhcp metric 100";
    assert_eq!(
        parse_default_route_interface(route),
        Some("eth0".to_string())
    );
}

#[test]
fn returns_none_without_a_default_route() {
    assert_eq!(
        parse_default_route_interface("10.0.0.0/24 dev eth0 scope link"),
        None
    );
}

#[test]
fn first_default_line_decides() {
    let out = "10.0.0.0/24 dev eth1 scope link\ndefault via 10.0.0.1 proto dhcp\ndefault via 10.0.0.2 dev eth2\n";
    assert_eq!(parse_default_route_interface(out), None);
    assert_eq!(parse_default_route_interface("default via 1.1.1.1 dev"), None);
    assert_eq!(
        parse_default_route_interface("x\ndefault dev ens3\n"),
        Some("ens3".to_string())
    );
}

#[test]
fn host_names() {
    assert_eq!(Host::Oxidizer.as_str(), "oxidizer");
    assert_eq!(Host::Cryptlok.as_str(), "cryptlok");
    assert_eq!(Host::Unknown.as_str(), "unknown");
    assert!(Host::Radon.is_radon());
    assert!(!Host::Cobalt.is_radon());
}

#[test]
fn hostname_classification() {
    assert_eq!(host_from_hostname("web-RADON-01\n"), Host::Radon);
    assert_eq!(host_from_hostname("  Tungsten.example\n"), Host::Tungsten);
    assert_eq!(host_from_hostname("radon-oxidizer"), Host::Oxidizer);
    assert_eq!(host_from_hostname("cobalt"), Host::Cobalt);
    assert_eq!(host_from_hostname("CryptLok-2"), Host::Cryptlok);
    assert_eq!(host_from_hostname("mail\n"), Host::Unknown);
    assert_eq!(host_from_hostname(""), Host::Unknown);
}

#[test]
fn fallback_order() {
    assert_eq!(fallback_interfaces(), vec!["eth0", "ens3", "ens18", "enp0s3", "enp1s0"]);
}

#[test]
fn link_listing_names() {
    let listing = "1: lo: <LOOPBACK,UP> mtu 65536\n    link/loopback 00:00:00:00:00:00\n2: eth0: <BROADCAST> mtu 1500\n  3: wg0:: <POINTOPOINT>\n";
    assert_eq!(link_names(listing), vec!["lo", "eth0", "wg0"]);
}

#[test]
fn interface_steps() {
    match detect_interface_step(InterfaceEvent::RouteListed("default via 1.2.3.4 dev ens18\n".to_string())) {
        InterfaceAction::Found(i) => assert_eq!(i, "ens18"),
        _ => panic!("route names the interface"),
    }
    match detect_interface_step(InterfaceEvent::RouteListed(String::new())) {
        InterfaceAction::Probe { candidate, name, notice } => {
            assert_eq!((candidate, name.as_str()), (0, "eth0"));
            assert_eq!(notice.unwrap().text, "Could not auto-detect interface, trying common names...");
        }
        _ => panic!("fallback probing starts"),
    }
    match detect_interface_step(InterfaceEvent::Probed { candidate: 1, exists: false }) {
        InterfaceAction::Probe { candidate, name, notice } => {
            assert_eq!((candidate, name.as_str()), (2, "ens18"));
            assert!(notice.is_none());
        }
        _ => panic!("next candidate"),
    }
    match detect_interface_step(InterfaceEvent::Probed { candidate: 3, exists: true }) {
        InterfaceAction::Found(i) => assert_eq!(i, "enp0s3"),
        _ => panic!("candidate exists"),
    }
    match detect_interface_step(InterfaceEvent::Probed { candidate: 4, exists: false }) {
        InterfaceAction::GiveUp(logs) => assert_eq!(logs[0].text, "Failed to detect network interface!"),
        _ => panic!("no candidate left"),
    }
}
