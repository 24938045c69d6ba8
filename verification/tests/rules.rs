use oxidizer_firewall::firewall::{create_main_firewall, flush_ruleset, FirewallStep};
use oxidizer_firewall::geoip::{geoip_ruleset, geoip_step, GeoipAction, GeoipEvent};
use oxidizer_firewall::logging::LogLevel;
use oxidizer_firewall::network::Host;

fn rules(host: Host) -> Vec<String> {
    create_main_firewall(host)
        .into_iter()
        .filter_map(|s| match s {
            FirewallStep::Nft(r) => Some(r),
            FirewallStep::Log(_) => None,
        })
        .collect()
}

#[test]
fn flush_rule() {
    assert_eq!(flush_ruleset(), "flush ruleset");
}

#[test]
fn chains_and_policies_come_first() {
    let r = rules(Host::Cobalt);
    assert_eq!(r[0], "add table inet filter");
    assert_eq!(r[1], "add chain inet filter input { type filter hook input priority 0; policy drop; }");
    assert_eq!(r[2], "add chain inet filter forward { type filter hook forward priority 0; policy drop; }");
    assert_eq!(r[3], "add chain inet filter output { type filter hook output priority 0; policy accept; }");
    assert_eq!(r.len(), 24);
    assert_eq!(r[23], "add rule inet filter output oif lo accept");
}

#[test]
fn ssh_rule_is_rate_limited_on_custom_port() {
    let r = rules(Host::Oxidizer);
    assert!(r.contains(&"add rule inet filter input tcp dport 7909 limit rate 10/minute accept".to_string()));
}

#[test]
fn radon_gets_webrtc_port() {
    let radon = rules(Host::Radon);
    let other = rules(Host::Tungsten);
    let rule = "add rule inet filter input tcp dport 9010 accept".to_string();
    assert!(radon.contains(&rule));
    assert!(!other.contains(&rule));
    assert_eq!(radon.len(), other.len() + 1);
    let steps = create_main_firewall(Host::Radon);
    assert!(steps.iter().any(|s| matches!(s, FirewallStep::Log(l) if l.level == LogLevel::Warning && l.text == "Adding radon-specific input rules...")));
}

#[test]
fn geoip_ruleset_names_countries_and_interface() {
    let text = geoip_ruleset("eth0", &["CN".to_string(), "RU".to_string()]);
    assert!(text.starts_with("# Advanced GeoIP blocking using highly efficient Sets\ninclude \"/var/local/geoipsets/dbip/nftset/ipv4/*.ipv4\"\n"));
    assert!(text.contains("        elements = { $CN.ipv4, $RU.ipv4 }\n"));
    assert!(text.contains("        elements = { $CN.ipv6, $RU.ipv6 }\n"));
    assert!(text.contains("type filter hook ingress device \"eth0\" priority 0; policy accept;"));
    assert!(text.contains("    set trusted_ipv4_set {\n        type ipv4_addr\n        flags interval\n        \n    }"));
    assert!(text.ends_with("        ip6 saddr @country_ipv6_block_set jump log_geoblock_drop_v6\n    }\n}\n"));
}

#[test]
fn non_radon_hosts_share_rules() {
    assert_eq!(rules(Host::Oxidizer), rules(Host::Cobalt));
    assert_eq!(rules(Host::Tungsten), rules(Host::Cryptlok));
}

#[test]
fn geoip_steps() {
    let c = ["CN".to_string()];
    assert!(matches!(geoip_step("eth0", &c, GeoipEvent::Begin), GeoipAction::CheckSets { .. }));
    match geoip_step("eth0", &c, GeoipEvent::SetsChecked { present: false }) {
        GeoipAction::Skip(l) => assert_eq!(l.text, "GeoIP sets not found at /var/local/geoipsets/dbip/nftset - skipping GeoIP blocking"),
        _ => panic!("missing sets skip"),
    }
    match geoip_step("eth0", &c, GeoipEvent::SetsChecked { present: true }) {
        GeoipAction::WriteAndLoad { ruleset, notice } => {
            assert_eq!(ruleset, geoip_ruleset("eth0", &c));
            assert_eq!(notice.text, "Loading ingress rules...");
        }
        _ => panic!("sets present: load"),
    }
    match geoip_step("eth0", &c, GeoipEvent::Loaded { ok: false }) {
        GeoipAction::Finish(l) => assert_eq!(l.level, LogLevel::Warning),
        _ => panic!("load result finishes"),
    }
    match geoip_step("eth0", &c, GeoipEvent::Loaded { ok: true }) {
        GeoipAction::Finish(l) => assert_eq!(l.text, "ingress shield configured successfully!"),
        _ => panic!("load result finishes"),
    }
}
