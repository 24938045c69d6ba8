use oxidizer_firewall::diagnostics::{completion_report, primary_ip};
use oxidizer_firewall::logging::{styled, to_stderr, LogLevel, Output};
use oxidizer_firewall::network::Host;

fn plain(o: &Output) -> Option<&str> {
    match o {
        Output::Plain(s) => Some(s.as_str()),
        Output::Message(_, _) => None,
    }
}

#[test]
fn primary_ip_is_first_address() {
    assert_eq!(primary_ip("10.0.0.7 2001:db8::7 \n"), "10.0.0.7");
    assert_eq!(primary_ip(""), "your-server-ip");
    assert_eq!(primary_ip(" \n"), "your-server-ip");
}

#[test]
fn report_lists_countries_and_ports() {
    let lines = completion_report(
        Host::Radon,
        false,
        true,
        &["CN".to_string(), "IR".to_string()],
        "10.0.0.7",
    );
    let texts: Vec<&str> = lines.iter().filter_map(plain).collect();
    assert!(texts.contains(&"🌍 GeoIP Blocked Countries (2 total):"));
    assert!(texts.contains(&"   CN, IR\n"));
    assert!(texts.contains(&"🛡️  Allowed Inbound Ports for radon:"));
    assert!(texts.contains(&"   • 7909 (SSH - rate limited)"));
    assert!(texts.contains(&"   • 9010 (WebRTC nginx upgrade)"));
    assert!(texts.contains(&"   nmap -sS -p 21,22,23,80,443,3306,8080,3000,3001,9010,7909 10.0.0.7"));
    assert!(texts.iter().any(|t| t.contains("awk -F'/' '{print $NF}'")));
    assert!(lines.iter().any(|o| matches!(o, Output::Message(LogLevel::Success, t) if t == "PERMANENT FIREWALL DEPLOYED (Production Mode Active)\n")));
}

#[test]
fn report_in_test_mode_without_geoip() {
    let lines = completion_report(Host::Cobalt, true, false, &[], "your-server-ip");
    let texts: Vec<&str> = lines.iter().filter_map(plain).collect();
    assert!(!texts.contains(&"   • 9010 (WebRTC nginx upgrade)"));
    assert!(texts.contains(&"⚠️  Rulesets will automatically flush in 1 minute(s)."));
    assert!(lines.iter().any(|o| matches!(o, Output::Message(LogLevel::Warning, t) if t.starts_with("🌍 GeoIP blocking SKIPPED"))));
    assert!(lines.iter().any(|o| matches!(o, Output::Message(LogLevel::Warning, t) if t == "TEST MODE ACTIVE: Safety timer initialized.")));
    assert_eq!(plain(lines.last().unwrap()), Some("=========================================================="));
}

#[test]
fn styles() {
    assert_eq!(styled(LogLevel::Honey, "hi"), "\x1b[38;5;178m🍯 hi\x1b[0m");
    assert_eq!(styled(LogLevel::Success, "ok"), "\x1b[32m✅ ok\x1b[0m");
    assert_eq!(styled(LogLevel::Warning, "w"), "\x1b[33m⚠️  w\x1b[0m");
    assert_eq!(styled(LogLevel::Error, "e"), "\x1b[31m❌ e\x1b[0m");
    assert_eq!(styled(LogLevel::Info, "i"), "\x1b[36mℹ️  i\x1b[0m");
    assert!(to_stderr(LogLevel::Error));
    assert!(!to_stderr(LogLevel::Warning));
}
