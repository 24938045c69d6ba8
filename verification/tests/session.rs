use oxidizer_firewall::logging::LogLevel;
use oxidizer_firewall::session::{
    session_check_step, session_listed, ss_filter, ssh_client_endpoint, SessionAction, SessionEvent,
};

#[test]
fn endpoint_from_ssh_connection() {
    assert_eq!(
        ssh_client_endpoint("203.0.113.9 51234 198.51.100.2 7909"),
        Some(("203.0.113.9".to_string(), "51234".to_string()))
    );
    assert_eq!(ssh_client_endpoint("   \n"), None);
    assert_eq!(ssh_client_endpoint(""), None);
    assert_eq!(ssh_client_endpoint("  10.0.0.5 "), Some(("10.0.0.5".to_string(), String::new())));
}

#[test]
fn filter_text() {
    assert_eq!(ss_filter("10.0.0.5", "4242"), "( dst 10.0.0.5 and dport = 4242 )");
}

#[test]
fn listed_when_address_appears() {
    let out = "Recv-Q Send-Q Local Address:Port Peer Address:Port\n0 0 10.0.0.1:7909 10.0.0.5:4242\n";
    assert!(session_listed(out, "10.0.0.5"));
    assert!(!session_listed(out, "10.0.0.6"));
    assert!(!session_listed("", "10.0.0.6"));
}

#[test]
fn session_check_steps() {
    match session_check_step(SessionEvent::Connection(String::new())) {
        SessionAction::Conclude { alive, notice } => {
            assert!(alive);
            assert_eq!(notice.level, LogLevel::Warning);
        }
        _ => panic!("a console session passes"),
    }
    match session_check_step(SessionEvent::Connection("10.0.0.5 4242 10.0.0.1 7909".to_string())) {
        SessionAction::Query { notice, client_ip, filter } => {
            assert_eq!(notice.text, "Verifying current SSH session (10.0.0.5:4242) survived the reload...");
            assert_eq!(client_ip, "10.0.0.5");
            assert_eq!(filter, "( dst 10.0.0.5 and dport = 4242 )");
        }
        _ => panic!("an SSH session is queried"),
    }
    match session_check_step(SessionEvent::Listed { client_ip: "10.0.0.5".to_string(), ss_output: "x 10.0.0.5:4242\n".to_string() }) {
        SessionAction::Conclude { alive, notice } => {
            assert!(alive);
            assert_eq!(notice.text, "Live SSH session confirmed intact.");
        }
        _ => panic!("listed session concludes"),
    }
    match session_check_step(SessionEvent::Listed { client_ip: "10.0.0.5".to_string(), ss_output: String::new() }) {
        SessionAction::Conclude { alive, notice } => {
            assert!(!alive);
            assert_eq!(notice.level, LogLevel::Error);
        }
        _ => panic!("missing session concludes"),
    }
}
