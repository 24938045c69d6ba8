//! The live-session check of test mode: does the operator's own SSH
//! connection survive the reload? (It cannot check brand-new inbound
//! connections, which need an outside vantage point.)

use vstd::prelude::*;

use crate::logging::{LogLevel, LogLine, log_line};
use crate::text::{
    chars_of, contains, contains_chars, split_words, string_of, trim, trim_chars, words,
};

verus! {

/// The client address and port in an `SSH_CONNECTION` value (its first two
/// words, each empty where missing), or `None` for a blank value (a console
/// session, which has nothing to check).
pub open spec fn ssh_endpoint(conn: Seq<char>) -> Option<(Seq<char>, Seq<char>)> {
    if trim(conn).len() == 0 {
        None
    } else {
        let w = words(conn);
        Some(
            (
                if w.len() > 0 {
                    w[0]
                } else {
                    seq![]
                },
                if w.len() > 1 {
                    w[1]
                } else {
                    seq![]
                },
            ),
        )
    }
}

/// The client address and port of the SSH session that `SSH_CONNECTION`
/// (`conn`) describes.
pub fn ssh_client_endpoint(conn: &str) -> (r: Option<(String, String)>)
    ensures
        match r {
            Some((ip, port)) => ssh_endpoint(conn@) == Some((ip@, port@)),
            None => ssh_endpoint(conn@) is None,
        },
{
    let chars = chars_of(conn);
    let t = trim_chars(chars.as_slice());
    if t.len() == 0 {
        return None;
    }
    let w = split_words(chars.as_slice());
    let ip = if w.len() > 0 {
        string_of(w[0].as_slice())
    } else {
        String::new()
    };
    let port = if w.len() > 1 {
        string_of(w[1].as_slice())
    } else {
        String::new()
    };
    Some((ip, port))
}

/// The `ss` filter that selects established connections to the client.
pub open spec fn ss_filter_text(client_ip: Seq<char>, client_port: Seq<char>) -> Seq<char> {
    "( dst "@ + client_ip + " and dport = "@ + client_port + " )"@
}

/// The `ss` filter that selects established connections to the client.
pub fn ss_filter(client_ip: &str, client_port: &str) -> (r: String)
    ensures
        r@ == ss_filter_text(client_ip@, client_port@),
{
    let mut r = String::from_str("( dst ");
    r.append(client_ip);
    r.append(" and dport = ");
    r.append(client_port);
    r.append(" )");
    r
}

/// Whether the session is still listed: the `ss` output mentions the
/// client address.
pub fn session_listed(ss_output: &str, client_ip: &str) -> (r: bool)
    ensures
        r == contains(ss_output@, client_ip@),
{
    let s = chars_of(ss_output);
    let p = chars_of(client_ip);
    contains_chars(s.as_slice(), p.as_slice())
}

/// What the session check learns from the caller.
pub enum SessionEvent {
    /// The value of `SSH_CONNECTION` (empty where it is not set or not
    /// Unicode).
    Connection(String),
    /// `ss` printed `ss_output` for the session of `client_ip`.
    Listed { client_ip: String, ss_output: String },
}

/// What the session check does next.
pub enum SessionAction {
    /// Print `notice`, then run `ss -tn state established <filter>` and
    /// report what it printed for `client_ip`.
    Query { notice: LogLine, client_ip: String, filter: String },
    /// Print `notice`; the session survived (`alive`) or not.
    Conclude { alive: bool, notice: LogLine },
}

/// The decisions of the session check: a console session (no
/// `SSH_CONNECTION`) has nothing to check and passes; otherwise the session
/// survived when `ss` still lists the client's address.
pub fn session_check_step(event: SessionEvent) -> (a: SessionAction)
    ensures
        match event {
            SessionEvent::Connection(conn) => match ssh_endpoint(conn@) {
                None => a matches SessionAction::Conclude { alive, notice } && alive
                    && notice.level == LogLevel::Warning && notice.text@
                    == "No SSH_CONNECTION detected (console/tty session) - skipping live-session check."@,
                Some((ip, port)) => a matches SessionAction::Query { notice, client_ip, filter }
                    && client_ip@ == ip && filter@ == ss_filter_text(ip, port) && notice.level
                    == LogLevel::Honey && notice.text@ == "Verifying current SSH session ("@ + ip
                    + ":"@ + port + ") survived the reload..."@,
            },
            SessionEvent::Listed { client_ip, ss_output } => if contains(
                ss_output@,
                client_ip@,
            ) {
                a matches SessionAction::Conclude { alive, notice } && alive && notice.level
                    == LogLevel::Success && notice.text@ == "Live SSH session confirmed intact."@
            } else {
                a matches SessionAction::Conclude { alive, notice } && !alive && notice.level
                    == LogLevel::Error && notice.text@
                    == "Current SSH session missing from conntrack after reload - rules likely broke it!"@
            },
        },
{
    match event {
        SessionEvent::Connection(conn) => match ssh_client_endpoint(conn.as_str()) {
            None => SessionAction::Conclude {
                alive: true,
                notice: log_line(
                    LogLevel::Warning,
                    "No SSH_CONNECTION detected (console/tty session) - skipping live-session check.",
                ),
            },
            Some((ip, port)) => {
                let mut t = String::from_str("Verifying current SSH session (");
                t.append(ip.as_str());
                t.append(":");
                t.append(port.as_str());
                t.append(") survived the reload...");
                let filter = ss_filter(ip.as_str(), port.as_str());
                SessionAction::Query {
                    notice: LogLine { level: LogLevel::Honey, text: t },
                    client_ip: ip,
                    filter,
                }
            },
        },
        SessionEvent::Listed { client_ip, ss_output } => {
            if session_listed(ss_output.as_str(), client_ip.as_str()) {
                SessionAction::Conclude {
                    alive: true,
                    notice: log_line(LogLevel::Success, "Live SSH session confirmed intact."),
                }
            } else {
                SessionAction::Conclude {
                    alive: false,
                    notice: log_line(
                        LogLevel::Error,
                        "Current SSH session missing from conntrack after reload - rules likely broke it!",
                    ),
                }
            }
        },
    }
}

} // verus!
