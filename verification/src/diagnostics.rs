//! The summary printed after a successful run: what was installed, how to
//! check it from outside, and what to do next.

use vstd::prelude::*;

use crate::config::{CUSTOM_SSH_PORT, SAFETY_TIMER_MINUTES};
use crate::logging::{LogLevel, Output};
use crate::network::{Host, host_name};
use crate::text::{chars_of, decimal, join, join_comma, push_decimal, split_words, string_of, string_views, words};

verus! {

/// A line of output as the contracts speak of it.
pub enum OutputView {
    Plain(Seq<char>),
    Message(LogLevel, Seq<char>),
}

/// The view of a line of output.
pub open spec fn output_view(o: Output) -> OutputView {
    match o {
        Output::Plain(s) => OutputView::Plain(s@),
        Output::Message(l, s) => OutputView::Message(l, s@),
    }
}

/// The views of a sequence of output lines.
pub open spec fn outputs_view(v: Seq<Output>) -> Seq<OutputView> {
    v.map_values(|o: Output| output_view(o))
}

/// The address to show in the scan commands: the first address that
/// `hostname -I` printed, or a placeholder when it printed none.
pub open spec fn primary_ip_text(hostname_output: Seq<char>) -> Seq<char> {
    let w = words(hostname_output);
    if w.len() > 0 {
        w[0]
    } else {
        "your-server-ip"@
    }
}

/// The address to show in the scan commands, from what `hostname -I`
/// printed (empty when it could not be run).
pub fn primary_ip(hostname_output: &str) -> (r: String)
    ensures
        r@ == primary_ip_text(hostname_output@),
{
    let chars = chars_of(hostname_output);
    let w = split_words(chars.as_slice());
    if w.len() > 0 {
        string_of(w[0].as_slice())
    } else {
        String::from_str("your-server-ip")
    }
}

fn push_plain(v: &mut Vec<Output>, text: &str)
    ensures
        outputs_view(final(v)@) == outputs_view(old(v)@).push(OutputView::Plain(text@)),
{
    v.push(Output::Plain(String::from_str(text)));
    assert(outputs_view(v@) =~= outputs_view(old(v)@).push(OutputView::Plain(text@)));
}

fn push_plain_string(v: &mut Vec<Output>, text: String)
    ensures
        outputs_view(final(v)@) == outputs_view(old(v)@).push(OutputView::Plain(text@)),
{
    let ghost t = text@;
    v.push(Output::Plain(text));
    assert(outputs_view(v@) =~= outputs_view(old(v)@).push(OutputView::Plain(t)));
}

fn push_message(v: &mut Vec<Output>, level: LogLevel, text: &str)
    ensures
        outputs_view(final(v)@) == outputs_view(old(v)@).push(OutputView::Message(level, text@)),
{
    v.push(Output::Message(level, String::from_str(text)));
    assert(outputs_view(v@) =~= outputs_view(old(v)@).push(OutputView::Message(level, text@)));
}

/// The banner and the commands that list the installed tables.
pub open spec fn intro_lines() -> Seq<OutputView> {
    seq![
        OutputView::Plain("=========================================================="@),
        OutputView::Message(LogLevel::Success, "nftables inet firewall configured successfully!"@),
        OutputView::Plain("==========================================================\n"@),
        OutputView::Plain("📊 Firewall Statistics & Verification Commands:"@),
        OutputView::Plain("   nft list ruleset                             # View all rules"@),
        OutputView::Plain("   nft list table netdev filter                 # View Tier-2 netdev-ingress GeoIP rules"@),
        OutputView::Plain("   nft list table inet filter                   # View standard input/output rules\n"@),
    ]
}

/// How many countries are blocked, and which.
pub open spec fn geo_on_lines(blocked: Seq<Seq<char>>) -> Seq<OutputView> {
    seq![
        OutputView::Plain("🌍 GeoIP Blocked Countries ("@ + decimal(blocked.len()) + " total):"@),
        OutputView::Plain("   "@ + join(blocked, ", "@) + "\n"@),
    ]
}

/// The note that GeoIP blocking was skipped.
pub open spec fn geo_off_lines() -> Seq<OutputView> {
    seq![
        OutputView::Message(LogLevel::Warning, "🌍 GeoIP blocking SKIPPED this run (--geoipblock=false) - netdev table was not created."@),
        OutputView::Plain(""@),
    ]
}

/// The inbound ports that every host allows.
pub open spec fn ports_head_lines(host: Host) -> Seq<OutputView> {
    seq![
        OutputView::Plain("🛡️  Allowed Inbound Ports for "@ + host_name(host) + ":"@),
        OutputView::Plain("   • "@ + decimal(CUSTOM_SSH_PORT as nat) + " (SSH - rate limited)"@),
        OutputView::Plain("   • 443 (HTTPS)"@),
        OutputView::Plain("   • 80 (HTTP - for ACME/Let's Encrypt)"@),
    ]
}

/// The extra inbound port of radon.
pub open spec fn ports_radon_lines() -> Seq<OutputView> {
    seq![
        OutputView::Plain("   • 9010 (WebRTC nginx upgrade)"@),
    ]
}

/// The blank line after the port list.
pub open spec fn ports_tail_lines() -> Seq<OutputView> {
    seq![
        OutputView::Plain(""@),
    ]
}

/// The localhost-only ports, the port scans that check the rules from outside, and the log queries.
pub open spec fn probes_lines(primary_ip: Seq<char>) -> Seq<OutputView> {
    seq![
        OutputView::Plain("🚫 Explicitly Restricted to Localhost Only (iif != lo rejected):"@),
        OutputView::Plain("   • 3000 (nginx upstream)"@),
        OutputView::Plain("   • 3001 (postgrest instance)\n"@),
        OutputView::Plain("🔍 Port Scanning Tests (from external machine):"@),
        OutputView::Plain("   nmap -sS -p 21,22,23,80,443,3306,8080,3000,3001,9010,"@ + decimal(CUSTOM_SSH_PORT as nat) + " "@ + primary_ip),
        OutputView::Plain("   # Expected output logic:"@),
        OutputView::Plain("   #   • OPEN: 80, 443, "@ + decimal(CUSTOM_SSH_PORT as nat) + " (and 9010 on radon)"@),
        OutputView::Plain("   #   • FILTERED/CLOSED: 21, 22, 23, 3306, 8080, 3000, 3001\n"@),
        OutputView::Plain("   nmap -sU -p 53,123,3000,3001 "@ + primary_ip + "  # UDP scan (all should show closed/filtered)\n"@),
        OutputView::Plain("📋 View Live Security & Dropped Traffic Logs:"@),
        OutputView::Plain("   journalctl -fk | grep -E 'GEOBLOCK-DROP|USER-BLOCK'"@),
        OutputView::Plain("   journalctl --since '1 hour ago' -k | grep -E 'GEOBLOCK|USER' | wc -l"@),
        OutputView::Plain("   Top 10 blocked IPs by country (copy/paste to run):"@),
        OutputView::Plain("   echo -e \"Hits\\tIP Address\\tCountry\\n====\\t==========\\t=======\"\n   journalctl -k -n 5000 | sed -n 's/.*kernel: GEOBLOCK-DROP-V4:.*SRC=\\([0-9.]*\\).*/\\1/p' \\\n     | sort | uniq -c | sort -rn | head -n 10 \\\n     | while read -r count ip; do\n         country=$(grep -rl \"$ip\" /var/local/geoipsets/dbip/nftset/ipv4/ 2>/dev/null | head -n 1 | awk -F'/' '{print $NF}' | awk -F'.' '{print $1}')\n         [[ -z \"$country\" ]] && country=\"UNKNOWN\"\n         echo -e \"$count\\t$ip\\t$country\"\n       done"@),
        OutputView::Plain(""@),
        OutputView::Plain("=========================================================="@),
    ]
}

/// The test-mode note: the rules flush themselves unless the timer is cancelled.
pub open spec fn test_lines() -> Seq<OutputView> {
    seq![
        OutputView::Message(LogLevel::Warning, "TEST MODE ACTIVE: Safety timer initialized."@),
        OutputView::Plain("⚠️  Rulesets will automatically flush in "@ + decimal(SAFETY_TIMER_MINUTES as nat) + " minute(s)."@),
        OutputView::Plain("   Execute 'atq' and 'atrm <job_id>' to cancel this auto-flush safety net.\n"@),
    ]
}

/// The production-mode note: how to keep the rules across reboots.
pub open spec fn prod_lines() -> Seq<OutputView> {
    seq![
        OutputView::Message(LogLevel::Success, "PERMANENT FIREWALL DEPLOYED (Production Mode Active)\n"@),
        OutputView::Plain("\x1b[33m\x1b[1m💾 CRITICAL ACTION REQUIRED TO PERSIST ACROSS REBOOTS:\x1b[0m"@),
        OutputView::Plain("   👉 nft list ruleset > /etc/nftables.conf     # Freeze running configurations to disk"@),
        OutputView::Plain("   👉 systemctl enable nftables         # Configure systemd core startup bindings"@),
        OutputView::Plain("   👉 systemctl restart nftables        # Verify systemd service sync execution\n"@),
    ]
}

/// The closing line.
pub open spec fn closing_lines() -> Seq<OutputView> {
    seq![
        OutputView::Message(LogLevel::Success, "🐝 Secure and locked down, dear autonomous-ai, agentic-ai or human!"@),
        OutputView::Plain("=========================================================="@),
    ]
}

fn push_intro(v: &mut Vec<Output>)
    ensures
        outputs_view(final(v)@) == outputs_view(old(v)@) + intro_lines(),
{
    push_plain(v, "==========================================================");
    push_message(v, LogLevel::Success, "nftables inet firewall configured successfully!");
    push_plain(v, "==========================================================\n");
    push_plain(v, "📊 Firewall Statistics & Verification Commands:");
    push_plain(v, "   nft list ruleset                             # View all rules");
    push_plain(v, "   nft list table netdev filter                 # View Tier-2 netdev-ingress GeoIP rules");
    push_plain(v, "   nft list table inet filter                   # View standard input/output rules\n");
    assert(outputs_view(v@) =~= outputs_view(old(v)@) + intro_lines());
}

fn push_geo_on(v: &mut Vec<Output>, blocked_countries: &[String])
    ensures
        outputs_view(final(v)@) == outputs_view(old(v)@) + geo_on_lines(string_views(blocked_countries@)),
{
    {
        let mut s = String::new();
        s.append("🌍 GeoIP Blocked Countries (");
        push_decimal(&mut s, blocked_countries.len() as u64);
        s.append(" total):");
        push_plain_string(v, s);
    }
    {
        let mut s = String::new();
        s.append("   ");
        s.append(join_comma(blocked_countries).as_str());
        s.append("\n");
        push_plain_string(v, s);
    }
    assert(outputs_view(v@) =~= outputs_view(old(v)@) + geo_on_lines(string_views(blocked_countries@)));
}

fn push_geo_off(v: &mut Vec<Output>)
    ensures
        outputs_view(final(v)@) == outputs_view(old(v)@) + geo_off_lines(),
{
    push_message(v, LogLevel::Warning, "🌍 GeoIP blocking SKIPPED this run (--geoipblock=false) - netdev table was not created.");
    push_plain(v, "");
    assert(outputs_view(v@) =~= outputs_view(old(v)@) + geo_off_lines());
}

fn push_ports_head(v: &mut Vec<Output>, host: Host)
    ensures
        outputs_view(final(v)@) == outputs_view(old(v)@) + ports_head_lines(host),
{
    {
        let mut s = String::new();
        s.append("🛡️  Allowed Inbound Ports for ");
        s.append(host.as_str());
        s.append(":");
        push_plain_string(v, s);
    }
    {
        let mut s = String::new();
        s.append("   • ");
        push_decimal(&mut s, CUSTOM_SSH_PORT as u64);
        s.append(" (SSH - rate limited)");
        push_plain_string(v, s);
    }
    push_plain(v, "   • 443 (HTTPS)");
    push_plain(v, "   • 80 (HTTP - for ACME/Let's Encrypt)");
    assert(outputs_view(v@) =~= outputs_view(old(v)@) + ports_head_lines(host));
}

fn push_ports_radon(v: &mut Vec<Output>)
    ensures
        outputs_view(final(v)@) == outputs_view(old(v)@) + ports_radon_lines(),
{
    push_plain(v, "   • 9010 (WebRTC nginx upgrade)");
    assert(outputs_view(v@) =~= outputs_view(old(v)@) + ports_radon_lines());
}

fn push_ports_tail(v: &mut Vec<Output>)
    ensures
        outputs_view(final(v)@) == outputs_view(old(v)@) + ports_tail_lines(),
{
    push_plain(v, "");
    assert(outputs_view(v@) =~= outputs_view(old(v)@) + ports_tail_lines());
}

fn push_probes(v: &mut Vec<Output>, primary_ip: &str)
    ensures
        outputs_view(final(v)@) == outputs_view(old(v)@) + probes_lines(primary_ip@),
{
    push_plain(v, "🚫 Explicitly Restricted to Localhost Only (iif != lo rejected):");
    push_plain(v, "   • 3000 (nginx upstream)");
    push_plain(v, "   • 3001 (postgrest instance)\n");
    push_plain(v, "🔍 Port Scanning Tests (from external machine):");
    {
        let mut s = String::new();
        s.append("   nmap -sS -p 21,22,23,80,443,3306,8080,3000,3001,9010,");
        push_decimal(&mut s, CUSTOM_SSH_PORT as u64);
        s.append(" ");
        s.append(primary_ip);
        push_plain_string(v, s);
    }
    push_plain(v, "   # Expected output logic:");
    {
        let mut s = String::new();
        s.append("   #   • OPEN: 80, 443, ");
        push_decimal(&mut s, CUSTOM_SSH_PORT as u64);
        s.append(" (and 9010 on radon)");
        push_plain_string(v, s);
    }
    push_plain(v, "   #   • FILTERED/CLOSED: 21, 22, 23, 3306, 8080, 3000, 3001\n");
    {
        let mut s = String::new();
        s.append("   nmap -sU -p 53,123,3000,3001 ");
        s.append(primary_ip);
        s.append("  # UDP scan (all should show closed/filtered)\n");
        push_plain_string(v, s);
    }
    push_plain(v, "📋 View Live Security & Dropped Traffic Logs:");
    push_plain(v, "   journalctl -fk | grep -E 'GEOBLOCK-DROP|USER-BLOCK'");
    push_plain(v, "   journalctl --since '1 hour ago' -k | grep -E 'GEOBLOCK|USER' | wc -l");
    push_plain(v, "   Top 10 blocked IPs by country (copy/paste to run):");
    push_plain(v, "   echo -e \"Hits\\tIP Address\\tCountry\\n====\\t==========\\t=======\"\n   journalctl -k -n 5000 | sed -n 's/.*kernel: GEOBLOCK-DROP-V4:.*SRC=\\([0-9.]*\\).*/\\1/p' \\\n     | sort | uniq -c | sort -rn | head -n 10 \\\n     | while read -r count ip; do\n         country=$(grep -rl \"$ip\" /var/local/geoipsets/dbip/nftset/ipv4/ 2>/dev/null | head -n 1 | awk -F'/' '{print $NF}' | awk -F'.' '{print $1}')\n         [[ -z \"$country\" ]] && country=\"UNKNOWN\"\n         echo -e \"$count\\t$ip\\t$country\"\n       done");
    push_plain(v, "");
    push_plain(v, "==========================================================");
    assert(outputs_view(v@) =~= outputs_view(old(v)@) + probes_lines(primary_ip@));
}

fn push_test(v: &mut Vec<Output>)
    ensures
        outputs_view(final(v)@) == outputs_view(old(v)@) + test_lines(),
{
    push_message(v, LogLevel::Warning, "TEST MODE ACTIVE: Safety timer initialized.");
    {
        let mut s = String::new();
        s.append("⚠️  Rulesets will automatically flush in ");
        push_decimal(&mut s, SAFETY_TIMER_MINUTES);
        s.append(" minute(s).");
        push_plain_string(v, s);
    }
    push_plain(v, "   Execute 'atq' and 'atrm <job_id>' to cancel this auto-flush safety net.\n");
    assert(outputs_view(v@) =~= outputs_view(old(v)@) + test_lines());
}

fn push_prod(v: &mut Vec<Output>)
    ensures
        outputs_view(final(v)@) == outputs_view(old(v)@) + prod_lines(),
{
    push_message(v, LogLevel::Success, "PERMANENT FIREWALL DEPLOYED (Production Mode Active)\n");
    push_plain(v, "\x1b[33m\x1b[1m💾 CRITICAL ACTION REQUIRED TO PERSIST ACROSS REBOOTS:\x1b[0m");
    push_plain(v, "   👉 nft list ruleset > /etc/nftables.conf     # Freeze running configurations to disk");
    push_plain(v, "   👉 systemctl enable nftables         # Configure systemd core startup bindings");
    push_plain(v, "   👉 systemctl restart nftables        # Verify systemd service sync execution\n");
    assert(outputs_view(v@) =~= outputs_view(old(v)@) + prod_lines());
}

fn push_closing(v: &mut Vec<Output>)
    ensures
        outputs_view(final(v)@) == outputs_view(old(v)@) + closing_lines(),
{
    push_message(v, LogLevel::Success, "🐝 Secure and locked down, dear autonomous-ai, agentic-ai or human!");
    push_plain(v, "==========================================================");
    assert(outputs_view(v@) =~= outputs_view(old(v)@) + closing_lines());
}

/// The summary after a successful run, line by line.
pub open spec fn completion_report_lines(
    host: Host,
    is_test_mode: bool,
    geoip_enabled: bool,
    blocked: Seq<Seq<char>>,
    primary_ip: Seq<char>,
) -> Seq<OutputView> {
    intro_lines() + (if geoip_enabled {
        geo_on_lines(blocked)
    } else {
        geo_off_lines()
    }) + ports_head_lines(host) + (if host == Host::Radon {
        ports_radon_lines()
    } else {
        seq![]
    }) + ports_tail_lines() + probes_lines(primary_ip) + (if is_test_mode {
        test_lines()
    } else {
        prod_lines()
    }) + closing_lines()
}

/// The summary to print after a successful run for `host`: the tables to
/// inspect, the blocked countries (or that GeoIP was skipped), the open
/// ports (9010 only on radon), the scans to run against `primary_ip`, and
/// the note for test or production mode.
pub fn completion_report(
    host: Host,
    is_test_mode: bool,
    geoip_enabled: bool,
    blocked_countries: &[String],
    primary_ip: &str,
) -> (r: Vec<Output>)
    ensures
        outputs_view(r@) == completion_report_lines(
            host,
            is_test_mode,
            geoip_enabled,
            string_views(blocked_countries@),
            primary_ip@,
        ),
{
    let mut v: Vec<Output> = Vec::new();
    push_intro(&mut v);
    if geoip_enabled {
        push_geo_on(&mut v, blocked_countries);
    } else {
        push_geo_off(&mut v);
    }
    push_ports_head(&mut v, host);
    let ghost before_radon = outputs_view(v@);
    if host.is_radon() {
        push_ports_radon(&mut v);
    } else {
        assert(outputs_view(v@) =~= before_radon + Seq::<OutputView>::empty());
    }
    push_ports_tail(&mut v);
    push_probes(&mut v, primary_ip);
    if is_test_mode {
        push_test(&mut v);
    } else {
        push_prod(&mut v);
    }
    push_closing(&mut v);
    assert(outputs_view(v@) =~= completion_report_lines(
        host,
        is_test_mode,
        geoip_enabled,
        string_views(blocked_countries@),
        primary_ip@,
    ));
    v
}

/// `x` occurs in `a + b` exactly when it occurs in `a` or in `b`.
proof fn lemma_concat_contains(a: Seq<OutputView>, b: Seq<OutputView>, x: OutputView)
    ensures
        (a + b).contains(x) <==> (a.contains(x) || b.contains(x)),
{
    if (a + b).contains(x) {
        let i = choose|i: int| 0 <= i < (a + b).len() && (a + b)[i] == x;
        if i < a.len() {
            assert(a[i] == x);
        } else {
            assert(b[i - a.len()] == x);
        }
    }
    if a.contains(x) {
        let i = choose|i: int| 0 <= i < a.len() && a[i] == x;
        assert((a + b)[i] == x);
    }
    if b.contains(x) {
        let i = choose|i: int| 0 <= i < b.len() && b[i] == x;
        assert((a + b)[a.len() + i] == x);
    }
}

/// The note for the mode follows the mode: the summary holds the test-mode
/// warning exactly in test mode and the production-mode notice exactly
/// outside it, whatever the host, the GeoIP setting, the countries and the
/// address.
#[verifier::rlimit(60)]
pub proof fn law_mode_note_follows_mode(
    host: Host,
    is_test_mode: bool,
    geoip_enabled: bool,
    blocked: Seq<Seq<char>>,
    primary_ip: Seq<char>,
)
    ensures
        ({
            let r = completion_report_lines(host, is_test_mode, geoip_enabled, blocked, primary_ip);
            &&& r.contains(OutputView::Message(LogLevel::Warning, "TEST MODE ACTIVE: Safety timer initialized."@))
                <==> is_test_mode
            &&& r.contains(OutputView::Message(LogLevel::Success, "PERMANENT FIREWALL DEPLOYED (Production Mode Active)\n"@))
                <==> !is_test_mode
        }),
{
    let t = OutputView::Message(LogLevel::Warning, "TEST MODE ACTIVE: Safety timer initialized."@);
    let p = OutputView::Message(LogLevel::Success, "PERMANENT FIREWALL DEPLOYED (Production Mode Active)\n"@);
    reveal_strlit("TEST MODE ACTIVE: Safety timer initialized.");
    reveal_strlit("PERMANENT FIREWALL DEPLOYED (Production Mode Active)\n");
    reveal_strlit("nftables inet firewall configured successfully!");
    reveal_strlit("🌍 GeoIP blocking SKIPPED this run (--geoipblock=false) - netdev table was not created.");
    reveal_strlit("🐝 Secure and locked down, dear autonomous-ai, agentic-ai or human!");
    let geo = if geoip_enabled { geo_on_lines(blocked) } else { geo_off_lines() };
    let radon = if host == Host::Radon { ports_radon_lines() } else { seq![] };
    let mode = if is_test_mode { test_lines() } else { prod_lines() };
    let front = intro_lines() + geo + ports_head_lines(host) + radon + ports_tail_lines()
        + probes_lines(primary_ip);
    let r = completion_report_lines(host, is_test_mode, geoip_enabled, blocked, primary_ip);
    assert(r == front + mode + closing_lines());
    assert forall|x: OutputView| x == t || x == p implies !front.contains(x) && !closing_lines().contains(
        x,
    ) by {
        assert("nftables inet firewall configured successfully!"@[0] != "PERMANENT FIREWALL DEPLOYED (Production Mode Active)\n"@[0]);
        assert(intro_lines()[1] != x);
        assert(!intro_lines().contains(x));
        assert(geo_off_lines()[0] != x) by {
            assert("🌍 GeoIP blocking SKIPPED this run (--geoipblock=false) - netdev table was not created."@[0]
                != "TEST MODE ACTIVE: Safety timer initialized."@[0]);
        }
        assert(!geo.contains(x));
        assert(!ports_head_lines(host).contains(x));
        assert(!radon.contains(x));
        assert(!ports_tail_lines().contains(x));
        assert(!probes_lines(primary_ip).contains(x));
        lemma_concat_contains(intro_lines(), geo, x);
        lemma_concat_contains(intro_lines() + geo, ports_head_lines(host), x);
        lemma_concat_contains(intro_lines() + geo + ports_head_lines(host), radon, x);
        lemma_concat_contains(intro_lines() + geo + ports_head_lines(host) + radon, ports_tail_lines(), x);
        lemma_concat_contains(
            intro_lines() + geo + ports_head_lines(host) + radon + ports_tail_lines(),
            probes_lines(primary_ip),
            x,
        );
        assert(!closing_lines().contains(x));
    }
    lemma_concat_contains(front, mode, t);
    lemma_concat_contains(front + mode, closing_lines(), t);
    lemma_concat_contains(front, mode, p);
    lemma_concat_contains(front + mode, closing_lines(), p);
    if is_test_mode {
        assert(mode[0] == t);
        assert(!mode.contains(p));
    } else {
        assert(mode[0] == p);
        assert(!mode.contains(t));
    }
}

/// A line occurs in the summary exactly when it occurs in one of its parts.
proof fn lemma_report_parts(
    host: Host,
    is_test_mode: bool,
    geoip_enabled: bool,
    blocked: Seq<Seq<char>>,
    primary_ip: Seq<char>,
    x: OutputView,
)
    ensures
        completion_report_lines(host, is_test_mode, geoip_enabled, blocked, primary_ip).contains(x)
            <==> {
            ||| intro_lines().contains(x)
            ||| (if geoip_enabled { geo_on_lines(blocked) } else { geo_off_lines() }).contains(x)
            ||| ports_head_lines(host).contains(x)
            ||| (if host == Host::Radon { ports_radon_lines() } else { seq![] }).contains(x)
            ||| ports_tail_lines().contains(x)
            ||| probes_lines(primary_ip).contains(x)
            ||| (if is_test_mode { test_lines() } else { prod_lines() }).contains(x)
            ||| closing_lines().contains(x)
        },
{
    let geo = if geoip_enabled { geo_on_lines(blocked) } else { geo_off_lines() };
    let radon = if host == Host::Radon { ports_radon_lines() } else { seq![] };
    let mode = if is_test_mode { test_lines() } else { prod_lines() };
    let a1 = intro_lines() + geo;
    let a2 = a1 + ports_head_lines(host);
    let a3 = a2 + radon;
    let a4 = a3 + ports_tail_lines();
    let a5 = a4 + probes_lines(primary_ip);
    let a6 = a5 + mode;
    assert(completion_report_lines(host, is_test_mode, geoip_enabled, blocked, primary_ip) == a6
        + closing_lines());
    lemma_concat_contains(intro_lines(), geo, x);
    lemma_concat_contains(a1, ports_head_lines(host), x);
    lemma_concat_contains(a2, radon, x);
    lemma_concat_contains(a3, ports_tail_lines(), x);
    lemma_concat_contains(a4, probes_lines(primary_ip), x);
    lemma_concat_contains(a5, mode, x);
    lemma_concat_contains(a6, closing_lines(), x);
}

/// No line of the summary but radon's port line announces the WebRTC port.
#[verifier::rlimit(100)]
proof fn lemma_report_lacks_webrtc(
    host: Host,
    is_test_mode: bool,
    geoip_enabled: bool,
    blocked: Seq<Seq<char>>,
    primary_ip: Seq<char>,
)
    requires
        host != Host::Radon,
    ensures
        !completion_report_lines(host, is_test_mode, geoip_enabled, blocked, primary_ip).contains(
            OutputView::Plain("   • 9010 (WebRTC nginx upgrade)"@),
        ),
{
    let x = OutputView::Plain("   • 9010 (WebRTC nginx upgrade)"@);
    reveal_strlit("==========================================================");
    reveal_strlit("nftables inet firewall configured successfully!");
    reveal_strlit("==========================================================\n");
    reveal_strlit("📊 Firewall Statistics & Verification Commands:");
    reveal_strlit("   nft list ruleset                             # View all rules");
    reveal_strlit("   nft list table netdev filter                 # View Tier-2 netdev-ingress GeoIP rules");
    reveal_strlit("   nft list table inet filter                   # View standard input/output rules\n");
    reveal_strlit("🌍 GeoIP Blocked Countries (");
    reveal_strlit(" total):");
    reveal_strlit("   ");
    reveal_strlit(", ");
    reveal_strlit("\n");
    reveal_strlit("🌍 GeoIP blocking SKIPPED this run (--geoipblock=false) - netdev table was not created.");
    reveal_strlit("");
    reveal_strlit("🛡️  Allowed Inbound Ports for ");
    reveal_strlit(":");
    reveal_strlit("   • ");
    reveal_strlit(" (SSH - rate limited)");
    reveal_strlit("   • 443 (HTTPS)");
    reveal_strlit("   • 80 (HTTP - for ACME/Let's Encrypt)");
    reveal_strlit("   • 9010 (WebRTC nginx upgrade)");
    reveal_strlit("🚫 Explicitly Restricted to Localhost Only (iif != lo rejected):");
    reveal_strlit("   • 3000 (nginx upstream)");
    reveal_strlit("   • 3001 (postgrest instance)\n");
    reveal_strlit("🔍 Port Scanning Tests (from external machine):");
    reveal_strlit("   nmap -sS -p 21,22,23,80,443,3306,8080,3000,3001,9010,");
    reveal_strlit(" ");
    reveal_strlit("   # Expected output logic:");
    reveal_strlit("   #   • OPEN: 80, 443, ");
    reveal_strlit(" (and 9010 on radon)");
    reveal_strlit("   #   • FILTERED/CLOSED: 21, 22, 23, 3306, 8080, 3000, 3001\n");
    reveal_strlit("   nmap -sU -p 53,123,3000,3001 ");
    reveal_strlit("  # UDP scan (all should show closed/filtered)\n");
    reveal_strlit("📋 View Live Security & Dropped Traffic Logs:");
    reveal_strlit("   journalctl -fk | grep -E 'GEOBLOCK-DROP|USER-BLOCK'");
    reveal_strlit("   journalctl --since '1 hour ago' -k | grep -E 'GEOBLOCK|USER' | wc -l");
    reveal_strlit("   Top 10 blocked IPs by country (copy/paste to run):");
    reveal_strlit("   echo -e \"Hits\\tIP Address\\tCountry\\n====\\t==========\\t=======\"\n   journalctl -k -n 5000 | sed -n 's/.*kernel: GEOBLOCK-DROP-V4:.*SRC=\\([0-9.]*\\).*/\\1/p' \\\n     | sort | uniq -c | sort -rn | head -n 10 \\\n     | while read -r count ip; do\n         country=$(grep -rl \"$ip\" /var/local/geoipsets/dbip/nftset/ipv4/ 2>/dev/null | head -n 1 | awk -F'/' '{print $NF}' | awk -F'.' '{print $1}')\n         [[ -z \"$country\" ]] && country=\"UNKNOWN\"\n         echo -e \"$count\\t$ip\\t$country\"\n       done");
    reveal_strlit("TEST MODE ACTIVE: Safety timer initialized.");
    reveal_strlit("⚠️  Rulesets will automatically flush in ");
    reveal_strlit(" minute(s).");
    reveal_strlit("   Execute 'atq' and 'atrm <job_id>' to cancel this auto-flush safety net.\n");
    reveal_strlit("PERMANENT FIREWALL DEPLOYED (Production Mode Active)\n");
    reveal_strlit("\x1b[33m\x1b[1m💾 CRITICAL ACTION REQUIRED TO PERSIST ACROSS REBOOTS:\x1b[0m");
    reveal_strlit("   👉 nft list ruleset > /etc/nftables.conf     # Freeze running configurations to disk");
    reveal_strlit("   👉 systemctl enable nftables         # Configure systemd core startup bindings");
    reveal_strlit("   👉 systemctl restart nftables        # Verify systemd service sync execution\n");
    reveal_strlit("🐝 Secure and locked down, dear autonomous-ai, agentic-ai or human!");
    lemma_report_parts(host, is_test_mode, geoip_enabled, blocked, primary_ip, x);
    let w = "   • 9010 (WebRTC nginx upgrade)"@;
    assert(w[0] == ' ' && w[3] == '•' && w[w.len() - 1] == ')');
    assert(intro_lines()[0] != x);
    assert(intro_lines()[1] != x);
    assert(intro_lines()[2] != x);
    assert(intro_lines()[3] != x);
    assert(intro_lines()[4] != x);
    assert(intro_lines()[5] != x);
    assert(intro_lines()[6] != x);
    assert(!intro_lines().contains(x));
    let count_line = "🌍 GeoIP Blocked Countries ("@ + decimal(blocked.len()) + " total):"@;
    assert(count_line[0] != w[0]);
    let list_line = "   "@ + join(blocked, ", "@) + "\n"@;
    assert(list_line[list_line.len() - 1] != w[w.len() - 1]);
    assert(geo_on_lines(blocked)[0] != x);
    assert(geo_on_lines(blocked)[1] != x);
    assert(!geo_on_lines(blocked).contains(x));
    assert(!geo_off_lines().contains(x));
    reveal_with_fuel(decimal, 5);
    reveal_strlit("7909");
    assert(decimal(7909) =~= "7909"@);
    let host_line = "🛡️  Allowed Inbound Ports for "@ + host_name(host) + ":"@;
    assert(host_line[0] != w[0]);
    let ssh_line = "   • "@ + decimal(CUSTOM_SSH_PORT as nat) + " (SSH - rate limited)"@;
    assert(ssh_line[5] == '7');
    assert(w[5] == '9');
    assert(ports_head_lines(host)[0] != x);
    assert(ports_head_lines(host)[1] != x);
    assert(ports_head_lines(host)[2] != x);
    assert(ports_head_lines(host)[3] != x);
    assert(!ports_head_lines(host).contains(x));
    assert(!Seq::<OutputView>::empty().contains(x));
    assert(!ports_tail_lines().contains(x));
    assert(!probes_lines(primary_ip).contains(x));
    assert(!test_lines().contains(x));
    assert(!prod_lines().contains(x));
    assert(!closing_lines().contains(x));
}

/// The summary follows the run's settings: it says that GeoIP blocking
/// was skipped exactly when it was off, and otherwise lists the blocked
/// countries; it lists the SSH port 7909, HTTPS (443) and HTTP (80) for
/// every host, and the WebRTC port 9010 exactly for radon.
#[verifier::rlimit(80)]
pub proof fn law_report_follows_settings(
    host: Host,
    is_test_mode: bool,
    geoip_enabled: bool,
    blocked: Seq<Seq<char>>,
    primary_ip: Seq<char>,
)
    ensures
        ({
            let r = completion_report_lines(host, is_test_mode, geoip_enabled, blocked, primary_ip);
            &&& r.contains(OutputView::Message(LogLevel::Warning, "🌍 GeoIP blocking SKIPPED this run (--geoipblock=false) - netdev table was not created."@))
                <==> !geoip_enabled
            &&& geoip_enabled ==> r.contains(OutputView::Plain("   "@ + join(blocked, ", "@) + "\n"@))
            &&& r.contains(OutputView::Plain("   • 7909 (SSH - rate limited)"@))
            &&& r.contains(OutputView::Plain("   • 443 (HTTPS)"@))
            &&& r.contains(OutputView::Plain("   • 80 (HTTP - for ACME/Let's Encrypt)"@))
            &&& r.contains(OutputView::Plain("   • 9010 (WebRTC nginx upgrade)"@)) <==> host == Host::Radon
            &&& geoip_enabled ==> r.contains(OutputView::Plain("🌍 GeoIP Blocked Countries ("@ + decimal(blocked.len()) + " total):"@))
            &&& r.contains(OutputView::Plain("   nmap -sS -p 21,22,23,80,443,3306,8080,3000,3001,9010,7909 "@ + primary_ip))
            &&& r.contains(OutputView::Plain("   nmap -sU -p 53,123,3000,3001 "@ + primary_ip + "  # UDP scan (all should show closed/filtered)\n"@))
        }),
{
    let r = completion_report_lines(host, is_test_mode, geoip_enabled, blocked, primary_ip);
    let skip = OutputView::Message(LogLevel::Warning, "🌍 GeoIP blocking SKIPPED this run (--geoipblock=false) - netdev table was not created."@);
    let webrtc = OutputView::Plain("   • 9010 (WebRTC nginx upgrade)"@);
    reveal_with_fuel(decimal, 5);
    reveal_strlit("7909");
    assert(decimal(7909) =~= "7909"@);
    reveal_strlit("   • ");
    reveal_strlit(" (SSH - rate limited)");
    reveal_strlit("   • 7909 (SSH - rate limited)");
    assert("   • "@ + decimal(CUSTOM_SSH_PORT as nat) + " (SSH - rate limited)"@ =~= "   • 7909 (SSH - rate limited)"@);
    let ssh = OutputView::Plain("   • 7909 (SSH - rate limited)"@);
    let https = OutputView::Plain("   • 443 (HTTPS)"@);
    let http = OutputView::Plain("   • 80 (HTTP - for ACME/Let's Encrypt)"@);
    assert(ports_head_lines(host)[1] == ssh);
    assert(ports_head_lines(host)[2] == https);
    assert(ports_head_lines(host)[3] == http);
    lemma_report_parts(host, is_test_mode, geoip_enabled, blocked, primary_ip, ssh);
    lemma_report_parts(host, is_test_mode, geoip_enabled, blocked, primary_ip, https);
    lemma_report_parts(host, is_test_mode, geoip_enabled, blocked, primary_ip, http);
    lemma_report_parts(host, is_test_mode, geoip_enabled, blocked, primary_ip, skip);
    lemma_report_parts(host, is_test_mode, geoip_enabled, blocked, primary_ip, webrtc);
    let tcp_scan = OutputView::Plain("   nmap -sS -p 21,22,23,80,443,3306,8080,3000,3001,9010,7909 "@ + primary_ip);
    let udp_scan = OutputView::Plain("   nmap -sU -p 53,123,3000,3001 "@ + primary_ip + "  # UDP scan (all should show closed/filtered)\n"@);
    reveal_strlit("   nmap -sS -p 21,22,23,80,443,3306,8080,3000,3001,9010,");
    reveal_strlit(" ");
    reveal_strlit("   nmap -sS -p 21,22,23,80,443,3306,8080,3000,3001,9010,7909 ");
    assert("   nmap -sS -p 21,22,23,80,443,3306,8080,3000,3001,9010,"@ + decimal(CUSTOM_SSH_PORT as nat) + " "@
        =~= "   nmap -sS -p 21,22,23,80,443,3306,8080,3000,3001,9010,7909 "@);
    assert("   nmap -sS -p 21,22,23,80,443,3306,8080,3000,3001,9010,"@ + decimal(CUSTOM_SSH_PORT as nat) + " "@ + primary_ip
        =~= "   nmap -sS -p 21,22,23,80,443,3306,8080,3000,3001,9010,7909 "@ + primary_ip);
    assert(probes_lines(primary_ip)[4] == tcp_scan);
    assert(probes_lines(primary_ip)[8] == udp_scan);
    lemma_report_parts(host, is_test_mode, geoip_enabled, blocked, primary_ip, tcp_scan);
    lemma_report_parts(host, is_test_mode, geoip_enabled, blocked, primary_ip, udp_scan);
    if geoip_enabled {
        let count = OutputView::Plain("🌍 GeoIP Blocked Countries ("@ + decimal(blocked.len()) + " total):"@);
        assert(geo_on_lines(blocked)[0] == count);
        lemma_report_parts(host, is_test_mode, geoip_enabled, blocked, primary_ip, count);
        let on = OutputView::Plain("   "@ + join(blocked, ", "@) + "\n"@);
        assert(geo_on_lines(blocked)[1] == on);
        lemma_report_parts(host, is_test_mode, geoip_enabled, blocked, primary_ip, on);
        reveal_strlit("🌍 GeoIP blocking SKIPPED this run (--geoipblock=false) - netdev table was not created.");
        reveal_strlit("TEST MODE ACTIVE: Safety timer initialized.");
        assert(!intro_lines().contains(skip));
        assert(!geo_on_lines(blocked).contains(skip));
        assert(!ports_head_lines(host).contains(skip));
        assert(!ports_tail_lines().contains(skip));
        assert(!probes_lines(primary_ip).contains(skip));
        assert(!closing_lines().contains(skip));
        assert(!test_lines().contains(skip)) by {
            assert("🌍 GeoIP blocking SKIPPED this run (--geoipblock=false) - netdev table was not created."@[0]
                != "TEST MODE ACTIVE: Safety timer initialized."@[0]);
        }
        assert(!prod_lines().contains(skip));
        assert(!ports_radon_lines().contains(skip));
        assert(!Seq::<OutputView>::empty().contains(skip));
    } else {
        assert(geo_off_lines()[0] == skip);
    }
    if host == Host::Radon {
        assert(ports_radon_lines()[0] == webrtc);
    } else {
        lemma_report_lacks_webrtc(host, is_test_mode, geoip_enabled, blocked, primary_ip);
    }
}

} // verus!
