//! The layer-3 `inet filter` table: the INPUT / FORWARD / OUTPUT rules
//! that each host gets, in the order they are installed.

use vstd::prelude::*;

use crate::config::CUSTOM_SSH_PORT;
use crate::logging::{LogLevel, LogLine, log_line};
use crate::network::Host;
use crate::text::{decimal, push_decimal};

verus! {

/// One step of installing a ruleset: a message for the operator, or an
/// `nft` invocation with the whole rule as its single argument.
pub enum FirewallStep {
    Log(LogLine),
    Nft(String),
}

/// A step as the contracts speak of it.
pub enum StepView {
    Log(LogLevel, Seq<char>),
    Nft(Seq<char>),
}

/// The view of a step.
pub open spec fn step_view(s: FirewallStep) -> StepView {
    match s {
        FirewallStep::Log(l) => StepView::Log(l.level, l.text@),
        FirewallStep::Nft(r) => StepView::Nft(r@),
    }
}

/// The views of a sequence of steps.
pub open spec fn plan_view(v: Seq<FirewallStep>) -> Seq<StepView> {
    v.map_values(|s: FirewallStep| step_view(s))
}

/// The `nft` argument that empties the whole ruleset.
pub open spec fn flush_rule() -> Seq<char> {
    "flush ruleset"@
}

/// The `nft` argument that empties the whole ruleset.
pub fn flush_ruleset() -> (r: String)
    ensures
        r@ == flush_rule(),
{
    String::from_str("flush ruleset")
}

/// The table, its three chains with their default policies, and the
/// INPUT rules that every host gets before the SSH rule.
pub open spec fn head_plan() -> Seq<StepView> {
    seq![
        StepView::Log(LogLevel::Honey, "Creating inet filter table..."@),
        StepView::Nft("add table inet filter"@),
        StepView::Log(LogLevel::Honey, "Creating chains with policies..."@),
        StepView::Nft("add chain inet filter input { type filter hook input priority 0; policy drop; }"@),
        StepView::Nft("add chain inet filter forward { type filter hook forward priority 0; policy drop; }"@),
        StepView::Nft("add chain inet filter output { type filter hook output priority 0; policy accept; }"@),
        StepView::Log(LogLevel::Honey, "Adding INPUT rules..."@),
        StepView::Nft("add rule inet filter input iif lo accept"@),
        StepView::Nft("add rule inet filter input ct state established,related accept"@),
        StepView::Nft("add rule inet filter input ct state invalid drop"@),
        StepView::Nft("add rule inet filter input fib saddr . iif oif missing drop"@),
        StepView::Nft("add rule inet filter input tcp flags & (fin | syn | rst | psh | ack | urg) == 0 drop"@),
        StepView::Nft("add rule inet filter input tcp flags & (fin | syn) == fin | syn drop"@),
        StepView::Nft("add rule inet filter input tcp flags & (rst | ack) == rst | ack drop"@),
        StepView::Nft("add rule inet filter input iif != lo tcp dport { 3000, 3001 } reject with icmpx type port-unreachable"@),
        StepView::Nft("add rule inet filter input iif != lo udp dport { 3000, 3001 } reject with icmpx type port-unreachable"@),
    ]
}

/// The rate-limited SSH rule on the custom port.
pub open spec fn ssh_rule() -> Seq<char> {
    "add rule inet filter input tcp dport "@ + decimal(CUSTOM_SSH_PORT as nat)
        + " limit rate 10/minute accept"@
}

/// The rule that opens HTTP and HTTPS.
pub open spec fn web_rule() -> Seq<char> {
    "add rule inet filter input tcp dport { 80, 443 } accept"@
}

/// The rule that opens the WebRTC port on radon.
pub open spec fn radon_rule() -> Seq<char> {
    "add rule inet filter input tcp dport 9010 accept"@
}

/// The steps that only radon gets.
pub open spec fn radon_plan() -> Seq<StepView> {
    seq![StepView::Log(LogLevel::Warning, "Adding radon-specific input rules..."@), StepView::Nft(radon_rule())]
}

/// The ICMP rules and the OUTPUT rules, which every host gets last.
pub open spec fn tail_plan() -> Seq<StepView> {
    seq![
        StepView::Nft("add rule inet filter input icmp type echo-request limit rate 5/second accept"@),
        StepView::Nft("add rule inet filter input icmpv6 type { echo-request, nd-neighbor-solicit, nd-neighbor-advert, nd-router-solicit, nd-router-advert } accept"@),
        StepView::Log(LogLevel::Honey, "Adding OUTPUT rules..."@),
        StepView::Nft(r#"add rule inet filter output oif lo skuid "app-runner" tcp dport 6379 ct state new accept"#@),
        StepView::Nft(r#"add rule inet filter output oif lo tcp dport 6379 log prefix "REDIS-LOOPBACK-BLOCK: " drop"#@),
        StepView::Log(LogLevel::Warning, "Applying outbound user-level constraint blocks..."@),
        StepView::Nft(r#"add rule inet filter output skuid "app-runner" ct state new limit rate 5/minute burst 2 packets log prefix "USER-BLOCK-APP-RUNNER: ""#@),
        StepView::Nft(r#"add rule inet filter output skuid "app-runner" ct state new reject"#@),
        StepView::Nft(r#"add rule inet filter output skuid "git-deploy" ct state new limit rate 5/minute burst 2 packets log prefix "USER-BLOCK-GIT-DEPLOY: ""#@),
        StepView::Nft(r#"add rule inet filter output skuid "git-deploy" ct state new reject"#@),
        StepView::Nft("add rule inet filter output oif lo accept"@),
    ]
}

/// Every step of installing the `inet filter` table for `host`, in order.
pub open spec fn main_firewall_plan(host: Host) -> Seq<StepView> {
    head_plan() + seq![StepView::Nft(ssh_rule()), StepView::Nft(web_rule())] + (if host == Host::Radon {
        radon_plan()
    } else {
        seq![]
    }) + tail_plan()
}

fn push_nft(v: &mut Vec<FirewallStep>, rule: &str)
    ensures
        plan_view(final(v)@) == plan_view(old(v)@).push(StepView::Nft(rule@)),
{
    v.push(FirewallStep::Nft(String::from_str(rule)));
    assert(plan_view(v@) =~= plan_view(old(v)@).push(StepView::Nft(rule@)));
}

fn push_log(v: &mut Vec<FirewallStep>, level: LogLevel, msg: &str)
    ensures
        plan_view(final(v)@) == plan_view(old(v)@).push(StepView::Log(level, msg@)),
{
    v.push(FirewallStep::Log(log_line(level, msg)));
    assert(plan_view(v@) =~= plan_view(old(v)@).push(StepView::Log(level, msg@)));
}

/// The steps that install the `inet filter` table for `host`: input and
/// forward chains that drop by default, an output chain that accepts, and
/// the rules of each, in the order `nft` must receive them.
pub fn create_main_firewall(host: Host) -> (steps: Vec<FirewallStep>)
    ensures
        plan_view(steps@) == main_firewall_plan(host),
{
    let mut v: Vec<FirewallStep> = Vec::new();
    push_log(&mut v, LogLevel::Honey, "Creating inet filter table...");
    push_nft(&mut v, "add table inet filter");
    push_log(&mut v, LogLevel::Honey, "Creating chains with policies...");
    push_nft(&mut v, "add chain inet filter input { type filter hook input priority 0; policy drop; }");
    push_nft(&mut v, "add chain inet filter forward { type filter hook forward priority 0; policy drop; }");
    push_nft(&mut v, "add chain inet filter output { type filter hook output priority 0; policy accept; }");
    push_log(&mut v, LogLevel::Honey, "Adding INPUT rules...");
    push_nft(&mut v, "add rule inet filter input iif lo accept");
    push_nft(&mut v, "add rule inet filter input ct state established,related accept");
    push_nft(&mut v, "add rule inet filter input ct state invalid drop");
    push_nft(&mut v, "add rule inet filter input fib saddr . iif oif missing drop");
    push_nft(&mut v, "add rule inet filter input tcp flags & (fin | syn | rst | psh | ack | urg) == 0 drop");
    push_nft(&mut v, "add rule inet filter input tcp flags & (fin | syn) == fin | syn drop");
    push_nft(&mut v, "add rule inet filter input tcp flags & (rst | ack) == rst | ack drop");
    push_nft(&mut v, "add rule inet filter input iif != lo tcp dport { 3000, 3001 } reject with icmpx type port-unreachable");
    push_nft(&mut v, "add rule inet filter input iif != lo udp dport { 3000, 3001 } reject with icmpx type port-unreachable");
    assert(plan_view(v@) =~= head_plan());
    let mut ssh = String::from_str("add rule inet filter input tcp dport ");
    push_decimal(&mut ssh, CUSTOM_SSH_PORT as u64);
    ssh.append(" limit rate 10/minute accept");
    let ghost before_ssh = plan_view(v@);
    v.push(FirewallStep::Nft(ssh));
    assert(plan_view(v@) =~= before_ssh.push(StepView::Nft(ssh_rule())));
    push_nft(&mut v, "add rule inet filter input tcp dport { 80, 443 } accept");
    let ghost common = plan_view(v@);
    assert(common =~= head_plan() + seq![StepView::Nft(ssh_rule()), StepView::Nft(web_rule())]);
    if host.is_radon() {
        push_log(&mut v, LogLevel::Warning, "Adding radon-specific input rules...");
        push_nft(&mut v, "add rule inet filter input tcp dport 9010 accept");
        assert(plan_view(v@) =~= common + radon_plan());
    } else {
        assert(plan_view(v@) =~= common + Seq::<StepView>::empty());
    }
    let ghost before_tail = plan_view(v@);
    push_nft(&mut v, "add rule inet filter input icmp type echo-request limit rate 5/second accept");
    push_nft(&mut v, "add rule inet filter input icmpv6 type { echo-request, nd-neighbor-solicit, nd-neighbor-advert, nd-router-solicit, nd-router-advert } accept");
    push_log(&mut v, LogLevel::Honey, "Adding OUTPUT rules...");
    push_nft(&mut v, r#"add rule inet filter output oif lo skuid "app-runner" tcp dport 6379 ct state new accept"#);
    push_nft(&mut v, r#"add rule inet filter output oif lo tcp dport 6379 log prefix "REDIS-LOOPBACK-BLOCK: " drop"#);
    push_log(&mut v, LogLevel::Warning, "Applying outbound user-level constraint blocks...");
    push_nft(&mut v, r#"add rule inet filter output skuid "app-runner" ct state new limit rate 5/minute burst 2 packets log prefix "USER-BLOCK-APP-RUNNER: ""#);
    push_nft(&mut v, r#"add rule inet filter output skuid "app-runner" ct state new reject"#);
    push_nft(&mut v, r#"add rule inet filter output skuid "git-deploy" ct state new limit rate 5/minute burst 2 packets log prefix "USER-BLOCK-GIT-DEPLOY: ""#);
    push_nft(&mut v, r#"add rule inet filter output skuid "git-deploy" ct state new reject"#);
    push_nft(&mut v, "add rule inet filter output oif lo accept");
    assert(plan_view(v@) =~= before_tail + tail_plan());
    v
}

/// Hosts other than radon all get the same table.
pub proof fn law_non_radon_hosts_share_plan(a: Host, b: Host)
    requires
        a != Host::Radon,
        b != Host::Radon,
    ensures
        main_firewall_plan(a) == main_firewall_plan(b),
{
}

/// Radon gets exactly the common table with its WebRTC rule (and the note
/// announcing it) after the web rule.
pub proof fn law_radon_plan_extends_common(other: Host)
    requires
        other != Host::Radon,
    ensures
        ({
            let k = head_plan().len() + 2int;
            let common = main_firewall_plan(other);
            main_firewall_plan(Host::Radon) == common.take(k) + radon_plan() + common.skip(k)
        }),
{
    let k = head_plan().len() + 2int;
    let common = main_firewall_plan(other);
    let pre = head_plan() + seq![StepView::Nft(ssh_rule()), StepView::Nft(web_rule())];
    assert(common.take(k) =~= pre);
    assert(common.skip(k) =~= tail_plan());
}

/// The steps that every host gets, those of radon's aside, hold no rule
/// equal to the radon rule: each differs from it in length or, for the one
/// of equal length, in a character.
#[verifier::rlimit(80)]
proof fn lemma_common_plan_lacks_radon_rule(plan: Seq<StepView>)
    requires
        plan == head_plan() + seq![StepView::Nft(ssh_rule()), StepView::Nft(web_rule())] + tail_plan(),
    ensures
        !plan.contains(StepView::Nft(radon_rule())),
{
    reveal_strlit("add chain inet filter forward { type filter hook forward priority 0; policy drop; }");
    reveal_strlit("add chain inet filter input { type filter hook input priority 0; policy drop; }");
    reveal_strlit("add chain inet filter output { type filter hook output priority 0; policy accept; }");
    reveal_strlit("add rule inet filter input ct state established,related accept");
    reveal_strlit("add rule inet filter input ct state invalid drop");
    reveal_strlit("add rule inet filter input fib saddr . iif oif missing drop");
    reveal_strlit("add rule inet filter input icmp type echo-request limit rate 5/second accept");
    reveal_strlit("add rule inet filter input icmpv6 type { echo-request, nd-neighbor-solicit, nd-neighbor-advert, nd-router-solicit, nd-router-advert } accept");
    reveal_strlit("add rule inet filter input iif != lo tcp dport { 3000, 3001 } reject with icmpx type port-unreachable");
    reveal_strlit("add rule inet filter input iif != lo udp dport { 3000, 3001 } reject with icmpx type port-unreachable");
    reveal_strlit("add rule inet filter input iif lo accept");
    reveal_strlit("add rule inet filter input tcp dport 9010 accept");
    reveal_strlit("add rule inet filter input tcp dport { 80, 443 } accept");
    reveal_strlit("add rule inet filter input tcp flags & (fin | syn | rst | psh | ack | urg) == 0 drop");
    reveal_strlit("add rule inet filter input tcp flags & (fin | syn) == fin | syn drop");
    reveal_strlit("add rule inet filter input tcp flags & (rst | ack) == rst | ack drop");
    reveal_strlit("add rule inet filter output oif lo accept");
    reveal_strlit("add table inet filter");
    reveal_strlit(r#"add rule inet filter output oif lo skuid "app-runner" tcp dport 6379 ct state new accept"#);
    reveal_strlit(r#"add rule inet filter output oif lo tcp dport 6379 log prefix "REDIS-LOOPBACK-BLOCK: " drop"#);
    reveal_strlit(r#"add rule inet filter output skuid "app-runner" ct state new limit rate 5/minute burst 2 packets log prefix "USER-BLOCK-APP-RUNNER: ""#);
    reveal_strlit(r#"add rule inet filter output skuid "app-runner" ct state new reject"#);
    reveal_strlit(r#"add rule inet filter output skuid "git-deploy" ct state new limit rate 5/minute burst 2 packets log prefix "USER-BLOCK-GIT-DEPLOY: ""#);
    reveal_strlit(r#"add rule inet filter output skuid "git-deploy" ct state new reject"#);
    reveal_strlit("add rule inet filter input tcp dport ");
    reveal_strlit(" limit rate 10/minute accept");
    reveal_with_fuel(decimal, 5);
    assert(plan.len() == 29);
    assert(radon_rule().len() == 48);
    assert(plan[0] != StepView::Nft(radon_rule()));
    assert(plan[1] != StepView::Nft(radon_rule())) by {
        assert(plan[1] == StepView::Nft("add table inet filter"@));
        assert("add table inet filter"@.len() == 21);
    }
    assert(plan[2] != StepView::Nft(radon_rule()));
    assert(plan[3] != StepView::Nft(radon_rule())) by {
        assert(plan[3] == StepView::Nft("add chain inet filter input { type filter hook input priority 0; policy drop; }"@));
        assert("add chain inet filter input { type filter hook input priority 0; policy drop; }"@.len() == 79);
    }
    assert(plan[4] != StepView::Nft(radon_rule())) by {
        assert(plan[4] == StepView::Nft("add chain inet filter forward { type filter hook forward priority 0; policy drop; }"@));
        assert("add chain inet filter forward { type filter hook forward priority 0; policy drop; }"@.len() == 83);
    }
    assert(plan[5] != StepView::Nft(radon_rule())) by {
        assert(plan[5] == StepView::Nft("add chain inet filter output { type filter hook output priority 0; policy accept; }"@));
        assert("add chain inet filter output { type filter hook output priority 0; policy accept; }"@.len() == 83);
    }
    assert(plan[6] != StepView::Nft(radon_rule()));
    assert(plan[7] != StepView::Nft(radon_rule())) by {
        assert(plan[7] == StepView::Nft("add rule inet filter input iif lo accept"@));
        assert("add rule inet filter input iif lo accept"@.len() == 40);
    }
    assert(plan[8] != StepView::Nft(radon_rule())) by {
        assert(plan[8] == StepView::Nft("add rule inet filter input ct state established,related accept"@));
        assert("add rule inet filter input ct state established,related accept"@.len() == 62);
    }
    assert(plan[9] != StepView::Nft(radon_rule())) by {
        assert("add rule inet filter input ct state invalid drop"@[27] != radon_rule()[27]);
    }
    assert(plan[10] != StepView::Nft(radon_rule())) by {
        assert(plan[10] == StepView::Nft("add rule inet filter input fib saddr . iif oif missing drop"@));
        assert("add rule inet filter input fib saddr . iif oif missing drop"@.len() == 59);
    }
    assert(plan[11] != StepView::Nft(radon_rule())) by {
        assert(plan[11] == StepView::Nft("add rule inet filter input tcp flags & (fin | syn | rst | psh | ack | urg) == 0 drop"@));
        assert("add rule inet filter input tcp flags & (fin | syn | rst | psh | ack | urg) == 0 drop"@.len() == 84);
    }
    assert(plan[12] != StepView::Nft(radon_rule())) by {
        assert(plan[12] == StepView::Nft("add rule inet filter input tcp flags & (fin | syn) == fin | syn drop"@));
        assert("add rule inet filter input tcp flags & (fin | syn) == fin | syn drop"@.len() == 68);
    }
    assert(plan[13] != StepView::Nft(radon_rule())) by {
        assert(plan[13] == StepView::Nft("add rule inet filter input tcp flags & (rst | ack) == rst | ack drop"@));
        assert("add rule inet filter input tcp flags & (rst | ack) == rst | ack drop"@.len() == 68);
    }
    assert(plan[14] != StepView::Nft(radon_rule())) by {
        assert(plan[14] == StepView::Nft("add rule inet filter input iif != lo tcp dport { 3000, 3001 } reject with icmpx type port-unreachable"@));
        assert("add rule inet filter input iif != lo tcp dport { 3000, 3001 } reject with icmpx type port-unreachable"@.len() == 101);
    }
    assert(plan[15] != StepView::Nft(radon_rule())) by {
        assert(plan[15] == StepView::Nft("add rule inet filter input iif != lo udp dport { 3000, 3001 } reject with icmpx type port-unreachable"@));
        assert("add rule inet filter input iif != lo udp dport { 3000, 3001 } reject with icmpx type port-unreachable"@.len() == 101);
    }
    assert(plan[16] != StepView::Nft(radon_rule()));
    assert(plan[17] != StepView::Nft(radon_rule()));
    assert(plan[18] != StepView::Nft(radon_rule())) by {
        assert(plan[18] == StepView::Nft("add rule inet filter input icmp type echo-request limit rate 5/second accept"@));
        assert("add rule inet filter input icmp type echo-request limit rate 5/second accept"@.len() == 76);
    }
    assert(plan[19] != StepView::Nft(radon_rule())) by {
        assert(plan[19] == StepView::Nft("add rule inet filter input icmpv6 type { echo-request, nd-neighbor-solicit, nd-neighbor-advert, nd-router-solicit, nd-router-advert } accept"@));
        assert("add rule inet filter input icmpv6 type { echo-request, nd-neighbor-solicit, nd-neighbor-advert, nd-router-solicit, nd-router-advert } accept"@.len() == 140);
    }
    assert(plan[20] != StepView::Nft(radon_rule()));
    assert(plan[21] != StepView::Nft(radon_rule())) by {
        assert(plan[21] == StepView::Nft(r#"add rule inet filter output oif lo skuid "app-runner" tcp dport 6379 ct state new accept"#@));
        assert(r#"add rule inet filter output oif lo skuid "app-runner" tcp dport 6379 ct state new accept"#@.len() == 88);
    }
    assert(plan[22] != StepView::Nft(radon_rule())) by {
        assert(plan[22] == StepView::Nft(r#"add rule inet filter output oif lo tcp dport 6379 log prefix "REDIS-LOOPBACK-BLOCK: " drop"#@));
        assert(r#"add rule inet filter output oif lo tcp dport 6379 log prefix "REDIS-LOOPBACK-BLOCK: " drop"#@.len() == 90);
    }
    assert(plan[23] != StepView::Nft(radon_rule()));
    assert(plan[24] != StepView::Nft(radon_rule())) by {
        assert(plan[24] == StepView::Nft(r#"add rule inet filter output skuid "app-runner" ct state new limit rate 5/minute burst 2 packets log prefix "USER-BLOCK-APP-RUNNER: ""#@));
        assert(r#"add rule inet filter output skuid "app-runner" ct state new limit rate 5/minute burst 2 packets log prefix "USER-BLOCK-APP-RUNNER: ""#@.len() == 132);
    }
    assert(plan[25] != StepView::Nft(radon_rule())) by {
        assert(plan[25] == StepView::Nft(r#"add rule inet filter output skuid "app-runner" ct state new reject"#@));
        assert(r#"add rule inet filter output skuid "app-runner" ct state new reject"#@.len() == 66);
    }
    assert(plan[26] != StepView::Nft(radon_rule())) by {
        assert(plan[26] == StepView::Nft(r#"add rule inet filter output skuid "git-deploy" ct state new limit rate 5/minute burst 2 packets log prefix "USER-BLOCK-GIT-DEPLOY: ""#@));
        assert(r#"add rule inet filter output skuid "git-deploy" ct state new limit rate 5/minute burst 2 packets log prefix "USER-BLOCK-GIT-DEPLOY: ""#@.len() == 132);
    }
    assert(plan[27] != StepView::Nft(radon_rule())) by {
        assert(plan[27] == StepView::Nft(r#"add rule inet filter output skuid "git-deploy" ct state new reject"#@));
        assert(r#"add rule inet filter output skuid "git-deploy" ct state new reject"#@.len() == 66);
    }
    assert(plan[28] != StepView::Nft(radon_rule())) by {
        assert(plan[28] == StepView::Nft("add rule inet filter output oif lo accept"@));
        assert("add rule inet filter output oif lo accept"@.len() == 41);
    }
    assert(!plan.contains(StepView::Nft(radon_rule())));
}

/// The port that radon opens (9010) is opened for radon and for no other
/// host.
pub proof fn law_radon_port_only_on_radon(host: Host)
    ensures
        main_firewall_plan(host).contains(StepView::Nft(radon_rule())) <==> host == Host::Radon,
{
    let plan = main_firewall_plan(host);
    if host == Host::Radon {
        let k = head_plan().len() + 3int;
        assert(plan[k] == StepView::Nft(radon_rule()));
    } else {
        assert(plan =~= head_plan() + seq![StepView::Nft(ssh_rule()), StepView::Nft(web_rule())] + tail_plan());
        lemma_common_plan_lacks_radon_rule(plan);
    }
}

/// Every host's table: it is created first, its input and forward chains
/// drop what no rule accepts and its output chain accepts, and it holds
/// each of these rules; among them the rate-limited SSH rule on port 7909
/// and the rule that opens HTTP and HTTPS (80 and 443).
pub proof fn law_every_host_gets_the_common_rules(host: Host)
    ensures
        ({
            let plan = main_firewall_plan(host);
            &&& plan[1] == StepView::Nft("add table inet filter"@)
            &&& plan[3] == StepView::Nft("add chain inet filter input { type filter hook input priority 0; policy drop; }"@)
            &&& plan[4] == StepView::Nft("add chain inet filter forward { type filter hook forward priority 0; policy drop; }"@)
            &&& plan[5] == StepView::Nft("add chain inet filter output { type filter hook output priority 0; policy accept; }"@)
            &&& plan.contains(StepView::Nft("add rule inet filter input iif lo accept"@))
            &&& plan.contains(StepView::Nft("add rule inet filter input ct state established,related accept"@))
            &&& plan.contains(StepView::Nft("add rule inet filter input ct state invalid drop"@))
            &&& plan.contains(StepView::Nft("add rule inet filter input fib saddr . iif oif missing drop"@))
            &&& plan.contains(StepView::Nft("add rule inet filter input tcp flags & (fin | syn | rst | psh | ack | urg) == 0 drop"@))
            &&& plan.contains(StepView::Nft("add rule inet filter input tcp flags & (fin | syn) == fin | syn drop"@))
            &&& plan.contains(StepView::Nft("add rule inet filter input tcp flags & (rst | ack) == rst | ack drop"@))
            &&& plan.contains(StepView::Nft("add rule inet filter input iif != lo tcp dport { 3000, 3001 } reject with icmpx type port-unreachable"@))
            &&& plan.contains(StepView::Nft("add rule inet filter input iif != lo udp dport { 3000, 3001 } reject with icmpx type port-unreachable"@))
            &&& plan.contains(StepView::Nft("add rule inet filter input tcp dport 7909 limit rate 10/minute accept"@))
            &&& plan.contains(StepView::Nft("add rule inet filter input tcp dport { 80, 443 } accept"@))
            &&& plan.contains(StepView::Nft("add rule inet filter input icmp type echo-request limit rate 5/second accept"@))
            &&& plan.contains(StepView::Nft("add rule inet filter input icmpv6 type { echo-request, nd-neighbor-solicit, nd-neighbor-advert, nd-router-solicit, nd-router-advert } accept"@))
            &&& plan.contains(StepView::Nft(r#"add rule inet filter output oif lo skuid "app-runner" tcp dport 6379 ct state new accept"#@))
            &&& plan.contains(StepView::Nft(r#"add rule inet filter output oif lo tcp dport 6379 log prefix "REDIS-LOOPBACK-BLOCK: " drop"#@))
            &&& plan.contains(StepView::Nft(r#"add rule inet filter output skuid "app-runner" ct state new limit rate 5/minute burst 2 packets log prefix "USER-BLOCK-APP-RUNNER: ""#@))
            &&& plan.contains(StepView::Nft(r#"add rule inet filter output skuid "app-runner" ct state new reject"#@))
            &&& plan.contains(StepView::Nft(r#"add rule inet filter output skuid "git-deploy" ct state new limit rate 5/minute burst 2 packets log prefix "USER-BLOCK-GIT-DEPLOY: ""#@))
            &&& plan.contains(StepView::Nft(r#"add rule inet filter output skuid "git-deploy" ct state new reject"#@))
            &&& plan.contains(StepView::Nft("add rule inet filter output oif lo accept"@))
        }),
{
    law_rules_in_install_order(host);
}

/// The order in which `nft` receives the table: the table, its chains,
/// the INPUT rules from loopback and tracked connections through the
/// sanity drops and the localhost-only rejects to the SSH and web rules,
/// then (after radon's two extra steps, `off` = 2 on radon) the ICMP and
/// OUTPUT rules; messages for the operator stand between them.
pub proof fn law_rules_in_install_order(host: Host)
    ensures
        ({
            let plan = main_firewall_plan(host);
            let off: int = if host == Host::Radon { 2 } else { 0 };
            &&& plan.len() == 29 + off
            &&& plan[1] == StepView::Nft("add table inet filter"@)
            &&& plan[3] == StepView::Nft("add chain inet filter input { type filter hook input priority 0; policy drop; }"@)
            &&& plan[4] == StepView::Nft("add chain inet filter forward { type filter hook forward priority 0; policy drop; }"@)
            &&& plan[5] == StepView::Nft("add chain inet filter output { type filter hook output priority 0; policy accept; }"@)
            &&& plan[7] == StepView::Nft("add rule inet filter input iif lo accept"@)
            &&& plan[8] == StepView::Nft("add rule inet filter input ct state established,related accept"@)
            &&& plan[9] == StepView::Nft("add rule inet filter input ct state invalid drop"@)
            &&& plan[10] == StepView::Nft("add rule inet filter input fib saddr . iif oif missing drop"@)
            &&& plan[11] == StepView::Nft("add rule inet filter input tcp flags & (fin | syn | rst | psh | ack | urg) == 0 drop"@)
            &&& plan[12] == StepView::Nft("add rule inet filter input tcp flags & (fin | syn) == fin | syn drop"@)
            &&& plan[13] == StepView::Nft("add rule inet filter input tcp flags & (rst | ack) == rst | ack drop"@)
            &&& plan[14] == StepView::Nft("add rule inet filter input iif != lo tcp dport { 3000, 3001 } reject with icmpx type port-unreachable"@)
            &&& plan[15] == StepView::Nft("add rule inet filter input iif != lo udp dport { 3000, 3001 } reject with icmpx type port-unreachable"@)
            &&& plan[16] == StepView::Nft("add rule inet filter input tcp dport 7909 limit rate 10/minute accept"@)
            &&& plan[17] == StepView::Nft("add rule inet filter input tcp dport { 80, 443 } accept"@)
            &&& plan[off + 18] == StepView::Nft("add rule inet filter input icmp type echo-request limit rate 5/second accept"@)
            &&& plan[off + 19] == StepView::Nft("add rule inet filter input icmpv6 type { echo-request, nd-neighbor-solicit, nd-neighbor-advert, nd-router-solicit, nd-router-advert } accept"@)
            &&& plan[off + 21] == StepView::Nft(r#"add rule inet filter output oif lo skuid "app-runner" tcp dport 6379 ct state new accept"#@)
            &&& plan[off + 22] == StepView::Nft(r#"add rule inet filter output oif lo tcp dport 6379 log prefix "REDIS-LOOPBACK-BLOCK: " drop"#@)
            &&& plan[off + 24] == StepView::Nft(r#"add rule inet filter output skuid "app-runner" ct state new limit rate 5/minute burst 2 packets log prefix "USER-BLOCK-APP-RUNNER: ""#@)
            &&& plan[off + 25] == StepView::Nft(r#"add rule inet filter output skuid "app-runner" ct state new reject"#@)
            &&& plan[off + 26] == StepView::Nft(r#"add rule inet filter output skuid "git-deploy" ct state new limit rate 5/minute burst 2 packets log prefix "USER-BLOCK-GIT-DEPLOY: ""#@)
            &&& plan[off + 27] == StepView::Nft(r#"add rule inet filter output skuid "git-deploy" ct state new reject"#@)
            &&& plan[off + 28] == StepView::Nft("add rule inet filter output oif lo accept"@)
        }),
{
    lemma_ssh_rule_text();
}

/// The SSH rule, spelt out.
proof fn lemma_ssh_rule_text()
    ensures
        ssh_rule() == "add rule inet filter input tcp dport 7909 limit rate 10/minute accept"@,
{
    reveal_with_fuel(decimal, 5);
    reveal_strlit("add rule inet filter input tcp dport ");
    reveal_strlit(" limit rate 10/minute accept");
    reveal_strlit("add rule inet filter input tcp dport 7909 limit rate 10/minute accept");
    reveal_strlit("7909");
    assert(decimal(7909) =~= "7909"@);
    assert(ssh_rule() =~= "add rule inet filter input tcp dport 7909 limit rate 10/minute accept"@);
}

/// The table holds no rule but these: every `nft` invocation of a host's
/// plan is the table, one of its three chains, or one of the listed
/// rules, so nothing else is opened or closed (and the WebRTC port is
/// opened on radon alone, as `law_radon_port_only_on_radon` states).
#[verifier::rlimit(60)]
pub proof fn law_plan_holds_only_these_rules(host: Host)
    ensures
        ({
            let plan = main_firewall_plan(host);
            let rules: Seq<StepView> = seq![
                StepView::Nft("add table inet filter"@),
                StepView::Nft("add chain inet filter input { type filter hook input priority 0; policy drop; }"@),
                StepView::Nft("add chain inet filter forward { type filter hook forward priority 0; policy drop; }"@),
                StepView::Nft("add chain inet filter output { type filter hook output priority 0; policy accept; }"@),
                StepView::Nft("add rule inet filter input iif lo accept"@),
                StepView::Nft("add rule inet filter input ct state established,related accept"@),
                StepView::Nft("add rule inet filter input ct state invalid drop"@),
                StepView::Nft("add rule inet filter input fib saddr . iif oif missing drop"@),
                StepView::Nft("add rule inet filter input tcp flags & (fin | syn | rst | psh | ack | urg) == 0 drop"@),
                StepView::Nft("add rule inet filter input tcp flags & (fin | syn) == fin | syn drop"@),
                StepView::Nft("add rule inet filter input tcp flags & (rst | ack) == rst | ack drop"@),
                StepView::Nft("add rule inet filter input iif != lo tcp dport { 3000, 3001 } reject with icmpx type port-unreachable"@),
                StepView::Nft("add rule inet filter input iif != lo udp dport { 3000, 3001 } reject with icmpx type port-unreachable"@),
                StepView::Nft("add rule inet filter input tcp dport 7909 limit rate 10/minute accept"@),
                StepView::Nft("add rule inet filter input tcp dport { 80, 443 } accept"@),
                StepView::Nft("add rule inet filter input tcp dport 9010 accept"@),
                StepView::Nft("add rule inet filter input icmp type echo-request limit rate 5/second accept"@),
                StepView::Nft("add rule inet filter input icmpv6 type { echo-request, nd-neighbor-solicit, nd-neighbor-advert, nd-router-solicit, nd-router-advert } accept"@),
                StepView::Nft(r#"add rule inet filter output oif lo skuid "app-runner" tcp dport 6379 ct state new accept"#@),
                StepView::Nft(r#"add rule inet filter output oif lo tcp dport 6379 log prefix "REDIS-LOOPBACK-BLOCK: " drop"#@),
                StepView::Nft(r#"add rule inet filter output skuid "app-runner" ct state new limit rate 5/minute burst 2 packets log prefix "USER-BLOCK-APP-RUNNER: ""#@),
                StepView::Nft(r#"add rule inet filter output skuid "app-runner" ct state new reject"#@),
                StepView::Nft(r#"add rule inet filter output skuid "git-deploy" ct state new limit rate 5/minute burst 2 packets log prefix "USER-BLOCK-GIT-DEPLOY: ""#@),
                StepView::Nft(r#"add rule inet filter output skuid "git-deploy" ct state new reject"#@),
                StepView::Nft("add rule inet filter output oif lo accept"@),
            ];
            forall|i: int|
                0 <= i < plan.len() && (#[trigger] plan[i]) is Nft ==> rules.contains(plan[i])
        }),
{
    let plan = main_firewall_plan(host);
    let rules: Seq<StepView> = seq![
                StepView::Nft("add table inet filter"@),
                StepView::Nft("add chain inet filter input { type filter hook input priority 0; policy drop; }"@),
                StepView::Nft("add chain inet filter forward { type filter hook forward priority 0; policy drop; }"@),
                StepView::Nft("add chain inet filter output { type filter hook output priority 0; policy accept; }"@),
                StepView::Nft("add rule inet filter input iif lo accept"@),
                StepView::Nft("add rule inet filter input ct state established,related accept"@),
                StepView::Nft("add rule inet filter input ct state invalid drop"@),
                StepView::Nft("add rule inet filter input fib saddr . iif oif missing drop"@),
                StepView::Nft("add rule inet filter input tcp flags & (fin | syn | rst | psh | ack | urg) == 0 drop"@),
                StepView::Nft("add rule inet filter input tcp flags & (fin | syn) == fin | syn drop"@),
                StepView::Nft("add rule inet filter input tcp flags & (rst | ack) == rst | ack drop"@),
                StepView::Nft("add rule inet filter input iif != lo tcp dport { 3000, 3001 } reject with icmpx type port-unreachable"@),
                StepView::Nft("add rule inet filter input iif != lo udp dport { 3000, 3001 } reject with icmpx type port-unreachable"@),
                StepView::Nft("add rule inet filter input tcp dport 7909 limit rate 10/minute accept"@),
                StepView::Nft("add rule inet filter input tcp dport { 80, 443 } accept"@),
                StepView::Nft("add rule inet filter input tcp dport 9010 accept"@),
                StepView::Nft("add rule inet filter input icmp type echo-request limit rate 5/second accept"@),
                StepView::Nft("add rule inet filter input icmpv6 type { echo-request, nd-neighbor-solicit, nd-neighbor-advert, nd-router-solicit, nd-router-advert } accept"@),
                StepView::Nft(r#"add rule inet filter output oif lo skuid "app-runner" tcp dport 6379 ct state new accept"#@),
                StepView::Nft(r#"add rule inet filter output oif lo tcp dport 6379 log prefix "REDIS-LOOPBACK-BLOCK: " drop"#@),
                StepView::Nft(r#"add rule inet filter output skuid "app-runner" ct state new limit rate 5/minute burst 2 packets log prefix "USER-BLOCK-APP-RUNNER: ""#@),
                StepView::Nft(r#"add rule inet filter output skuid "app-runner" ct state new reject"#@),
                StepView::Nft(r#"add rule inet filter output skuid "git-deploy" ct state new limit rate 5/minute burst 2 packets log prefix "USER-BLOCK-GIT-DEPLOY: ""#@),
                StepView::Nft(r#"add rule inet filter output skuid "git-deploy" ct state new reject"#@),
                StepView::Nft("add rule inet filter output oif lo accept"@),
            ];
    lemma_ssh_rule_text();
    if host == Host::Radon {
        assert(plan.len() == 31);
        assert forall|i: int| 0 <= i < plan.len() && (#[trigger] plan[i]) is Nft implies rules.contains(plan[i]) by {
            if i == 1 {
                assert(rules[0] == plan[i]);
            } else if i == 3 {
                assert(rules[1] == plan[i]);
            } else if i == 4 {
                assert(rules[2] == plan[i]);
            } else if i == 5 {
                assert(rules[3] == plan[i]);
            } else if i == 7 {
                assert(rules[4] == plan[i]);
            } else if i == 8 {
                assert(rules[5] == plan[i]);
            } else if i == 9 {
                assert(rules[6] == plan[i]);
            } else if i == 10 {
                assert(rules[7] == plan[i]);
            } else if i == 11 {
                assert(rules[8] == plan[i]);
            } else if i == 12 {
                assert(rules[9] == plan[i]);
            } else if i == 13 {
                assert(rules[10] == plan[i]);
            } else if i == 14 {
                assert(rules[11] == plan[i]);
            } else if i == 15 {
                assert(rules[12] == plan[i]);
            } else if i == 16 {
                assert(rules[13] == plan[i]);
            } else if i == 17 {
                assert(rules[14] == plan[i]);
            } else if i == 19 {
                assert(rules[15] == plan[i]);
            } else if i == 20 {
                assert(rules[16] == plan[i]);
            } else if i == 21 {
                assert(rules[17] == plan[i]);
            } else if i == 23 {
                assert(rules[18] == plan[i]);
            } else if i == 24 {
                assert(rules[19] == plan[i]);
            } else if i == 26 {
                assert(rules[20] == plan[i]);
            } else if i == 27 {
                assert(rules[21] == plan[i]);
            } else if i == 28 {
                assert(rules[22] == plan[i]);
            } else if i == 29 {
                assert(rules[23] == plan[i]);
            } else if i == 30 {
                assert(rules[24] == plan[i]);
            }
        }
    } else {
        assert(plan.len() == 29);
        assert forall|i: int| 0 <= i < plan.len() && (#[trigger] plan[i]) is Nft implies rules.contains(plan[i]) by {
            if i == 1 {
                assert(rules[0] == plan[i]);
            } else if i == 3 {
                assert(rules[1] == plan[i]);
            } else if i == 4 {
                assert(rules[2] == plan[i]);
            } else if i == 5 {
                assert(rules[3] == plan[i]);
            } else if i == 7 {
                assert(rules[4] == plan[i]);
            } else if i == 8 {
                assert(rules[5] == plan[i]);
            } else if i == 9 {
                assert(rules[6] == plan[i]);
            } else if i == 10 {
                assert(rules[7] == plan[i]);
            } else if i == 11 {
                assert(rules[8] == plan[i]);
            } else if i == 12 {
                assert(rules[9] == plan[i]);
            } else if i == 13 {
                assert(rules[10] == plan[i]);
            } else if i == 14 {
                assert(rules[11] == plan[i]);
            } else if i == 15 {
                assert(rules[12] == plan[i]);
            } else if i == 16 {
                assert(rules[13] == plan[i]);
            } else if i == 17 {
                assert(rules[14] == plan[i]);
            } else if i == 18 {
                assert(rules[16] == plan[i]);
            } else if i == 19 {
                assert(rules[17] == plan[i]);
            } else if i == 21 {
                assert(rules[18] == plan[i]);
            } else if i == 22 {
                assert(rules[19] == plan[i]);
            } else if i == 24 {
                assert(rules[20] == plan[i]);
            } else if i == 25 {
                assert(rules[21] == plan[i]);
            } else if i == 26 {
                assert(rules[22] == plan[i]);
            } else if i == 27 {
                assert(rules[23] == plan[i]);
            } else if i == 28 {
                assert(rules[24] == plan[i]);
            }
        }
    }
}

} // verus!
