//! The netdev ingress ruleset: trusted addresses pass, addresses of the
//! blocked countries are logged and dropped, before routing.

use vstd::prelude::*;

use crate::config::{GEOIP_SETS_PATH, TRUSTED_IPV4, TRUSTED_IPV6};
use crate::logging::{LogLevel, LogLine, log_line};
use crate::text::{
    contains, decorate, join, join_decorated, join_strs, lemma_contains_self, lemma_contains_within,
    lemma_join_contains,
    str_views, string_views,
};

verus! {

/// The set elements naming the nft sets of the blocked countries for one
/// address family (`family` is ".ipv4" or ".ipv6"): `$CN.ipv4, $RU.ipv4`.
pub open spec fn country_elements(blocked: Seq<Seq<char>>, family: Seq<char>) -> Seq<char> {
    join(decorate(blocked, "$"@, family), ", "@)
}

/// The `elements = { .. }` clause of a trusted set, empty when no address
/// is trusted.
pub open spec fn trusted_clause(trusted: Seq<Seq<char>>) -> Seq<char> {
    let e = join(trusted, ", "@);
    if e.len() == 0 {
        seq![]
    } else {
        "elements = { "@ + e + " }"@
    }
}

/// The ingress ruleset for `interface` that blocks `blocked_countries`.
pub open spec fn geoip_ruleset_text(interface: Seq<char>, blocked_countries: Seq<Seq<char>>) -> Seq<char> {
    "# Advanced GeoIP blocking using highly efficient Sets\ninclude \""@
        + GEOIP_SETS_PATH@
        + "/ipv4/*.ipv4\"\ninclude \""@
        + GEOIP_SETS_PATH@
        + "/ipv6/*.ipv6\"\n\ntable netdev filter {\n    chain log_geoblock_drop {\n        counter\n        limit rate 5/minute burst 2 packets log prefix \"GEOBLOCK-DROP-V4: \"\n        drop\n    }\n\n    chain log_geoblock_drop_v6 {\n        counter\n        limit rate 5/minute burst 2 packets log prefix \"GEOBLOCK-DROP-V6: \"\n        drop\n    }\n\n    set trusted_ipv4_set {\n        type ipv4_addr\n        flags interval\n        "@
        + trusted_clause(str_views(TRUSTED_IPV4@))
        + "\n    }\n\n    set trusted_ipv6_set {\n        type ipv6_addr\n        flags interval\n        "@
        + trusted_clause(str_views(TRUSTED_IPV6@))
        + "\n    }\n\n    set country_ipv4_block_set {\n        type ipv4_addr\n        flags interval\n        elements = { "@
        + country_elements(blocked_countries, ".ipv4"@)
        + " }\n    }\n\n    set country_ipv6_block_set {\n        type ipv6_addr\n        flags interval\n        elements = { "@
        + country_elements(blocked_countries, ".ipv6"@)
        + " }\n    }\n\n    chain ingress {\n        type filter hook ingress device \""@
        + interface
        + "\" priority 0; policy accept;\n\n        ip saddr @trusted_ipv4_set accept\n        ip6 saddr @trusted_ipv6_set accept\n\n        ip saddr @country_ipv4_block_set jump log_geoblock_drop\n        ip6 saddr @country_ipv6_block_set jump log_geoblock_drop_v6\n    }\n}\n"@
}

/// Every chosen country's nft set is named in the ruleset, for IPv4 and
/// for IPv6: no chosen country is left out of the block sets.
#[verifier::spinoff_prover]
#[verifier::rlimit(40)]
pub proof fn law_every_blocked_country_named(
    interface: Seq<char>,
    blocked_countries: Seq<Seq<char>>,
    k: int,
)
    requires
        0 <= k < blocked_countries.len(),
    ensures
        contains(geoip_ruleset_text(interface, blocked_countries), "$"@ + blocked_countries[k] + ".ipv4"@),
        contains(geoip_ruleset_text(interface, blocked_countries), "$"@ + blocked_countries[k] + ".ipv6"@),
{
    let text = geoip_ruleset_text(interface, blocked_countries);
    let d4 = decorate(blocked_countries, "$"@, ".ipv4"@);
    let d6 = decorate(blocked_countries, "$"@, ".ipv6"@);
    lemma_join_contains(d4, ", "@, k);
    lemma_join_contains(d6, ", "@, k);
    let before4 = "# Advanced GeoIP blocking using highly efficient Sets\ninclude \""@
            + GEOIP_SETS_PATH@
            + "/ipv4/*.ipv4\"\ninclude \""@
            + GEOIP_SETS_PATH@
            + "/ipv6/*.ipv6\"\n\ntable netdev filter {\n    chain log_geoblock_drop {\n        counter\n        limit rate 5/minute burst 2 packets log prefix \"GEOBLOCK-DROP-V4: \"\n        drop\n    }\n\n    chain log_geoblock_drop_v6 {\n        counter\n        limit rate 5/minute burst 2 packets log prefix \"GEOBLOCK-DROP-V6: \"\n        drop\n    }\n\n    set trusted_ipv4_set {\n        type ipv4_addr\n        flags interval\n        "@
            + trusted_clause(str_views(TRUSTED_IPV4@))
            + "\n    }\n\n    set trusted_ipv6_set {\n        type ipv6_addr\n        flags interval\n        "@
            + trusted_clause(str_views(TRUSTED_IPV6@))
            + "\n    }\n\n    set country_ipv4_block_set {\n        type ipv4_addr\n        flags interval\n        elements = { "@;
    let after4 = " }\n    }\n\n    set country_ipv6_block_set {\n        type ipv6_addr\n        flags interval\n        elements = { "@
            + country_elements(blocked_countries, ".ipv6"@)
            + " }\n    }\n\n    chain ingress {\n        type filter hook ingress device \""@
            + interface
            + "\" priority 0; policy accept;\n\n        ip saddr @trusted_ipv4_set accept\n        ip6 saddr @trusted_ipv6_set accept\n\n        ip saddr @country_ipv4_block_set jump log_geoblock_drop\n        ip6 saddr @country_ipv6_block_set jump log_geoblock_drop_v6\n    }\n}\n"@;
    assert(text =~= before4 + country_elements(blocked_countries, ".ipv4"@) + after4);
    lemma_contains_within(before4, country_elements(blocked_countries, ".ipv4"@), after4, d4[k]);
    let before6 = "# Advanced GeoIP blocking using highly efficient Sets\ninclude \""@
            + GEOIP_SETS_PATH@
            + "/ipv4/*.ipv4\"\ninclude \""@
            + GEOIP_SETS_PATH@
            + "/ipv6/*.ipv6\"\n\ntable netdev filter {\n    chain log_geoblock_drop {\n        counter\n        limit rate 5/minute burst 2 packets log prefix \"GEOBLOCK-DROP-V4: \"\n        drop\n    }\n\n    chain log_geoblock_drop_v6 {\n        counter\n        limit rate 5/minute burst 2 packets log prefix \"GEOBLOCK-DROP-V6: \"\n        drop\n    }\n\n    set trusted_ipv4_set {\n        type ipv4_addr\n        flags interval\n        "@
            + trusted_clause(str_views(TRUSTED_IPV4@))
            + "\n    }\n\n    set trusted_ipv6_set {\n        type ipv6_addr\n        flags interval\n        "@
            + trusted_clause(str_views(TRUSTED_IPV6@))
            + "\n    }\n\n    set country_ipv4_block_set {\n        type ipv4_addr\n        flags interval\n        elements = { "@
            + country_elements(blocked_countries, ".ipv4"@)
            + " }\n    }\n\n    set country_ipv6_block_set {\n        type ipv6_addr\n        flags interval\n        elements = { "@;
    let after6 = " }\n    }\n\n    chain ingress {\n        type filter hook ingress device \""@
            + interface
            + "\" priority 0; policy accept;\n\n        ip saddr @trusted_ipv4_set accept\n        ip6 saddr @trusted_ipv6_set accept\n\n        ip saddr @country_ipv4_block_set jump log_geoblock_drop\n        ip6 saddr @country_ipv6_block_set jump log_geoblock_drop_v6\n    }\n}\n"@;
    assert(text =~= before6 + country_elements(blocked_countries, ".ipv6"@) + after6);
    lemma_contains_within(before6, country_elements(blocked_countries, ".ipv6"@), after6, d6[k]);
}

/// The `elements = { .. }` clause for the given trusted addresses.
fn trusted_clause_string(trusted: &[&str]) -> (r: String)
    ensures
        r@ == trusted_clause(str_views(trusted@)),
{
    let e = join_strs(trusted);
    if e.as_str().unicode_len() == 0 {
        String::new()
    } else {
        let mut r = String::from_str("elements = { ");
        r.append(e.as_str());
        r.append(" }");
        r
    }
}

/// The nft file that installs the ingress shield on `interface`: the
/// trusted sets (from the configuration), one interval set per address
/// family holding the blocked countries' sets, and an ingress chain that
/// accepts trusted sources and sends blocked ones to a logging drop chain.
pub fn geoip_ruleset(interface: &str, blocked_countries: &[String]) -> (r: String)
    ensures
        r@ == geoip_ruleset_text(interface@, string_views(blocked_countries@)),
{
    let trusted_v4 = trusted_clause_string(&TRUSTED_IPV4);
    let trusted_v6 = trusted_clause_string(&TRUSTED_IPV6);
    let v4 = join_decorated(blocked_countries, "$", ".ipv4");
    let v6 = join_decorated(blocked_countries, "$", ".ipv6");
    let mut r = String::new();
    r.append("# Advanced GeoIP blocking using highly efficient Sets\ninclude \"");
    r.append(GEOIP_SETS_PATH);
    r.append("/ipv4/*.ipv4\"\ninclude \"");
    r.append(GEOIP_SETS_PATH);
    r.append("/ipv6/*.ipv6\"\n\ntable netdev filter {\n    chain log_geoblock_drop {\n        counter\n        limit rate 5/minute burst 2 packets log prefix \"GEOBLOCK-DROP-V4: \"\n        drop\n    }\n\n    chain log_geoblock_drop_v6 {\n        counter\n        limit rate 5/minute burst 2 packets log prefix \"GEOBLOCK-DROP-V6: \"\n        drop\n    }\n\n    set trusted_ipv4_set {\n        type ipv4_addr\n        flags interval\n        ");
    r.append(trusted_v4.as_str());
    r.append("\n    }\n\n    set trusted_ipv6_set {\n        type ipv6_addr\n        flags interval\n        ");
    r.append(trusted_v6.as_str());
    r.append("\n    }\n\n    set country_ipv4_block_set {\n        type ipv4_addr\n        flags interval\n        elements = { ");
    r.append(v4.as_str());
    r.append(" }\n    }\n\n    set country_ipv6_block_set {\n        type ipv6_addr\n        flags interval\n        elements = { ");
    r.append(v6.as_str());
    r.append(" }\n    }\n\n    chain ingress {\n        type filter hook ingress device \"");
    r.append(interface);
    r.append("\" priority 0; policy accept;\n\n        ip saddr @trusted_ipv4_set accept\n        ip6 saddr @trusted_ipv6_set accept\n\n        ip saddr @country_ipv4_block_set jump log_geoblock_drop\n        ip6 saddr @country_ipv6_block_set jump log_geoblock_drop_v6\n    }\n}\n");
    assert(r@ =~= geoip_ruleset_text(interface@, string_views(blocked_countries@)));
    r
}

/// What installing the GeoIP shield learns from the caller.
pub enum GeoipEvent {
    /// Start.
    Begin,
    /// The per-country set directories (`ipv4/` and `ipv6/` under
    /// `GEOIP_SETS_PATH`) both exist (`present`) or not.
    SetsChecked { present: bool },
    /// `nft -f` of the written ruleset succeeded (`ok`) or not.
    Loaded { ok: bool },
}

/// What installing the GeoIP shield does next.
pub enum GeoipAction {
    /// Print `notice`, then check for the set directories.
    CheckSets { notice: LogLine },
    /// The sets are missing: print this and stop without installing.
    Skip(LogLine),
    /// Write `ruleset` to `GEOIP_CONFIG_PATH`, print `notice`, load the
    /// file with `nft -f`, then remove it.
    WriteAndLoad { ruleset: String, notice: LogLine },
    /// Print this and stop; a failed load does not stop the run.
    Finish(LogLine),
}

/// The decisions of installing the GeoIP shield on `interface` for
/// `blocked_countries`: skip when the country sets are missing, and report
/// whether `nft` took the ruleset.
pub fn geoip_step(interface: &str, blocked_countries: &[String], event: GeoipEvent) -> (a:
    GeoipAction)
    ensures
        match event {
            GeoipEvent::Begin => a matches GeoipAction::CheckSets { notice } && notice.level
                == LogLevel::Honey && notice.text@
                == "🎯 Setting up ingress shield (trust list + GeoIP)..."@,
            GeoipEvent::SetsChecked { present } => if present {
                a matches GeoipAction::WriteAndLoad { ruleset, notice } && ruleset@
                    == geoip_ruleset_text(interface@, string_views(blocked_countries@))
                    && notice.level == LogLevel::Honey && notice.text@
                    == "Loading ingress rules..."@
            } else {
                a matches GeoipAction::Skip(l) && l.level == LogLevel::Warning && l.text@
                    == "GeoIP sets not found at "@ + GEOIP_SETS_PATH@
                    + " - skipping GeoIP blocking"@
            },
            GeoipEvent::Loaded { ok } => if ok {
                a matches GeoipAction::Finish(l) && l.level == LogLevel::Success && l.text@
                    == "ingress shield configured successfully!"@
            } else {
                a matches GeoipAction::Finish(l) && l.level == LogLevel::Warning && l.text@
                    == "configuration failed - continuing without it..."@
            },
        },
{
    match event {
        GeoipEvent::Begin => GeoipAction::CheckSets {
            notice: log_line(LogLevel::Honey, "🎯 Setting up ingress shield (trust list + GeoIP)..."),
        },
        GeoipEvent::SetsChecked { present } => {
            if present {
                GeoipAction::WriteAndLoad {
                    ruleset: geoip_ruleset(interface, blocked_countries),
                    notice: log_line(LogLevel::Honey, "Loading ingress rules..."),
                }
            } else {
                let mut t = String::from_str("GeoIP sets not found at ");
                t.append(GEOIP_SETS_PATH);
                t.append(" - skipping GeoIP blocking");
                GeoipAction::Skip(LogLine { level: LogLevel::Warning, text: t })
            }
        },
        GeoipEvent::Loaded { ok } => {
            if ok {
                GeoipAction::Finish(
                    log_line(LogLevel::Success, "ingress shield configured successfully!"),
                )
            } else {
                GeoipAction::Finish(
                    log_line(LogLevel::Warning, "configuration failed - continuing without it..."),
                )
            }
        },
    }
}

/// Blocked sources, of either address family, are dropped: the ruleset
/// ends with the ingress chain of `interface`, which accepts the trusted
/// sets and sends every source in a blocked country's set to a chain that
/// logs it and drops it, and both such chains are defined in it.
#[verifier::spinoff_prover]
#[verifier::rlimit(60)]
pub proof fn law_blocked_sources_are_dropped(interface: Seq<char>, blocked_countries: Seq<Seq<char>>)
    ensures
        ({
            let text = geoip_ruleset_text(interface, blocked_countries);
            let ingress = "    chain ingress {\n        type filter hook ingress device \""@ + interface
                + "\" priority 0; policy accept;\n\n        ip saddr @trusted_ipv4_set accept\n        ip6 saddr @trusted_ipv6_set accept\n\n        ip saddr @country_ipv4_block_set jump log_geoblock_drop\n        ip6 saddr @country_ipv6_block_set jump log_geoblock_drop_v6\n    }\n}\n"@;
            &&& ingress.len() <= text.len()
            &&& text.skip(text.len() - ingress.len()) == ingress
            &&& contains(text, "    chain log_geoblock_drop {\n        counter\n        limit rate 5/minute burst 2 packets log prefix \"GEOBLOCK-DROP-V4: \"\n        drop\n    }\n"@)
            &&& contains(text, "    chain log_geoblock_drop_v6 {\n        counter\n        limit rate 5/minute burst 2 packets log prefix \"GEOBLOCK-DROP-V6: \"\n        drop\n    }\n"@)
        }),
{
    let text = geoip_ruleset_text(interface, blocked_countries);
    let y = "\" priority 0; policy accept;\n\n        ip saddr @trusted_ipv4_set accept\n        ip6 saddr @trusted_ipv6_set accept\n\n        ip saddr @country_ipv4_block_set jump log_geoblock_drop\n        ip6 saddr @country_ipv6_block_set jump log_geoblock_drop_v6\n    }\n}\n"@;
    let l = " }\n    }\n\n    chain ingress {\n        type filter hook ingress device \""@;
    let l1 = " }\n    }\n\n"@;
    let l2 = "    chain ingress {\n        type filter hook ingress device \""@;
    let ingress = l2 + interface + y;
    let p0 = "# Advanced GeoIP blocking using highly efficient Sets\ninclude \""@
        + GEOIP_SETS_PATH@
        + "/ipv4/*.ipv4\"\ninclude \""@
        + GEOIP_SETS_PATH@;
    let c = "/ipv6/*.ipv6\"\n\ntable netdev filter {\n    chain log_geoblock_drop {\n        counter\n        limit rate 5/minute burst 2 packets log prefix \"GEOBLOCK-DROP-V4: \"\n        drop\n    }\n\n    chain log_geoblock_drop_v6 {\n        counter\n        limit rate 5/minute burst 2 packets log prefix \"GEOBLOCK-DROP-V6: \"\n        drop\n    }\n\n    set trusted_ipv4_set {\n        type ipv4_addr\n        flags interval\n        "@;
    let mid = trusted_clause(str_views(TRUSTED_IPV4@))
        + "\n    }\n\n    set trusted_ipv6_set {\n        type ipv6_addr\n        flags interval\n        "@
        + trusted_clause(str_views(TRUSTED_IPV6@))
        + "\n    }\n\n    set country_ipv4_block_set {\n        type ipv4_addr\n        flags interval\n        elements = { "@
        + country_elements(blocked_countries, ".ipv4"@)
        + " }\n    }\n\n    set country_ipv6_block_set {\n        type ipv6_addr\n        flags interval\n        elements = { "@
        + country_elements(blocked_countries, ".ipv6"@);
    assert(text =~= p0 + c + mid + l + interface + y);
    reveal_strlit(" }\n    }\n\n    chain ingress {\n        type filter hook ingress device \"");
    reveal_strlit(" }\n    }\n\n");
    reveal_strlit("    chain ingress {\n        type filter hook ingress device \"");
    assert(l =~= l1 + l2);
    assert(text =~= (p0 + c + mid + l1) + ingress);
    assert(text.skip(text.len() - ingress.len()) =~= ingress);
    let c0 = "/ipv6/*.ipv6\"\n\ntable netdev filter {\n"@;
    let d4 = "    chain log_geoblock_drop {\n        counter\n        limit rate 5/minute burst 2 packets log prefix \"GEOBLOCK-DROP-V4: \"\n        drop\n    }\n"@;
    let c1 = "\n"@;
    let d6 = "    chain log_geoblock_drop_v6 {\n        counter\n        limit rate 5/minute burst 2 packets log prefix \"GEOBLOCK-DROP-V6: \"\n        drop\n    }\n"@;
    let c2 = "\n    set trusted_ipv4_set {\n        type ipv4_addr\n        flags interval\n        "@;
    reveal_strlit("/ipv6/*.ipv6\"\n\ntable netdev filter {\n    chain log_geoblock_drop {\n        counter\n        limit rate 5/minute burst 2 packets log prefix \"GEOBLOCK-DROP-V4: \"\n        drop\n    }\n\n    chain log_geoblock_drop_v6 {\n        counter\n        limit rate 5/minute burst 2 packets log prefix \"GEOBLOCK-DROP-V6: \"\n        drop\n    }\n\n    set trusted_ipv4_set {\n        type ipv4_addr\n        flags interval\n        ");
    reveal_strlit("/ipv6/*.ipv6\"\n\ntable netdev filter {\n");
    reveal_strlit("    chain log_geoblock_drop {\n        counter\n        limit rate 5/minute burst 2 packets log prefix \"GEOBLOCK-DROP-V4: \"\n        drop\n    }\n");
    reveal_strlit("\n");
    reveal_strlit("    chain log_geoblock_drop_v6 {\n        counter\n        limit rate 5/minute burst 2 packets log prefix \"GEOBLOCK-DROP-V6: \"\n        drop\n    }\n");
    reveal_strlit("\n    set trusted_ipv4_set {\n        type ipv4_addr\n        flags interval\n        ");
    assert(c =~= c0 + d4 + c1 + d6 + c2);
    let rest = mid + l + interface + y;
    assert(text =~= (p0 + c0) + d4 + (c1 + d6 + c2 + rest));
    assert(text =~= (p0 + c0 + d4 + c1) + d6 + (c2 + rest));
    lemma_contains_self(d4);
    lemma_contains_self(d6);
    lemma_contains_within(p0 + c0, d4, c1 + d6 + c2 + rest, d4);
    lemma_contains_within(p0 + c0 + d4 + c1, d6, c2 + rest, d6);
}

/// Each chosen country is blocked in the right family: the IPv4 block set
/// of the ruleset lists `$CC.ipv4` and the IPv6 block set lists
/// `$CC.ipv6`, for every chosen country `CC`.
#[verifier::spinoff_prover]
#[verifier::rlimit(60)]
pub proof fn law_block_sets_hold_countries(
    interface: Seq<char>,
    blocked_countries: Seq<Seq<char>>,
    k: int,
)
    requires
        0 <= k < blocked_countries.len(),
    ensures
        ({
            let text = geoip_ruleset_text(interface, blocked_countries);
            let e4 = country_elements(blocked_countries, ".ipv4"@);
            let e6 = country_elements(blocked_countries, ".ipv6"@);
            &&& contains(e4, "$"@ + blocked_countries[k] + ".ipv4"@)
            &&& contains(e6, "$"@ + blocked_countries[k] + ".ipv6"@)
            &&& contains(text, "    set country_ipv4_block_set {\n        type ipv4_addr\n        flags interval\n        elements = { "@ + e4 + " }\n    }"@)
            &&& contains(text, "    set country_ipv6_block_set {\n        type ipv6_addr\n        flags interval\n        elements = { "@ + e6 + " }\n    }"@)
        }),
{
    let text = geoip_ruleset_text(interface, blocked_countries);
    let e4 = country_elements(blocked_countries, ".ipv4"@);
    let e6 = country_elements(blocked_countries, ".ipv6"@);
    let d4 = decorate(blocked_countries, "$"@, ".ipv4"@);
    let d6 = decorate(blocked_countries, "$"@, ".ipv6"@);
    lemma_join_contains(d4, ", "@, k);
    lemma_join_contains(d6, ", "@, k);
    let front = "# Advanced GeoIP blocking using highly efficient Sets\ninclude \""@
        + GEOIP_SETS_PATH@
        + "/ipv4/*.ipv4\"\ninclude \""@
        + GEOIP_SETS_PATH@
        + "/ipv6/*.ipv6\"\n\ntable netdev filter {\n    chain log_geoblock_drop {\n        counter\n        limit rate 5/minute burst 2 packets log prefix \"GEOBLOCK-DROP-V4: \"\n        drop\n    }\n\n    chain log_geoblock_drop_v6 {\n        counter\n        limit rate 5/minute burst 2 packets log prefix \"GEOBLOCK-DROP-V6: \"\n        drop\n    }\n\n    set trusted_ipv4_set {\n        type ipv4_addr\n        flags interval\n        "@
        + trusted_clause(str_views(TRUSTED_IPV4@))
        + "\n    }\n\n    set trusted_ipv6_set {\n        type ipv6_addr\n        flags interval\n        "@
        + trusted_clause(str_views(TRUSTED_IPV6@));
    let a = "\n    }\n\n    set country_ipv4_block_set {\n        type ipv4_addr\n        flags interval\n        elements = { "@;
    let b = " }\n    }\n\n    set country_ipv6_block_set {\n        type ipv6_addr\n        flags interval\n        elements = { "@;
    let c = " }\n    }\n\n    chain ingress {\n        type filter hook ingress device \""@;
    let y = "\" priority 0; policy accept;\n\n        ip saddr @trusted_ipv4_set accept\n        ip6 saddr @trusted_ipv6_set accept\n\n        ip saddr @country_ipv4_block_set jump log_geoblock_drop\n        ip6 saddr @country_ipv6_block_set jump log_geoblock_drop_v6\n    }\n}\n"@;
    assert(text =~= front + a + e4 + b + e6 + c + interface + y);
    let a1 = "\n    }\n\n"@;
    let a2 = "    set country_ipv4_block_set {\n        type ipv4_addr\n        flags interval\n        elements = { "@;
    let b1 = " }\n    }"@;
    let b2 = "\n\n"@;
    let b3 = "    set country_ipv6_block_set {\n        type ipv6_addr\n        flags interval\n        elements = { "@;
    let c2 = "\n\n    chain ingress {\n        type filter hook ingress device \""@;
    reveal_strlit("\n    }\n\n    set country_ipv4_block_set {\n        type ipv4_addr\n        flags interval\n        elements = { ");
    reveal_strlit(" }\n    }\n\n    set country_ipv6_block_set {\n        type ipv6_addr\n        flags interval\n        elements = { ");
    reveal_strlit(" }\n    }\n\n    chain ingress {\n        type filter hook ingress device \"");
    reveal_strlit("\n    }\n\n");
    reveal_strlit("    set country_ipv4_block_set {\n        type ipv4_addr\n        flags interval\n        elements = { ");
    reveal_strlit(" }\n    }");
    reveal_strlit("\n\n");
    reveal_strlit("    set country_ipv6_block_set {\n        type ipv6_addr\n        flags interval\n        elements = { ");
    reveal_strlit("\n\n    chain ingress {\n        type filter hook ingress device \"");
    assert(a =~= a1 + a2);
    assert(b =~= b1 + b2 + b3);
    assert(c =~= b1 + c2);
    let set4 = a2 + e4 + b1;
    let set6 = b3 + e6 + b1;
    assert(text =~= (front + a1) + set4 + (b2 + b3 + e6 + c + interface + y));
    assert(text =~= (front + a + e4 + b1 + b2) + set6 + (c2 + interface + y));
    lemma_contains_self(set4);
    lemma_contains_self(set6);
    lemma_contains_within(front + a1, set4, b2 + b3 + e6 + c + interface + y, set4);
    lemma_contains_within(front + a + e4 + b1 + b2, set6, c2 + interface + y, set6);
}

/// The ruleset opens by loading the per-country set files of both address
/// families from the GeoIP directory, then opens the netdev table.
#[verifier::spinoff_prover]
#[verifier::rlimit(60)]
pub proof fn law_ruleset_loads_country_sets(interface: Seq<char>, blocked_countries: Seq<Seq<char>>)
    ensures
        ({
            let text = geoip_ruleset_text(interface, blocked_countries);
            let head = "# Advanced GeoIP blocking using highly efficient Sets\ninclude \"/var/local/geoipsets/dbip/nftset/ipv4/*.ipv4\"\ninclude \"/var/local/geoipsets/dbip/nftset/ipv6/*.ipv6\"\n\ntable netdev filter {\n"@;
            &&& head.len() <= text.len()
            &&& text.take(head.len() as int) == head
        }),
{
    let text = geoip_ruleset_text(interface, blocked_countries);
    let head = "# Advanced GeoIP blocking using highly efficient Sets\ninclude \"/var/local/geoipsets/dbip/nftset/ipv4/*.ipv4\"\ninclude \"/var/local/geoipsets/dbip/nftset/ipv6/*.ipv6\"\n\ntable netdev filter {\n"@;
    let a = "# Advanced GeoIP blocking using highly efficient Sets\ninclude \""@;
    let b = "/ipv4/*.ipv4\"\ninclude \""@;
    let c = "/ipv6/*.ipv6\"\n\ntable netdev filter {\n    chain log_geoblock_drop {\n        counter\n        limit rate 5/minute burst 2 packets log prefix \"GEOBLOCK-DROP-V4: \"\n        drop\n    }\n\n    chain log_geoblock_drop_v6 {\n        counter\n        limit rate 5/minute burst 2 packets log prefix \"GEOBLOCK-DROP-V6: \"\n        drop\n    }\n\n    set trusted_ipv4_set {\n        type ipv4_addr\n        flags interval\n        "@;
    let c0 = "/ipv6/*.ipv6\"\n\ntable netdev filter {\n"@;
    let c1 = "    chain log_geoblock_drop {\n        counter\n        limit rate 5/minute burst 2 packets log prefix \"GEOBLOCK-DROP-V4: \"\n        drop\n    }\n\n    chain log_geoblock_drop_v6 {\n        counter\n        limit rate 5/minute burst 2 packets log prefix \"GEOBLOCK-DROP-V6: \"\n        drop\n    }\n\n    set trusted_ipv4_set {\n        type ipv4_addr\n        flags interval\n        "@;
    let rest = trusted_clause(str_views(TRUSTED_IPV4@))
        + "\n    }\n\n    set trusted_ipv6_set {\n        type ipv6_addr\n        flags interval\n        "@
        + trusted_clause(str_views(TRUSTED_IPV6@))
        + "\n    }\n\n    set country_ipv4_block_set {\n        type ipv4_addr\n        flags interval\n        elements = { "@
        + country_elements(blocked_countries, ".ipv4"@)
        + " }\n    }\n\n    set country_ipv6_block_set {\n        type ipv6_addr\n        flags interval\n        elements = { "@
        + country_elements(blocked_countries, ".ipv6"@)
        + " }\n    }\n\n    chain ingress {\n        type filter hook ingress device \""@
        + interface
        + "\" priority 0; policy accept;\n\n        ip saddr @trusted_ipv4_set accept\n        ip6 saddr @trusted_ipv6_set accept\n\n        ip saddr @country_ipv4_block_set jump log_geoblock_drop\n        ip6 saddr @country_ipv6_block_set jump log_geoblock_drop_v6\n    }\n}\n"@;
    assert(text =~= a + GEOIP_SETS_PATH@ + b + GEOIP_SETS_PATH@ + c + rest);
    reveal_strlit("/var/local/geoipsets/dbip/nftset");
    reveal_strlit("# Advanced GeoIP blocking using highly efficient Sets\ninclude \"");
    reveal_strlit("/ipv4/*.ipv4\"\ninclude \"");
    reveal_strlit("/ipv6/*.ipv6\"\n\ntable netdev filter {\n    chain log_geoblock_drop {\n        counter\n        limit rate 5/minute burst 2 packets log prefix \"GEOBLOCK-DROP-V4: \"\n        drop\n    }\n\n    chain log_geoblock_drop_v6 {\n        counter\n        limit rate 5/minute burst 2 packets log prefix \"GEOBLOCK-DROP-V6: \"\n        drop\n    }\n\n    set trusted_ipv4_set {\n        type ipv4_addr\n        flags interval\n        ");
    reveal_strlit("/ipv6/*.ipv6\"\n\ntable netdev filter {\n");
    reveal_strlit("    chain log_geoblock_drop {\n        counter\n        limit rate 5/minute burst 2 packets log prefix \"GEOBLOCK-DROP-V4: \"\n        drop\n    }\n\n    chain log_geoblock_drop_v6 {\n        counter\n        limit rate 5/minute burst 2 packets log prefix \"GEOBLOCK-DROP-V6: \"\n        drop\n    }\n\n    set trusted_ipv4_set {\n        type ipv4_addr\n        flags interval\n        ");
    reveal_strlit("# Advanced GeoIP blocking using highly efficient Sets\ninclude \"/var/local/geoipsets/dbip/nftset/ipv4/*.ipv4\"\ninclude \"/var/local/geoipsets/dbip/nftset/ipv6/*.ipv6\"\n\ntable netdev filter {\n");
    assert(c =~= c0 + c1);
    assert(head =~= a + GEOIP_SETS_PATH@ + b + GEOIP_SETS_PATH@ + c0);
    assert(text =~= head + (c1 + rest));
    assert(text.take(head.len() as int) =~= head);
}

} // verus!
