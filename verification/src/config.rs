//! Static configuration of the provisioner: the SSH port, the GeoIP
//! paths, the safety-timer length and the country and trust lists.

use vstd::prelude::*;

verus! {

/// The port sshd listens on.
pub const CUSTOM_SSH_PORT: u16 = 7909;

/// Where the generated netdev GeoIP ruleset is written before `nft -f`.
pub const GEOIP_CONFIG_PATH: &'static str = "/tmp/geoip-config.nft";

/// Where the per-country nft set files live (`ipv4/` and `ipv6/` below).
pub const GEOIP_SETS_PATH: &'static str = "/var/local/geoipsets/dbip/nftset";

/// Safety-test countdown duration in minutes (used by the `at` daemon).
pub const SAFETY_TIMER_MINUTES: u64 = 1;

/// ISO country codes to block. Easily add/remove here.
pub const BLOCKED_COUNTRIES: [&'static str; 27] = [
    "CN",
    "RU",
    "KP",
    "IR",
    "VN",
    "BR",
    "UA",
    "TR",
    "ID",
    "RO",
    "MX",
    "BD",
    "TH",
    "PH",
    "EG",
    "NG",
    "LY",
    "NL",
    "SG",
    "IN",
    "BG",
    "LT",
    "CO",
    "PE",
    "TW",
    "CR",
    "ZA",
];

/// Individually trusted IPv4 addresses or ranges that bypass GeoIP
/// entirely (still subject to every normal port/rate rule - this only
/// skips the country block), e.g. "203.0.113.50" or "198.51.100.0/24".
pub const TRUSTED_IPV4: [&'static str; 0] = [];

/// Individually trusted IPv6 addresses or ranges, e.g. "2001:db8::1".
pub const TRUSTED_IPV6: [&'static str; 0] = [];

} // verus!
