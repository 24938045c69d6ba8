//! Host and interface detection: what the output of `hostname`,
//! `ip route show default` and `ip link show` says.

use vstd::prelude::*;

use crate::logging::{LogLevel, LogLine, log_line};
use crate::text::{
    all_ascii, ascii_lower, is_ws, leading_ws, occurs_at, trailing_ws,
    chars_of, contains, contains_chars, has_prefix, position, position_of,
    split_lines, split_words, starts_with_str, string_of, string_views, text_lines, trim,
    trim_chars, trim_end_char, trim_end_char_chars, trim_start, trim_start_chars, views, words,
};

verus! {

/// The hosts that have a firewall profile.
#[derive(Debug, Clone, Copy, PartialEq, Eq, Structural)]
pub enum Host {
    Oxidizer,
    Radon,
    Tungsten,
    Cobalt,
    Cryptlok,
    Unknown,
}

/// The name of a host, as it appears in its hostname.
pub open spec fn host_name(h: Host) -> Seq<char> {
    match h {
        Host::Oxidizer => "oxidizer"@,
        Host::Radon => "radon"@,
        Host::Tungsten => "tungsten"@,
        Host::Cobalt => "cobalt"@,
        Host::Cryptlok => "cryptlok"@,
        Host::Unknown => "unknown"@,
    }
}

impl Host {
    /// The host's name.
    pub fn as_str(self) -> (r: &'static str)
        ensures
            r@ == host_name(self),
    {
        match self {
            Host::Oxidizer => "oxidizer",
            Host::Radon => "radon",
            Host::Tungsten => "tungsten",
            Host::Cobalt => "cobalt",
            Host::Cryptlok => "cryptlok",
            Host::Unknown => "unknown",
        }
    }

    /// Whether this is the radon host, which gets extra rules.
    pub fn is_radon(self) -> (r: bool)
        ensures
            r == (self == Host::Radon),
    {
        match self {
            Host::Radon => true,
            _ => false,
        }
    }
}

/// The lower-case form of `s`, as `str::to_lowercase` computes it from the
/// Unicode case tables.
pub uninterp spec fn lowercase(s: Seq<char>) -> Seq<char>;

/// `str::to_lowercase`. Its contract claims that the result is a fixed
/// function of the argument, named `lowercase`, and that on ASCII text it
/// turns the ASCII capitals into small letters and keeps every other
/// character (as `str::to_ascii_lowercase` does); the Unicode case mapping
/// of other text is not stated.
#[verifier::external_body]
fn to_lowercase(s: &str) -> (r: String)
    ensures
        r@ == lowercase(s@),
        all_ascii(s@) ==> r@ == ascii_lower(s@),
{
    s.to_lowercase()
}

/// The host that a (trimmed, lower-cased) hostname names: the first of
/// oxidizer, radon, tungsten, cobalt, cryptlok that it contains.
pub open spec fn classify(name: Seq<char>) -> Host {
    if contains(name, "oxidizer"@) {
        Host::Oxidizer
    } else if contains(name, "radon"@) {
        Host::Radon
    } else if contains(name, "tungsten"@) {
        Host::Tungsten
    } else if contains(name, "cobalt"@) {
        Host::Cobalt
    } else if contains(name, "cryptlok"@) {
        Host::Cryptlok
    } else {
        Host::Unknown
    }
}

/// Whether the lower-cased `name` contains the literal `needle`.
fn name_contains(name: &Vec<char>, needle: &str) -> (r: bool)
    ensures
        r == contains(name@, needle@),
{
    let n = chars_of(needle);
    contains_chars(name.as_slice(), n.as_slice())
}

/// The host that `hostname` printed (`raw`, with its newline).
pub fn host_from_hostname(raw: &str) -> (h: Host)
    ensures
        h == classify(lowercase(trim(raw@))),
        all_ascii(trim(raw@)) ==> h == classify(ascii_lower(trim(raw@))),
{
    let chars = chars_of(raw);
    let trimmed = string_of(trim_chars(chars.as_slice()).as_slice());
    let lower = to_lowercase(trimmed.as_str());
    let name = chars_of(lower.as_str());
    if name_contains(&name, "oxidizer") {
        Host::Oxidizer
    } else if name_contains(&name, "radon") {
        Host::Radon
    } else if name_contains(&name, "tungsten") {
        Host::Tungsten
    } else if name_contains(&name, "cobalt") {
        Host::Cobalt
    } else if name_contains(&name, "cryptlok") {
        Host::Cryptlok
    } else {
        Host::Unknown
    }
}

/// `p` does not stand in `s` at `i` where a character differs.
proof fn lemma_differs_at(s: Seq<char>, p: Seq<char>, i: int, j: int)
    requires
        0 <= i,
        0 <= j < p.len(),
        i + j < s.len(),
        s[i + j] != p[j],
    ensures
        !occurs_at(s, p, i),
{
    if occurs_at(s, p, i) {
        assert(s.subrange(i, i + p.len())[j] == s[i + j]);
    }
}

/// Which host names each host name contains.
proof fn lemma_names_contain(a: Host, b: Host)
    requires
        a != Host::Unknown,
    ensures
        contains(host_name(b), host_name(a)) <==> a == b,
{
    reveal_strlit("oxidizer");
    reveal_strlit("radon");
    reveal_strlit("tungsten");
    reveal_strlit("cobalt");
    reveal_strlit("cryptlok");
    reveal_strlit("unknown");
    let s = host_name(b);
    let p = host_name(a);
    if a == b {
        assert(s.subrange(0, s.len() as int) =~= p);
        assert(occurs_at(s, p, 0));
    } else {
        assert forall|i: int| !#[trigger] occurs_at(s, p, i) by {
            if 0 <= i && i + p.len() <= s.len() {
                if a == Host::Oxidizer && b == Host::Tungsten && i == 0 {
                    lemma_differs_at(s, p, i, 0);
                } else if a == Host::Oxidizer && b == Host::Cryptlok && i == 0 {
                    lemma_differs_at(s, p, i, 0);
                } else if a == Host::Radon && b == Host::Oxidizer && i == 0 {
                    lemma_differs_at(s, p, i, 0);
                } else if a == Host::Radon && b == Host::Oxidizer && i == 1 {
                    lemma_differs_at(s, p, i, 0);
                } else if a == Host::Radon && b == Host::Oxidizer && i == 2 {
                    lemma_differs_at(s, p, i, 0);
                } else if a == Host::Radon && b == Host::Oxidizer && i == 3 {
                    lemma_differs_at(s, p, i, 0);
                } else if a == Host::Radon && b == Host::Tungsten && i == 0 {
                    lemma_differs_at(s, p, i, 0);
                } else if a == Host::Radon && b == Host::Tungsten && i == 1 {
                    lemma_differs_at(s, p, i, 0);
                } else if a == Host::Radon && b == Host::Tungsten && i == 2 {
                    lemma_differs_at(s, p, i, 0);
                } else if a == Host::Radon && b == Host::Tungsten && i == 3 {
                    lemma_differs_at(s, p, i, 0);
                } else if a == Host::Radon && b == Host::Cobalt && i == 0 {
                    lemma_differs_at(s, p, i, 0);
                } else if a == Host::Radon && b == Host::Cobalt && i == 1 {
                    lemma_differs_at(s, p, i, 0);
                } else if a == Host::Radon && b == Host::Cryptlok && i == 0 {
                    lemma_differs_at(s, p, i, 0);
                } else if a == Host::Radon && b == Host::Cryptlok && i == 1 {
                    lemma_differs_at(s, p, i, 1);
                } else if a == Host::Radon && b == Host::Cryptlok && i == 2 {
                    lemma_differs_at(s, p, i, 0);
                } else if a == Host::Radon && b == Host::Cryptlok && i == 3 {
                    lemma_differs_at(s, p, i, 0);
                } else if a == Host::Radon && b == Host::Unknown && i == 0 {
                    lemma_differs_at(s, p, i, 0);
                } else if a == Host::Radon && b == Host::Unknown && i == 1 {
                    lemma_differs_at(s, p, i, 0);
                } else if a == Host::Radon && b == Host::Unknown && i == 2 {
                    lemma_differs_at(s, p, i, 0);
                } else if a == Host::Tungsten && b == Host::Oxidizer && i == 0 {
                    lemma_differs_at(s, p, i, 0);
                } else if a == Host::Tungsten && b == Host::Cryptlok && i == 0 {
                    lemma_differs_at(s, p, i, 0);
                } else if a == Host::Cobalt && b == Host::Oxidizer && i == 0 {
                    lemma_differs_at(s, p, i, 0);
                } else if a == Host::Cobalt && b == Host::Oxidizer && i == 1 {
                    lemma_differs_at(s, p, i, 0);
                } else if a == Host::Cobalt && b == Host::Oxidizer && i == 2 {
                    lemma_differs_at(s, p, i, 0);
                } else if a == Host::Cobalt && b == Host::Tungsten && i == 0 {
                    lemma_differs_at(s, p, i, 0);
                } else if a == Host::Cobalt && b == Host::Tungsten && i == 1 {
                    lemma_differs_at(s, p, i, 0);
                } else if a == Host::Cobalt && b == Host::Tungsten && i == 2 {
                    lemma_differs_at(s, p, i, 0);
                } else if a == Host::Cobalt && b == Host::Cryptlok && i == 0 {
                    lemma_differs_at(s, p, i, 1);
                } else if a == Host::Cobalt && b == Host::Cryptlok && i == 1 {
                    lemma_differs_at(s, p, i, 0);
                } else if a == Host::Cobalt && b == Host::Cryptlok && i == 2 {
                    lemma_differs_at(s, p, i, 0);
                } else if a == Host::Cobalt && b == Host::Unknown && i == 0 {
                    lemma_differs_at(s, p, i, 0);
                } else if a == Host::Cobalt && b == Host::Unknown && i == 1 {
                    lemma_differs_at(s, p, i, 0);
                } else if a == Host::Cryptlok && b == Host::Oxidizer && i == 0 {
                    lemma_differs_at(s, p, i, 0);
                } else if a == Host::Cryptlok && b == Host::Tungsten && i == 0 {
                    lemma_differs_at(s, p, i, 0);
                }
            }
        }
    }
}

/// Trimming a name that neither begins nor ends with white space, followed
/// by a newline, gives the name back.
proof fn lemma_trim_name_line(name: Seq<char>, raw: Seq<char>)
    requires
        name.len() > 0,
        !is_ws(name[0]),
        !is_ws(name.last()),
        raw == name.push('\n'),
    ensures
        trim(raw) == name,
{
    assert(raw[0] == name[0]);
    assert(leading_ws(raw) == 0);
    assert(raw.skip(0) =~= raw);
    assert(raw.drop_last() =~= name);
    assert(trailing_ws(name) == 0);
    assert(trailing_ws(raw) == 1);
    assert(raw.take(raw.len() - 1) =~= name);
}

/// A name of small ASCII letters is ASCII and lower-casing keeps it.
proof fn lemma_lower_name(name: Seq<char>)
    requires
        forall|i: int| 0 <= i < name.len() ==> 'a' <= #[trigger] name[i] <= 'z',
    ensures
        all_ascii(name),
        ascii_lower(name) == name,
{
    assert(ascii_lower(name) =~= name);
}

/// What `hostname` prints for each host (its name and a newline) is ASCII
/// text that detection reads back as that host: detection inverts
/// `Host::as_str`, `Unknown` included.
pub proof fn law_hostname_names_host(h: Host)
    ensures
        all_ascii(trim(host_name(h) + "\n"@)),
        classify(ascii_lower(trim(host_name(h) + "\n"@))) == h,
{
    let name = host_name(h);
    reveal_strlit("\n");
    assert(name + "\n"@ =~= name.push('\n'));
    match h {
        Host::Oxidizer => {
            reveal_strlit("oxidizer");
        },
        Host::Radon => {
            reveal_strlit("radon");
        },
        Host::Tungsten => {
            reveal_strlit("tungsten");
        },
        Host::Cobalt => {
            reveal_strlit("cobalt");
        },
        Host::Cryptlok => {
            reveal_strlit("cryptlok");
        },
        Host::Unknown => {
            reveal_strlit("unknown");
        },
    }
    lemma_trim_name_line(name, name.push('\n'));
    lemma_lower_name(name);
    lemma_names_contain(Host::Oxidizer, h);
    lemma_names_contain(Host::Radon, h);
    lemma_names_contain(Host::Tungsten, h);
    lemma_names_contain(Host::Cobalt, h);
    lemma_names_contain(Host::Cryptlok, h);
}

/// The interface of the default route in `lines`: in the first line that
/// begins with `default`, the word after the first `dev` (none if that
/// line has no `dev`, or nothing after it).
pub open spec fn route_interface(lines: Seq<Seq<char>>) -> Option<Seq<char>>
    decreases lines.len(),
{
    if lines.len() == 0 {
        None
    } else if !has_prefix(lines[0], "default"@) {
        route_interface(lines.drop_first())
    } else {
        let t = words(lines[0]);
        match position(t, "dev"@) {
            None => None,
            Some(p) => if p + 1 < t.len() {
                Some(t[p + 1])
            } else {
                None
            },
        }
    }
}

/// The interface that `ip route show default` names in `route_output`.
pub fn parse_default_route_interface(route_output: &str) -> (r: Option<String>)
    ensures
        match r {
            Some(iface) => route_interface(text_lines(route_output@)) == Some(iface@),
            None => route_interface(text_lines(route_output@)) is None,
        },
{
    let chars = chars_of(route_output);
    let lines = split_lines(chars.as_slice());
    let ghost all = views(lines@);
    let mut k: usize = 0;
    assert(all.skip(0) =~= all);
    while k < lines.len()
        invariant
            all == views(lines@),
            all == text_lines(route_output@),
            k <= lines@.len(),
            route_interface(all) == route_interface(all.skip(k as int)),
        decreases lines@.len() - k,
    {
        assert(all.skip(k as int).drop_first() =~= all.skip(k + 1));
        assert(all.skip(k as int)[0] == lines@[k as int]@);
        if !starts_with_str(lines[k].as_slice(), "default") {
            k = k + 1;
            continue;
        }
        let tokens = split_words(lines[k].as_slice());
        match position_of(&tokens, "dev") {
            None => {
                return None;
            },
            Some(pos) => {
                if pos < tokens.len() - 1 {
                    return Some(string_of(tokens[pos + 1].as_slice()));
                } else {
                    return None;
                }
            },
        }
    }
    None
}

/// The interface names to try, in order, when the default route names
/// none.
pub open spec fn fallback_names() -> Seq<Seq<char>> {
    seq!["eth0"@, "ens3"@, "ens18"@, "enp0s3"@, "enp1s0"@]
}

/// The interface names to try, in order, when the default route names
/// none.
pub fn fallback_interfaces() -> (r: Vec<String>)
    ensures
        string_views(r@) == fallback_names(),
        r@.len() == 5,
{
    let mut r: Vec<String> = Vec::new();
    r.push(String::from_str("eth0"));
    r.push(String::from_str("ens3"));
    r.push(String::from_str("ens18"));
    r.push(String::from_str("enp0s3"));
    r.push(String::from_str("enp1s0"));
    assert(string_views(r@) =~= fallback_names());
    r
}

/// Whether `c` is an ASCII digit.
pub open spec fn is_ascii_digit(c: char) -> bool {
    '0' <= c <= '9'
}

/// The interface names in the `ip link show` lines `lines`: for each line
/// that, without its leading white space, begins with an ASCII digit and
/// has a second word, that word without trailing colons.
pub open spec fn link_names_in(lines: Seq<Seq<char>>) -> Seq<Seq<char>>
    decreases lines.len(),
{
    if lines.len() == 0 {
        seq![]
    } else {
        let t = trim_start(lines[0]);
        let w = words(t);
        if t.len() > 0 && is_ascii_digit(t[0]) && w.len() > 1 {
            seq![trim_end_char(w[1], ':')] + link_names_in(lines.drop_first())
        } else {
            link_names_in(lines.drop_first())
        }
    }
}

/// The interface names that `ip link show` lists, for the operator to pick
/// from when detection failed.
pub fn link_names(listing: &str) -> (r: Vec<String>)
    ensures
        string_views(r@) == link_names_in(text_lines(listing@)),
{
    let chars = chars_of(listing);
    let lines = split_lines(chars.as_slice());
    let ghost all = views(lines@);
    let mut out: Vec<String> = Vec::new();
    let mut k: usize = 0;
    assert(all.skip(0) =~= all);
    while k < lines.len()
        invariant
            all == views(lines@),
            all == text_lines(listing@),
            k <= lines@.len(),
            link_names_in(all) == string_views(out@) + link_names_in(all.skip(k as int)),
        decreases lines@.len() - k,
    {
        assert(all.skip(k as int).drop_first() =~= all.skip(k + 1));
        assert(all.skip(k as int)[0] == lines@[k as int]@);
        let t = trim_start_chars(lines[k].as_slice());
        let w = split_words(t.as_slice());
        if t.len() > 0 && '0' <= t[0] && t[0] <= '9' && w.len() > 1 {
            let name = trim_end_char_chars(w[1].as_slice(), ':');
            let ghost before = out@;
            out.push(string_of(name.as_slice()));
            assert(string_views(out@) =~= string_views(before) + seq![name@]);
        }
        k = k + 1;
    }
    assert(all.skip(k as int) =~= Seq::<Seq<char>>::empty());
    assert(string_views(out@) + Seq::<Seq<char>>::empty() =~= string_views(out@));
    out
}

/// What interface detection learns from the caller.
pub enum InterfaceEvent {
    /// `ip route show default` printed this.
    RouteListed(String),
    /// `ip link show` of the fallback name number `candidate` succeeded
    /// (`exists`) or not.
    Probed { candidate: usize, exists: bool },
}

/// What interface detection does next.
pub enum InterfaceAction {
    /// The interface is found.
    Found(String),
    /// Print `notice` if there is one, then check with `ip link show`
    /// whether the fallback name number `candidate` exists.
    Probe { candidate: usize, name: String, notice: Option<LogLine> },
    /// No interface found: print these messages, list the interfaces that
    /// exist, and fail.
    GiveUp(Vec<LogLine>),
}

/// The decisions of interface detection: the default route's interface,
/// or else the first fallback name that exists, in order; else give up.
pub fn detect_interface_step(event: InterfaceEvent) -> (a: InterfaceAction)
    ensures
        match event {
            InterfaceEvent::RouteListed(out) => match route_interface(text_lines(out@)) {
                Some(i) => a matches InterfaceAction::Found(f) && f@ == i,
                None => a matches InterfaceAction::Probe { candidate, name, notice } && candidate
                    == 0 && name@ == fallback_names()[0] && (notice matches Some(l) && l.level
                    == LogLevel::Warning && l.text@
                    == "Could not auto-detect interface, trying common names..."@),
            },
            InterfaceEvent::Probed { candidate, exists } => if candidate < 5 && exists {
                a matches InterfaceAction::Found(f) && f@ == fallback_names()[candidate as int]
            } else if candidate + 1 < 5 {
                a matches InterfaceAction::Probe { candidate: c, name, notice } && c == candidate
                    + 1 && name@ == fallback_names()[c as int] && notice is None
            } else {
                a matches InterfaceAction::GiveUp(logs) && logs@.len() == 2 && logs@[0].level
                    == LogLevel::Error && logs@[0].text@ == "Failed to detect network interface!"@
                    && logs@[1].level == LogLevel::Honey && logs@[1].text@
                    == "Available interfaces:"@
            },
        },
{
    match event {
        InterfaceEvent::RouteListed(out) => match parse_default_route_interface(out.as_str()) {
            Some(i) => InterfaceAction::Found(i),
            None => {
                let names = fallback_interfaces();
                let name = names[0].clone();
                assert(name@ == string_views(names@)[0]);
                InterfaceAction::Probe {
                    candidate: 0,
                    name,
                    notice: Some(
                        log_line(
                            LogLevel::Warning,
                            "Could not auto-detect interface, trying common names...",
                        ),
                    ),
                }
            },
        },
        InterfaceEvent::Probed { candidate, exists } => {
            let names = fallback_interfaces();
            assert(forall|k: int| 0 <= k < 5 ==> names@[k]@ == #[trigger] fallback_names()[k]) by {
                assert(forall|k: int| 0 <= k < 5 ==> names@[k]@ == #[trigger] string_views(names@)[k]);
            }
            if candidate < names.len() && exists {
                InterfaceAction::Found(names[candidate].clone())
            } else if candidate < names.len() - 1 {
                InterfaceAction::Probe {
                    candidate: candidate + 1,
                    name: names[candidate + 1].clone(),
                    notice: None,
                }
            } else {
                let mut logs: Vec<LogLine> = Vec::new();
                logs.push(log_line(LogLevel::Error, "Failed to detect network interface!"));
                logs.push(log_line(LogLevel::Honey, "Available interfaces:"));
                InterfaceAction::GiveUp(logs)
            }
        },
    }
}

} // verus!
