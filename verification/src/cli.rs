//! The command line: `fw [--test] [--geoipblock=<true|false>]`.

use vstd::prelude::*;

use crate::RunOptions;
use crate::text::{
    ascii_lower, chars_of, copy_range, eq_str, has_prefix, starts_with_str, string_of,
};

verus! {

/// The boolean that a flag value spells, ignoring ASCII case: true, 1,
/// yes, on or false, 0, no, off.
pub open spec fn bool_word(s: Seq<char>) -> Option<bool> {
    let l = ascii_lower(s);
    if l == "true"@ || l == "1"@ || l == "yes"@ || l == "on"@ {
        Some(true)
    } else if l == "false"@ || l == "0"@ || l == "no"@ || l == "off"@ {
        Some(false)
    } else {
        None
    }
}

/// `value` with ASCII capitals turned into small letters.
fn lower_chars(value: &str) -> (r: Vec<char>)
    ensures
        r@ == ascii_lower(value@),
{
    let chars = chars_of(value);
    let mut r: Vec<char> = Vec::new();
    let mut i: usize = 0;
    while i < chars.len()
        invariant
            chars@ == value@,
            i <= chars@.len(),
            r@ == ascii_lower(chars@.take(i as int)),
        decreases chars@.len() - i,
    {
        let c = chars[i];
        let l = if 'A' <= c && c <= 'Z' {
            ((c as u8) + 32) as char
        } else {
            c
        };
        r.push(l);
        i = i + 1;
        assert(r@ =~= ascii_lower(chars@.take(i as int)));
    }
    assert(chars@.take(i as int) =~= chars@);
    r
}

/// The boolean that a flag value spells, if it spells one.
pub fn parse_bool(value: &str) -> (r: Option<bool>)
    ensures
        r == bool_word(value@),
{
    let l = lower_chars(value);
    let s = l.as_slice();
    if eq_str(s, "true") || eq_str(s, "1") || eq_str(s, "yes") || eq_str(s, "on") {
        Some(true)
    } else if eq_str(s, "false") || eq_str(s, "0") || eq_str(s, "no") || eq_str(s, "off") {
        Some(false)
    } else {
        None
    }
}

/// Why the command line was refused.
pub enum ArgError {
    /// `--geoipblock=` was given a value that is no boolean.
    InvalidGeoipValue(String),
    /// An argument that the provisioner does not know.
    UnknownParameter(String),
}

/// A refusal as the contracts speak of it.
pub enum ArgErrorView {
    InvalidGeoipValue(Seq<char>),
    UnknownParameter(Seq<char>),
}

/// The view of a refusal.
pub open spec fn arg_error_view(e: ArgError) -> ArgErrorView {
    match e {
        ArgError::InvalidGeoipValue(v) => ArgErrorView::InvalidGeoipValue(v@),
        ArgError::UnknownParameter(a) => ArgErrorView::UnknownParameter(a@),
    }
}

/// Whether `a` asks for test mode (the last spelling is the older one).
pub open spec fn is_test_flag(a: Seq<char>) -> bool {
    a == "--test"@ || a == "-t"@ || a == "flushinoneminute"@
}

/// The options that `args` (after the program name) set, starting from
/// `opts`, or the first argument that is refused.
pub open spec fn apply_args(args: Seq<Seq<char>>, opts: RunOptions) -> Result<RunOptions, ArgErrorView>
    decreases args.len(),
{
    if args.len() == 0 {
        Ok(opts)
    } else {
        let a = args[0];
        if has_prefix(a, "--geoipblock="@) {
            let v = a.skip(13);
            match bool_word(v) {
                Some(b) => apply_args(args.drop_first(), RunOptions { geoip_enabled: b, ..opts }),
                None => Err(ArgErrorView::InvalidGeoipValue(v)),
            }
        } else if is_test_flag(a) {
            apply_args(args.drop_first(), RunOptions { is_test_mode: true, ..opts })
        } else {
            Err(ArgErrorView::UnknownParameter(a))
        }
    }
}

/// The options without any argument: production mode, GeoIP blocking on.
pub open spec fn default_options() -> RunOptions {
    RunOptions { is_test_mode: false, geoip_enabled: true }
}

/// The options that the command-line arguments (without the program name)
/// ask for, or the first argument that is refused.
pub fn parse_args(args: &[String]) -> (r: Result<RunOptions, ArgError>)
    ensures
        match r {
            Ok(o) => apply_args(crate::text::string_views(args@), default_options()) == Ok::<
                RunOptions,
                ArgErrorView,
            >(o),
            Err(e) => apply_args(crate::text::string_views(args@), default_options()) == Err::<
                RunOptions,
                ArgErrorView,
            >(arg_error_view(e)),
        },
{
    let ghost all = crate::text::string_views(args@);
    let mut opts = RunOptions { is_test_mode: false, geoip_enabled: true };
    let mut k: usize = 0;
    assert(all.skip(0) =~= all);
    while k < args.len()
        invariant
            all == crate::text::string_views(args@),
            k <= args@.len(),
            apply_args(all, default_options()) == apply_args(all.skip(k as int), opts),
        decreases args@.len() - k,
    {
        assert(all.skip(k as int).drop_first() =~= all.skip(k + 1));
        assert(all.skip(k as int)[0] == args@[k as int]@);
        let a = chars_of(args[k].as_str());
        if starts_with_str(a.as_slice(), "--geoipblock=") {
            assert("--geoipblock="@.len() == 13) by {
                reveal_strlit("--geoipblock=");
            }
            let v = string_of(copy_range(a.as_slice(), 13, a.len()).as_slice());
            assert(v@ =~= a@.skip(13));
            match parse_bool(v.as_str()) {
                Some(b) => {
                    opts = RunOptions { geoip_enabled: b, ..opts };
                },
                None => {
                    return Err(ArgError::InvalidGeoipValue(v));
                },
            }
        } else if eq_str(a.as_slice(), "--test") || eq_str(a.as_slice(), "-t") || eq_str(
            a.as_slice(),
            "flushinoneminute",
        ) {
            opts = RunOptions { is_test_mode: true, ..opts };
        } else {
            return Err(ArgError::UnknownParameter(args[k].clone()));
        }
        k = k + 1;
    }
    assert(all.skip(k as int) =~= Seq::<Seq<char>>::empty());
    Ok(opts)
}

/// The arguments are read from left to right: reading `first` and then
/// `rest` is reading `rest` from where `first` left the options, and the
/// first refused argument ends the reading.
pub proof fn law_args_read_left_to_right(
    first: Seq<Seq<char>>,
    rest: Seq<Seq<char>>,
    opts: RunOptions,
)
    ensures
        apply_args(first + rest, opts) == match apply_args(first, opts) {
            Ok(o) => apply_args(rest, o),
            Err(e) => Err(e),
        },
    decreases first.len(),
{
    if first.len() == 0 {
        assert(first + rest =~= rest);
    } else {
        let a = first[0];
        assert((first + rest)[0] == a);
        assert((first + rest).drop_first() =~= first.drop_first() + rest);
        if has_prefix(a, "--geoipblock="@) {
            match bool_word(a.skip(13)) {
                Some(b) => law_args_read_left_to_right(
                    first.drop_first(),
                    rest,
                    RunOptions { geoip_enabled: b, ..opts },
                ),
                None => {},
            }
        } else if is_test_flag(a) {
            law_args_read_left_to_right(
                first.drop_first(),
                rest,
                RunOptions { is_test_mode: true, ..opts },
            );
        }
    }
}

/// The last `--geoipblock=` flag decides: appending one with a boolean
/// value to arguments that were accepted sets GeoIP blocking to that value
/// and changes nothing else.
pub proof fn law_last_geoip_flag_wins(args: Seq<Seq<char>>, v: Seq<char>, opts: RunOptions)
    requires
        apply_args(args, opts) is Ok,
        bool_word(v) is Some,
    ensures
        apply_args(args.push("--geoipblock="@ + v), opts) == Ok::<RunOptions, ArgErrorView>(
            RunOptions { geoip_enabled: bool_word(v).unwrap(), ..apply_args(args, opts)->Ok_0 },
        ),
{
    let flag = "--geoipblock="@ + v;
    reveal_strlit("--geoipblock=");
    assert(flag.take(13) =~= "--geoipblock="@);
    assert(flag.skip(13) =~= v);
    assert(args.push(flag) =~= args + seq![flag]);
    law_args_read_left_to_right(args, seq![flag], opts);
    let o = apply_args(args, opts)->Ok_0;
    let o2 = RunOptions { geoip_enabled: bool_word(v).unwrap(), ..o };
    assert(seq![flag].drop_first() =~= Seq::<Seq<char>>::empty());
    assert(has_prefix(flag, "--geoipblock="@));
    assert(apply_args(Seq::<Seq<char>>::empty(), o2) == Ok::<RunOptions, ArgErrorView>(o2));
    assert(apply_args(seq![flag], o) == apply_args(seq![flag].drop_first(), o2));
}

/// A test flag turns test mode on and leaves GeoIP blocking as the
/// arguments before it set it: appending `--test`, `-t` or
/// `flushinoneminute` to arguments that were accepted changes nothing
/// else.
pub proof fn law_test_flag_keeps_geoip(args: Seq<Seq<char>>, t: Seq<char>, opts: RunOptions)
    requires
        apply_args(args, opts) is Ok,
        t == "--test"@ || t == "-t"@ || t == "flushinoneminute"@,
    ensures
        apply_args(args.push(t), opts) == Ok::<RunOptions, ArgErrorView>(
            RunOptions {
                is_test_mode: true,
                geoip_enabled: (apply_args(args, opts)->Ok_0).geoip_enabled,
            },
        ),
{
    reveal_strlit("--test");
    reveal_strlit("-t");
    reveal_strlit("flushinoneminute");
    reveal_strlit("--geoipblock=");
    assert("--geoipblock="@.len() == 13);
    if t == "--test"@ {
        assert("--test"@.len() == 6);
    } else if t == "-t"@ {
        assert("-t"@.len() == 2);
    } else {
        assert("flushinoneminute"@.len() == 16);
        assert(t[0] == 'f');
        assert(t.take(13)[0] != "--geoipblock="@[0]);
    }
    assert(!has_prefix(t, "--geoipblock="@));
    assert(is_test_flag(t));
    assert(args.push(t) =~= args + seq![t]);
    law_args_read_left_to_right(args, seq![t], opts);
    let o = apply_args(args, opts)->Ok_0;
    let o2 = RunOptions { is_test_mode: true, ..o };
    assert(seq![t][0] == t);
    assert(seq![t].drop_first() =~= Seq::<Seq<char>>::empty());
    assert(apply_args(Seq::<Seq<char>>::empty(), o2) == Ok::<RunOptions, ArgErrorView>(o2));
    assert(apply_args(seq![t], o) == apply_args(seq![t].drop_first(), o2));
}

/// An argument that is no test flag and does not begin with
/// `--geoipblock=` is refused as unknown, after arguments that were
/// accepted.
pub proof fn law_unknown_argument_refused(args: Seq<Seq<char>>, a: Seq<char>, opts: RunOptions)
    requires
        apply_args(args, opts) is Ok,
        a != "--test"@ && a != "-t"@ && a != "flushinoneminute"@,
        !(a.len() >= 13 && a.take(13) == "--geoipblock="@),
    ensures
        apply_args(args.push(a), opts) == Err::<RunOptions, ArgErrorView>(
            ArgErrorView::UnknownParameter(a),
        ),
{
    reveal_strlit("--geoipblock=");
    assert("--geoipblock="@.len() == 13);
    assert(!has_prefix(a, "--geoipblock="@));
    assert(args.push(a) =~= args + seq![a]);
    law_args_read_left_to_right(args, seq![a], opts);
    assert(seq![a][0] == a);
}

/// The value of `--geoipblock=` is read without regard to ASCII case:
/// true, 1, yes and on turn GeoIP blocking on, false, 0, no and off turn
/// it off, and any other value is refused, after arguments that were
/// accepted.
pub proof fn law_geoip_flag_values(args: Seq<Seq<char>>, v: Seq<char>, opts: RunOptions)
    requires
        apply_args(args, opts) is Ok,
    ensures
        ({
            let before = apply_args(args, opts)->Ok_0;
            let r = apply_args(args.push("--geoipblock="@ + v), opts);
            let l = ascii_lower(v);
            &&& (l == "true"@ || l == "1"@ || l == "yes"@ || l == "on"@) ==> r == Ok::<
                RunOptions,
                ArgErrorView,
            >(RunOptions { is_test_mode: before.is_test_mode, geoip_enabled: true })
            &&& (l == "false"@ || l == "0"@ || l == "no"@ || l == "off"@) ==> r == Ok::<
                RunOptions,
                ArgErrorView,
            >(RunOptions { is_test_mode: before.is_test_mode, geoip_enabled: false })
            &&& !(l == "true"@ || l == "1"@ || l == "yes"@ || l == "on"@ || l == "false"@ || l
                == "0"@ || l == "no"@ || l == "off"@) ==> r == Err::<RunOptions, ArgErrorView>(
                ArgErrorView::InvalidGeoipValue(v),
            )
        }),
{
    let l = ascii_lower(v);
    reveal_strlit("true");
    reveal_strlit("1");
    reveal_strlit("yes");
    reveal_strlit("on");
    reveal_strlit("false");
    reveal_strlit("0");
    reveal_strlit("no");
    reveal_strlit("off");
    if bool_word(v) is Some {
        law_last_geoip_flag_wins(args, v, opts);
        assert((l == "true"@ || l == "1"@ || l == "yes"@ || l == "on"@) ==> bool_word(v) == Some(true));
        if l == "false"@ {
            assert(l.len() == 5);
        } else if l == "0"@ {
            assert(l[0] == '0');
        } else if l == "no"@ {
            assert(l.len() == 2 && l[0] == 'n');
        } else if l == "off"@ {
            assert(l.len() == 3 && l[0] == 'o');
        }
        assert((l == "false"@ || l == "0"@ || l == "no"@ || l == "off"@) ==> bool_word(v) == Some(false));
    } else {
        let flag = "--geoipblock="@ + v;
        reveal_strlit("--geoipblock=");
        assert(flag.take(13) =~= "--geoipblock="@);
        assert(flag.skip(13) =~= v);
        assert(has_prefix(flag, "--geoipblock="@));
        assert(args.push(flag) =~= args + seq![flag]);
        law_args_read_left_to_right(args, seq![flag], opts);
        assert(seq![flag][0] == flag);
        assert(apply_args(seq![flag], apply_args(args, opts)->Ok_0) == Err::<RunOptions, ArgErrorView>(
            ArgErrorView::InvalidGeoipValue(v),
        ));
    }
}

/// Without a `--geoipblock=` flag GeoIP blocking stays on: arguments that
/// are all test flags give test mode if there is one, and GeoIP blocking
/// on.
pub proof fn law_geoip_on_unless_turned_off(args: Seq<Seq<char>>)
    requires
        forall|i: int|
            0 <= i < args.len() ==> (#[trigger] args[i] == "--test"@ || args[i] == "-t"@ || args[i]
                == "flushinoneminute"@),
    ensures
        apply_args(args, default_options()) == Ok::<RunOptions, ArgErrorView>(
            RunOptions { is_test_mode: args.len() > 0, geoip_enabled: true },
        ),
    decreases args.len(),
{
    if args.len() == 0 {
    } else {
        let init = args.drop_last();
        assert forall|i: int| 0 <= i < init.len() implies (#[trigger] init[i] == "--test"@ || init[i]
            == "-t"@ || init[i] == "flushinoneminute"@) by {
            assert(init[i] == args[i]);
        }
        law_geoip_on_unless_turned_off(init);
        assert(init.push(args.last()) =~= args);
        assert(args[args.len() - 1] == args.last());
        law_test_flag_keeps_geoip(init, args.last(), default_options());
    }
}

} // verus!
