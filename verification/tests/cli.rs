use oxidizer_firewall::cli::{parse_args, parse_bool, ArgError};

fn args(v: &[&str]) -> Vec<String> {
    v.iter().map(|s| s.to_string()).collect()
}

#[test]
fn bool_words() {
    for w in ["true", "TRUE", "1", "yes", "On"] {
        assert_eq!(parse_bool(w), Some(true), "{w}");
    }
    for w in ["false", "0", "NO", "off"] {
        assert_eq!(parse_bool(w), Some(false), "{w}");
    }
    for w in ["", "y", "enable", "truee"] {
        assert_eq!(parse_bool(w), None, "{w}");
    }
}

#[test]
fn default_options() {
    let o = parse_args(&[]).ok().unwrap();
    assert!(!o.is_test_mode);
    assert!(o.geoip_enabled);
}

#[test]
fn test_mode_spellings() {
    for a in ["--test", "-t", "flushinoneminute"] {
        let o = parse_args(&args(&[a])).ok().unwrap();
        assert!(o.is_test_mode);
        assert!(o.geoip_enabled);
    }
}

#[test]
fn geoip_flag_last_wins() {
    let o = parse_args(&args(&["--geoipblock=false", "--test", "--geoipblock=YES"])).ok().unwrap();
    assert!(o.is_test_mode);
    assert!(o.geoip_enabled);
    let o = parse_args(&args(&["--geoipblock=off"])).ok().unwrap();
    assert!(!o.geoip_enabled);
}

#[test]
fn refused_arguments() {
    match parse_args(&args(&["--geoipblock=maybe", "--bogus"])) {
        Err(ArgError::InvalidGeoipValue(v)) => assert_eq!(v, "maybe"),
        _ => panic!("invalid value comes first"),
    }
    match parse_args(&args(&["--test", "--bogus", "--geoipblock=maybe"])) {
        Err(ArgError::UnknownParameter(a)) => assert_eq!(a, "--bogus"),
        _ => panic!("unknown parameter comes first"),
    }
    match parse_args(&args(&["--geoipblock"])) {
        Err(ArgError::UnknownParameter(a)) => assert_eq!(a, "--geoipblock"),
        _ => panic!("flag without value is unknown"),
    }
}
