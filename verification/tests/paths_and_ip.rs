use microbin_config::Args;
use microbin_config::BindAddr;
use microbin_config::CliInput;
use microbin_config::EnvInput;
use microbin_config::PublicUrl;
use microbin_config::ip::parse_ipv4;

fn s(t: &str) -> Option<String> {
    Some(String::from(t))
}

#[test]
fn normalization_strips_one_trailing_slash() {
    assert_eq!(PublicUrl::from_str("/foo/").0, "/foo");
    assert_eq!(PublicUrl::from_str("/foo").0, "/foo");
    // Normalizing the already-normalized value changes nothing.
    let once = PublicUrl::from_str("/foo/").0;
    assert_eq!(PublicUrl::from_str(&once).0, "/foo");
    // Exactly one slash is stripped per application.
    assert_eq!(PublicUrl::from_str("/foo//").0, "/foo/");
    assert_eq!(PublicUrl::from_str("/").0, "");
    assert_eq!(PublicUrl::from_str("").0, "");
}

#[test]
fn public_path_accessor() {
    let mut cli = CliInput::empty();
    cli.public_path = s("/pub/");
    let args = Args::resolve(&cli, &EnvInput::empty(), None).unwrap();
    assert_eq!(args.public_path_as_str(), "/pub");

    let args = Args::resolve(&CliInput::empty(), &EnvInput::empty(), None).unwrap();
    assert_eq!(args.public_path_as_str(), "");
}

#[test]
fn short_path_fallback_chain() {
    // public_path set, short_path unset: the short path falls back.
    let mut cli = CliInput::empty();
    cli.public_path = s("/pub");
    let args = Args::resolve(&cli, &EnvInput::empty(), None).unwrap();
    assert_eq!(args.short_path_as_str(), "/pub");

    // Both unset: empty.
    let args = Args::resolve(&CliInput::empty(), &EnvInput::empty(), None).unwrap();
    assert_eq!(args.short_path_as_str(), "");

    // Both set: short_path wins.
    let mut cli = CliInput::empty();
    cli.public_path = s("/pub");
    cli.short_path = s("/s");
    let args = Args::resolve(&cli, &EnvInput::empty(), None).unwrap();
    assert_eq!(args.short_path_as_str(), "/s");
}

#[test]
fn path_precedence_and_env() {
    let mut cli = CliInput::empty();
    let mut env = EnvInput::empty();
    cli.public_path = s("/from-flag/");
    env.public_path = s("/from-env/");
    let args = Args::resolve(&cli, &env, None).unwrap();
    assert_eq!(args.public_path_as_str(), "/from-flag");

    let mut env = EnvInput::empty();
    env.short_path = s("/env-short/");
    let args = Args::resolve(&CliInput::empty(), &env, None).unwrap();
    assert_eq!(args.short_path_as_str(), "/env-short");
}

#[test]
fn ipv4_accepted_forms() {
    assert_eq!(parse_ipv4("0.0.0.0"), Some(BindAddr::V4(0, 0, 0, 0)));
    assert_eq!(parse_ipv4("127.0.0.1"), Some(BindAddr::V4(127, 0, 0, 1)));
    assert_eq!(parse_ipv4("255.255.255.255"), Some(BindAddr::V4(255, 255, 255, 255)));
    assert_eq!(parse_ipv4("192.168.10.42"), Some(BindAddr::V4(192, 168, 10, 42)));
}

#[test]
fn ipv4_rejected_forms() {
    for bad in [
        "", ".", "...", "1.2.3", "1.2.3.4.5", "256.1.1.1", "01.2.3.4", "1.2.3.04", "+1.2.3.4",
        "1.2.3.4 ", "1..3.4", "1.2.3.", ".1.2.3.4", "a.b.c.d", "1234.1.1.1", "::1", "lo",
    ] {
        assert_eq!(parse_ipv4(bad), None, "{:?} should not parse as IPv4", bad);
    }
}
