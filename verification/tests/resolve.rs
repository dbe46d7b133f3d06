use microbin_config::Args;
use microbin_config::BindAddr;
use microbin_config::CliInput;
use microbin_config::ConfigError;
use microbin_config::EnvInput;
use microbin_config::NumField;

fn s(t: &str) -> Option<String> {
    Some(String::from(t))
}

#[test]
fn all_defaults() {
    let cli = CliInput::empty();
    let env = EnvInput::empty();
    let args = Args::resolve(&cli, &env, None).unwrap();
    assert_eq!(args.port, 8080);
    assert_eq!(args.threads, 1);
    assert_eq!(args.gc_days, 90);
    assert_eq!(args.default_burn_after, 0);
    assert_eq!(args.max_file_size_encrypted_mb, 256);
    assert_eq!(args.max_file_size_unencrypted_mb, 2048);
    assert_eq!(args.auth_admin_username, "admin");
    assert_eq!(args.auth_admin_password, "m1cr0b1n");
    assert_eq!(args.default_expiry, "24hour");
    assert_eq!(args.bind, BindAddr::V4(0, 0, 0, 0));
    assert_eq!(args.auth_basic_username, None);
    assert_eq!(args.auth_basic_password, None);
    assert_eq!(args.footer_text, None);
    assert_eq!(args.title, None);
    assert_eq!(args.custom_css, None);
    assert!(args.public_path.is_none());
    assert!(args.short_path.is_none());
    assert!(!args.editable);
    assert!(!args.hide_footer);
    assert!(!args.hide_header);
    assert!(!args.hide_logo);
    assert!(!args.no_listing);
    assert!(!args.highlightsyntax);
    assert!(!args.private);
    assert!(!args.pure_html);
    assert!(!args.json_db);
    assert!(!args.readonly);
    assert!(!args.show_read_stats);
    assert!(!args.enable_burn_after);
    assert!(!args.wide);
    assert!(!args.qr);
    assert!(!args.eternal_pasta);
    assert!(!args.enable_readonly);
    assert!(!args.no_file_upload);
    assert!(!args.hash_ids);
    assert!(!args.encryption_client_side);
    assert!(!args.encryption_server_side);
}

#[test]
fn cli_wins_over_env_for_port() {
    let mut cli = CliInput::empty();
    let mut env = EnvInput::empty();
    cli.port = s("9090");
    env.port = s("7070");
    let args = Args::resolve(&cli, &env, None).unwrap();
    assert_eq!(args.port, 9090);
}

#[test]
fn cli_wins_over_env_for_strings() {
    let mut cli = CliInput::empty();
    let mut env = EnvInput::empty();
    cli.title = s("from-flag");
    env.title = s("from-env");
    cli.auth_admin_username = s("root");
    env.auth_admin_username = s("operator");
    let args = Args::resolve(&cli, &env, None).unwrap();
    assert_eq!(args.title, s("from-flag"));
    assert_eq!(args.auth_admin_username, "root");
}

#[test]
fn env_used_when_no_flag() {
    let cli = CliInput::empty();
    let mut env = EnvInput::empty();
    env.port = s("7070");
    env.title = s("from-env");
    env.auth_admin_password = s("hunter2");
    let args = Args::resolve(&cli, &env, None).unwrap();
    assert_eq!(args.port, 7070);
    assert_eq!(args.title, s("from-env"));
    assert_eq!(args.auth_admin_password, "hunter2");
}

#[test]
fn gc_days_defaults_to_ninety() {
    let args = Args::resolve(&CliInput::empty(), &EnvInput::empty(), None).unwrap();
    assert_eq!(args.gc_days, 90);
}

#[test]
fn editable_flag_presence() {
    let mut cli = CliInput::empty();
    cli.editable = true;
    let args = Args::resolve(&cli, &EnvInput::empty(), None).unwrap();
    assert!(args.editable);

    let args = Args::resolve(&CliInput::empty(), &EnvInput::empty(), None).unwrap();
    assert!(!args.editable);
}

#[test]
fn truthy_env_sets_toggle() {
    let mut env = EnvInput::empty();
    env.editable = s("1");
    env.wide = s("yes");
    env.qr = s("");
    let args = Args::resolve(&CliInput::empty(), &env, None).unwrap();
    assert!(args.editable);
    assert!(args.wide);
    assert!(!args.qr, "an empty environment value is not truthy");
}

#[test]
fn non_numeric_port_is_fatal() {
    let mut cli = CliInput::empty();
    cli.port = s("abc");
    let r = Args::resolve(&cli, &EnvInput::empty(), None);
    assert_eq!(r.unwrap_err(), ConfigError::InvalidNumber(NumField::Port));
}

#[test]
fn non_numeric_env_port_is_fatal() {
    let mut env = EnvInput::empty();
    env.port = s("80a");
    let r = Args::resolve(&CliInput::empty(), &env, None);
    assert_eq!(r.unwrap_err(), ConfigError::InvalidNumber(NumField::Port));
}

#[test]
fn numeric_overflow_is_fatal() {
    let mut cli = CliInput::empty();
    cli.port = s("65536");
    assert_eq!(
        Args::resolve(&cli, &EnvInput::empty(), None).unwrap_err(),
        ConfigError::InvalidNumber(NumField::Port)
    );

    let mut cli = CliInput::empty();
    cli.port = s("65535");
    let args = Args::resolve(&cli, &EnvInput::empty(), None).unwrap();
    assert_eq!(args.port, 65535);

    let mut cli = CliInput::empty();
    cli.threads = s("256");
    assert_eq!(
        Args::resolve(&cli, &EnvInput::empty(), None).unwrap_err(),
        ConfigError::InvalidNumber(NumField::Threads)
    );
}

#[test]
fn numeric_oddities() {
    // A leading plus sign and leading zeros are accepted, decimal value kept.
    let mut cli = CliInput::empty();
    cli.port = s("+8081");
    cli.gc_days = s("007");
    let args = Args::resolve(&cli, &EnvInput::empty(), None).unwrap();
    assert_eq!(args.port, 8081);
    assert_eq!(args.gc_days, 7);

    // Empty text, a bare sign, spaces and negatives are all fatal.
    for bad in ["", "+", "1 2", "-1", " 8080"] {
        let mut cli = CliInput::empty();
        cli.gc_days = s(bad);
        assert_eq!(
            Args::resolve(&cli, &EnvInput::empty(), None).unwrap_err(),
            ConfigError::InvalidNumber(NumField::GcDays),
            "gc_days text {:?} should be fatal",
            bad
        );
    }
}

#[test]
fn error_reports_first_failing_field() {
    let mut cli = CliInput::empty();
    cli.port = s("bad");
    cli.threads = s("also-bad");
    assert_eq!(
        Args::resolve(&cli, &EnvInput::empty(), None).unwrap_err(),
        ConfigError::InvalidNumber(NumField::Port)
    );

    let mut cli = CliInput::empty();
    cli.threads = s("also-bad");
    cli.bind = s("not-an-ip");
    assert_eq!(
        Args::resolve(&cli, &EnvInput::empty(), None).unwrap_err(),
        ConfigError::InvalidNumber(NumField::Threads)
    );
}

#[test]
fn bind_resolution() {
    let mut cli = CliInput::empty();
    cli.bind = s("127.0.0.1");
    let args = Args::resolve(&cli, &EnvInput::empty(), None).unwrap();
    assert_eq!(args.bind, BindAddr::V4(127, 0, 0, 1));

    // Environment bind value, flag absent.
    let mut env = EnvInput::empty();
    env.bind = s("10.1.2.3");
    let args = Args::resolve(&CliInput::empty(), &env, None).unwrap();
    assert_eq!(args.bind, BindAddr::V4(10, 1, 2, 3));

    // Text that is not dotted-quad IPv4 falls back to the caller's IPv6
    // reading, and is fatal without one.
    let v6 = BindAddr::V6(0, 0, 0, 0, 0, 0, 0, 1);
    let mut cli = CliInput::empty();
    cli.bind = s("::1");
    let args = Args::resolve(&cli, &EnvInput::empty(), Some(v6)).unwrap();
    assert_eq!(args.bind, v6);

    let mut cli = CliInput::empty();
    cli.bind = s("not-an-ip");
    assert_eq!(
        Args::resolve(&cli, &EnvInput::empty(), None).unwrap_err(),
        ConfigError::InvalidAddress
    );
}

#[test]
fn snapshot_is_plain_data() {
    // Two resolutions of the same inputs give equal snapshots; the
    // snapshot has no setter surface, so a consumer can only read it.
    let mut cli = CliInput::empty();
    cli.port = s("9999");
    cli.editable = true;
    let a = Args::resolve(&cli, &EnvInput::empty(), None).unwrap();
    let b = Args::resolve(&cli, &EnvInput::empty(), None).unwrap();
    assert_eq!(a.port, b.port);
    assert_eq!(a.editable, b.editable);
    assert_eq!(a.gc_days, b.gc_days);
}

#[test]
fn remaining_numeric_fields_error_and_resolve() {
    let mut cli = CliInput::empty();
    cli.default_burn_after = s("x");
    assert_eq!(
        Args::resolve(&cli, &EnvInput::empty(), None).unwrap_err(),
        ConfigError::InvalidNumber(NumField::DefaultBurnAfter)
    );

    let mut env = EnvInput::empty();
    env.max_file_size_encrypted_mb = s("12.5");
    assert_eq!(
        Args::resolve(&CliInput::empty(), &env, None).unwrap_err(),
        ConfigError::InvalidNumber(NumField::MaxFileSizeEncryptedMb)
    );

    let mut env = EnvInput::empty();
    env.max_file_size_unencrypted_mb = s("-3");
    assert_eq!(
        Args::resolve(&CliInput::empty(), &env, None).unwrap_err(),
        ConfigError::InvalidNumber(NumField::MaxFileSizeUnencryptedMb)
    );

    let mut cli = CliInput::empty();
    cli.default_burn_after = s("10");
    cli.max_file_size_encrypted_mb = s("512");
    cli.max_file_size_unencrypted_mb = s("4096");
    cli.threads = s("8");
    let args = Args::resolve(&cli, &EnvInput::empty(), None).unwrap();
    assert_eq!(args.default_burn_after, 10);
    assert_eq!(args.max_file_size_encrypted_mb, 512);
    assert_eq!(args.max_file_size_unencrypted_mb, 4096);
    assert_eq!(args.threads, 8);
}
