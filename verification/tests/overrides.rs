use relay::config::Config;
use relay::overrides::{CliOptions, EnvVar};

fn vars(pairs: &[(&str, &str)]) -> Vec<EnvVar> {
    pairs
        .iter()
        .map(|(name, value)| EnvVar { name: name.to_string(), value: value.to_string() })
        .collect()
}

fn no_options() -> CliOptions {
    CliOptions {
        local_ip: None,
        local_port: None,
        remote_ip: None,
        remote_tcp_port: None,
        remote_udp_port: None,
    }
}

#[test]
fn variables_override_their_fields() {
    let mut cfg = Config::default();
    let warnings = cfg.apply_env_overrides(&vars(&[
        ("HOME", "/root"),
        ("LOCAL_IP", "::1"),
        ("LOCAL_PORT", "+80"),
        ("REMOTE_IP", "example.net"),
        ("REMOTE_TCP_PORT", "81"),
        ("REMOTE_UDP_PORT", "82"),
        ("POOL_SIZE", "16"),
        ("REFILL_BATCH", "2"),
        ("CONNECT_TIMEOUT", "7"),
        ("IDLE_TIMEOUT", "240"),
        ("HALF_CLOSE_TIMEOUT", "9"),
        ("PRECONNECT_TTL_MS", "20000"),
        ("SPLICE_CHUNK", "65536"),
        ("SPLICE_PIPE_SIZE", "8192"),
        ("UDP_IDLE_TIMEOUT", "61"),
        ("UDP_SOCKET_BUFFER", "1024"),
        ("UDP_BATCH_SIZE", "32"),
        ("POOL_MIN_SIZE", "3"),
        ("TTL_JITTER_PCT", "10"),
        ("LISTEN_BACKLOG", "-5"),
        ("LOG_RATE_PER_SEC", "100"),
        ("LOG_ENABLE", "off"),
        ("TCP_KEEPIDLE", "60"),
        ("TCP_KEEPINTVL", "11"),
        ("TCP_KEEPCNT", "4"),
        ("TCP_USER_TIMEOUT_MS", "500"),
    ]));
    assert!(warnings.is_empty());
    assert_eq!(cfg.local_ip, "::1");
    assert_eq!(cfg.local_port, 80);
    assert_eq!(cfg.remote_ip, "example.net");
    assert_eq!(cfg.remote_tcp_port, 81);
    assert_eq!(cfg.remote_udp_port, 82);
    assert_eq!(cfg.pool_size, 16);
    assert_eq!(cfg.refill_batch, 2);
    assert_eq!(cfg.connect_timeout, 7);
    assert_eq!(cfg.idle_timeout, 240);
    assert_eq!(cfg.half_close_timeout, 9);
    assert_eq!(cfg.preconnect_ttl_ms, 20_000);
    assert_eq!(cfg.splice_chunk, 65_536);
    assert_eq!(cfg.splice_pipe_size, 8192);
    assert_eq!(cfg.udp_idle_timeout, 61);
    assert_eq!(cfg.udp_socket_buffer, 1024);
    assert_eq!(cfg.udp_batch_size, 32);
    assert_eq!(cfg.pool_min_size, 3);
    assert_eq!(cfg.ttl_jitter_pct, 10);
    assert_eq!(cfg.listen_backlog, -5);
    assert_eq!(cfg.log_rate_per_sec, 100);
    assert!(!cfg.log_enable);
    assert_eq!(cfg.tcp_keepidle, 60);
    assert_eq!(cfg.tcp_keepintvl, 11);
    assert_eq!(cfg.tcp_keepcnt, 4);
    assert_eq!(cfg.tcp_user_timeout_ms, 500);
}

#[test]
fn empty_environment_changes_nothing() {
    let mut cfg = Config::default();
    assert!(cfg.apply_env_overrides(&vars(&[])).is_empty());
    assert_eq!(cfg.local_ip, "");
    assert_eq!(cfg.pool_size, 32);
    assert_eq!(cfg.tcp_keepidle, 45);
}

#[test]
fn unusable_values_are_warned_about_and_ignored() {
    let mut cfg = Config::default();
    let warnings = cfg.apply_env_overrides(&vars(&[
        ("LOG_ENABLE", "TRUE"),
        ("TCP_KEEPIDLE", "2147483648"),
        ("LOCAL_PORT", "65536"),
        ("TTL_JITTER_PCT", "-1"),
        ("POOL_SIZE", ""),
    ]));
    assert_eq!(
        warnings,
        vec![
            "WARN: invalid LOCAL_PORT=65536, keeping 0".to_string(),
            "WARN: invalid POOL_SIZE=, keeping 32".to_string(),
            "WARN: invalid TTL_JITTER_PCT=-1, keeping 25".to_string(),
            "WARN: invalid LOG_ENABLE=TRUE, keeping true".to_string(),
            "WARN: invalid TCP_KEEPIDLE=2147483648, keeping 45".to_string(),
        ]
    );
    assert_eq!(cfg.local_port, 0);
    assert_eq!(cfg.pool_size, 32);
    assert_eq!(cfg.ttl_jitter_pct, 25);
    assert!(cfg.log_enable);
    assert_eq!(cfg.tcp_keepidle, 45);
}

#[test]
fn truth_values_have_eight_words() {
    for (word, value) in [
        ("0", false),
        ("false", false),
        ("no", false),
        ("off", false),
        ("1", true),
        ("true", true),
        ("yes", true),
        ("on", true),
    ] {
        let mut cfg = Config::default();
        cfg.log_enable = !value;
        assert!(cfg.apply_env_overrides(&vars(&[("LOG_ENABLE", word)])).is_empty());
        assert_eq!(cfg.log_enable, value);
    }
}

#[test]
fn first_of_two_variables_counts() {
    let mut cfg = Config::default();
    cfg.apply_env_overrides(&vars(&[("LOCAL_IP", "a"), ("LOCAL_IP", "b")]));
    assert_eq!(cfg.local_ip, "a");
}

#[test]
fn command_line_goes_before_the_environment() {
    let mut cfg = Config::default();
    cfg.local_ip = "file".to_string();
    cfg.remote_ip = "file".to_string();
    cfg.remote_tcp_port = 1;
    cfg.remote_udp_port = 2;
    let mut options = no_options();
    options.local_ip = Some("option".to_string());
    options.remote_udp_port = Some(9);
    let (warnings, resolved) = cfg.resolve(
        &vars(&[("LOCAL_IP", "env"), ("REMOTE_TCP_PORT", "5"), ("REMOTE_UDP_PORT", "6"), ("LOCAL_PORT", "7")]),
        &options,
    );
    let resolved = resolved.unwrap_or_else(|e| panic!("{e}"));
    assert!(warnings.is_empty());
    assert_eq!(resolved.local_ip, "option");
    assert_eq!(resolved.local_port, 7);
    assert_eq!(resolved.remote_ip, "file");
    assert_eq!(resolved.remote_tcp_port, 5);
    assert_eq!(resolved.remote_udp_port, 9);
    assert_eq!(resolved.refill_batch, 8);
}

#[test]
fn options_alone_override_five_fields() {
    let mut cfg = Config::default();
    cfg.apply_cli_overrides(&CliOptions {
        local_ip: Some("1.2.3.4".to_string()),
        local_port: Some(1),
        remote_ip: Some("host".to_string()),
        remote_tcp_port: Some(2),
        remote_udp_port: Some(3),
    });
    assert_eq!(cfg.local_ip, "1.2.3.4");
    assert_eq!(cfg.local_port, 1);
    assert_eq!(cfg.remote_ip, "host");
    assert_eq!(cfg.remote_tcp_port, 2);
    assert_eq!(cfg.remote_udp_port, 3);
    assert_eq!(cfg.pool_size, 32);
}

#[test]
fn warnings_survive_a_refusal() {
    let (warnings, resolved) =
        Config::default().resolve(&vars(&[("LOCAL_PORT", "x")]), &no_options());
    assert_eq!(warnings, vec!["WARN: invalid LOCAL_PORT=x, keeping 0".to_string()]);
    assert_eq!(
        resolved.err().unwrap(),
        "local_ip is required (set LOCAL_IP env or local_ip in TOML)"
    );
}
