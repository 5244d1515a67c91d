use relay::config::{startup_lines, Config, FileError, FileSettings};
use relay::config::{
    default_connect_timeout, default_half_close_timeout, default_idle_timeout,
    default_listen_backlog, default_log_enable, default_log_rate_per_sec, default_pool_min_size,
    default_pool_size, default_preconnect_ttl_ms, default_refill_batch, default_splice_chunk,
    default_splice_pipe_size, default_tcp_keepcnt, default_tcp_keepidle, default_tcp_keepintvl,
    default_tcp_user_timeout_ms, default_ttl_jitter_pct, default_udp_batch_size,
    default_udp_idle_timeout, default_udp_socket_buffer,
};

fn complete() -> Config {
    let mut cfg = Config::default();
    cfg.local_ip = "0.0.0.0".to_string();
    cfg.local_port = 8080;
    cfg.remote_ip = "example.net".to_string();
    cfg.remote_tcp_port = 443;
    cfg.remote_udp_port = 4433;
    cfg
}

fn no_settings() -> FileSettings {
    FileSettings {
        local_ip: None,
        local_port: None,
        remote_ip: None,
        remote_tcp_port: None,
        remote_udp_port: None,
        pool_size: None,
        refill_batch: None,
        connect_timeout: None,
        idle_timeout: None,
        half_close_timeout: None,
        preconnect_ttl_ms: None,
        pool_min_size: None,
        ttl_jitter_pct: None,
        splice_chunk: None,
        splice_pipe_size: None,
        udp_idle_timeout: None,
        udp_socket_buffer: None,
        udp_batch_size: None,
        listen_backlog: None,
        log_rate_per_sec: None,
        log_enable: None,
        tcp_keepidle: None,
        tcp_keepintvl: None,
        tcp_keepcnt: None,
        tcp_user_timeout_ms: None,
    }
}

fn refusal(change: fn(&mut Config)) -> Option<String> {
    let mut cfg = complete();
    change(&mut cfg);
    cfg.validate().err()
}

#[test]
fn defaults_are_the_documented_ones() {
    assert_eq!(default_pool_size(), 32);
    assert_eq!(default_refill_batch(), 8);
    assert_eq!(default_connect_timeout(), 5);
    assert_eq!(default_idle_timeout(), 180);
    assert_eq!(default_half_close_timeout(), 6);
    assert_eq!(default_preconnect_ttl_ms(), 60_000);
    assert_eq!(default_pool_min_size(), 0);
    assert_eq!(default_ttl_jitter_pct(), 25);
    assert_eq!(default_splice_chunk(), 131_072);
    assert_eq!(default_splice_pipe_size(), 1_048_576);
    assert_eq!(default_udp_idle_timeout(), 60);
    assert_eq!(default_udp_socket_buffer(), 4_194_304);
    assert_eq!(default_udp_batch_size(), 64);
    assert_eq!(default_listen_backlog(), 16_384);
    assert_eq!(default_log_rate_per_sec(), 24);
    assert!(default_log_enable());
    assert_eq!(default_tcp_keepidle(), 45);
    assert_eq!(default_tcp_keepintvl(), 10);
    assert_eq!(default_tcp_keepcnt(), 2);
    assert_eq!(default_tcp_user_timeout_ms(), 0);
}

#[test]
fn default_configuration_has_no_addresses() {
    let cfg = Config::default();
    assert_eq!(cfg.local_ip, "");
    assert_eq!(cfg.local_port, 0);
    assert_eq!(cfg.remote_ip, "");
    assert_eq!(cfg.remote_tcp_port, 0);
    assert_eq!(cfg.remote_udp_port, 0);
    assert_eq!(cfg.pool_size, 32);
    assert_eq!(cfg.splice_chunk, 131_072);
    assert!(cfg.log_enable);
}

#[test]
fn file_overrides_only_what_it_names() {
    let mut file = no_settings();
    file.local_ip = Some("127.0.0.1".to_string());
    file.pool_size = Some(4);
    file.log_enable = Some(false);
    let cfg = Config::from_file("relay.toml", Ok(file)).unwrap_or_else(|e| panic!("{e}"));
    assert_eq!(cfg.local_ip, "127.0.0.1");
    assert_eq!(cfg.pool_size, 4);
    assert!(!cfg.log_enable);
    assert_eq!(cfg.remote_ip, "");
    assert_eq!(cfg.refill_batch, 8);
    assert_eq!(cfg.tcp_keepidle, 45);
}

#[test]
fn unusable_files_are_reported_with_their_path() {
    let why = Config::from_file("\"x.toml\"", Err(FileError::Read("not found".to_string())));
    assert_eq!(why.err().unwrap(), "cannot read config file \"x.toml\": not found");
    let why = Config::from_file("\"x.toml\"", Err(FileError::Syntax("bad key".to_string())));
    assert_eq!(why.err().unwrap(), "invalid TOML in \"x.toml\": bad key");
}

#[test]
fn complete_defaults_pass_unchanged() {
    let cfg = complete().validate().unwrap_or_else(|e| panic!("{e}"));
    assert_eq!(cfg.refill_batch, 8);
    assert_eq!(cfg.pool_size, 32);
    assert_eq!(cfg.remote_ip, "example.net");
}

#[test]
fn missing_addresses_are_refused() {
    assert_eq!(
        refusal(|c| c.local_ip = String::new()).unwrap(),
        "local_ip is required (set LOCAL_IP env or local_ip in TOML)"
    );
    assert_eq!(
        refusal(|c| c.local_port = 0).unwrap(),
        "local_port is required (set LOCAL_PORT env or local_port in TOML)"
    );
    assert_eq!(
        refusal(|c| c.remote_ip = String::new()).unwrap(),
        "remote_ip is required (set REMOTE_IP env or remote_ip in TOML)"
    );
    assert_eq!(
        refusal(|c| c.remote_tcp_port = 0).unwrap(),
        "remote_tcp_port is required (set REMOTE_TCP_PORT env or remote_tcp_port in TOML)"
    );
    assert_eq!(
        refusal(|c| c.remote_udp_port = 0).unwrap(),
        "remote_udp_port is required (set REMOTE_UDP_PORT env or remote_udp_port in TOML)"
    );
}

#[test]
fn fields_out_of_range_are_refused() {
    assert_eq!(refusal(|c| c.pool_size = 257).unwrap(), "pool_size must be <= 256");
    let chunk = "splice_chunk must be between 16 KiB and 1 MiB";
    assert_eq!(refusal(|c| c.splice_chunk = 16_383).unwrap(), chunk);
    assert_eq!(refusal(|c| c.splice_chunk = 1_048_577).unwrap(), chunk);
    let pipe = "splice_pipe_size must be between 4 KiB and 1 MiB";
    assert_eq!(refusal(|c| c.splice_pipe_size = 4095).unwrap(), pipe);
    assert_eq!(refusal(|c| c.splice_pipe_size = 1_048_577).unwrap(), pipe);
    let batch = "udp_batch_size must be between 1 and 128";
    assert_eq!(refusal(|c| c.udp_batch_size = 0).unwrap(), batch);
    assert_eq!(refusal(|c| c.udp_batch_size = 129).unwrap(), batch);
    assert_eq!(
        refusal(|c| c.pool_min_size = 33).unwrap(),
        "pool_min_size must be <= pool_size"
    );
    assert_eq!(refusal(|c| c.ttl_jitter_pct = 51).unwrap(), "ttl_jitter_pct must be <= 50");
    let connect = "connect_timeout must be between 1 and 65 seconds";
    assert_eq!(refusal(|c| c.connect_timeout = 0).unwrap(), connect);
    assert_eq!(refusal(|c| c.connect_timeout = 66).unwrap(), connect);
    assert_eq!(refusal(|c| c.idle_timeout = 29).unwrap(), "idle_timeout must be >= 30");
    assert_eq!(
        refusal(|c| c.half_close_timeout = 0).unwrap(),
        "half_close_timeout must be >= 1"
    );
    assert_eq!(
        refusal(|c| c.preconnect_ttl_ms = 9_999).unwrap(),
        "preconnect_ttl_ms must be >= 10000"
    );
    let idle = "tcp_keepidle must be between 10 and 86400";
    assert_eq!(refusal(|c| c.tcp_keepidle = 9).unwrap(), idle);
    assert_eq!(refusal(|c| c.tcp_keepidle = 86_401).unwrap(), idle);
    let interval = "tcp_keepintvl must be between 1 and 3600";
    assert_eq!(refusal(|c| c.tcp_keepintvl = 0).unwrap(), interval);
    assert_eq!(refusal(|c| c.tcp_keepintvl = 3_601).unwrap(), interval);
    let count = "tcp_keepcnt must be between 1 and 30";
    assert_eq!(refusal(|c| c.tcp_keepcnt = 0).unwrap(), count);
    assert_eq!(refusal(|c| c.tcp_keepcnt = 31).unwrap(), count);
}

#[test]
fn limits_themselves_are_accepted() {
    assert!(refusal(|c| c.pool_size = 256).is_none());
    assert!(refusal(|c| c.splice_chunk = 16_384).is_none());
    assert!(refusal(|c| c.splice_chunk = 1_048_576).is_none());
    assert!(refusal(|c| c.splice_pipe_size = 4096).is_none());
    assert!(refusal(|c| c.udp_batch_size = 1).is_none());
    assert!(refusal(|c| c.udp_batch_size = 128).is_none());
    assert!(refusal(|c| c.pool_min_size = 32).is_none());
    assert!(refusal(|c| c.ttl_jitter_pct = 50).is_none());
    assert!(refusal(|c| c.connect_timeout = 1).is_none());
    assert!(refusal(|c| c.connect_timeout = 65).is_none());
    assert!(refusal(|c| c.idle_timeout = 30).is_none());
    assert!(refusal(|c| c.half_close_timeout = 1).is_none());
    assert!(refusal(|c| c.preconnect_ttl_ms = 10_000).is_none());
    assert!(refusal(|c| c.tcp_keepidle = 86_400).is_none());
    assert!(refusal(|c| c.tcp_keepintvl = 3_600).is_none());
    assert!(refusal(|c| c.tcp_keepcnt = 30).is_none());
}

#[test]
fn the_first_fault_is_reported() {
    let mut cfg = Config::default();
    cfg.pool_size = 1000;
    assert_eq!(
        cfg.validate().err().unwrap(),
        "local_ip is required (set LOCAL_IP env or local_ip in TOML)"
    );
}

#[test]
fn refill_batch_is_bounded_by_the_check() {
    let mut cfg = complete();
    cfg.refill_batch = 0;
    assert_eq!(cfg.validate().ok().unwrap().refill_batch, 1);
    let mut cfg = complete();
    cfg.pool_size = 3;
    cfg.refill_batch = 8;
    let once = cfg.validate().ok().unwrap();
    assert_eq!(once.refill_batch, 3);
    assert_eq!(once.validate().ok().unwrap().refill_batch, 3);
    let mut cfg = complete();
    cfg.pool_size = 0;
    cfg.refill_batch = 8;
    assert_eq!(cfg.validate().ok().unwrap().refill_batch, 8);
}

#[test]
fn startup_is_announced_in_two_lines() {
    let mut cfg = complete();
    cfg.listen_backlog = -1;
    assert_eq!(
        startup_lines(&cfg),
        vec![
            "Using config: local=0.0.0.0:8080 -> remote=example.net TCP:443/UDP:4433".to_string(),
            "Runtime: pool=32 refill=8 splice=131072 backlog=-1 udp_buf=4194304 log=on".to_string(),
        ]
    );
    cfg.log_enable = false;
    assert!(startup_lines(&cfg)[1].ends_with("log=off"));
}
