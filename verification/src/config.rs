//! The relay's configuration: defaults, a settings file, environment variables
//! and command line options, in rising order of priority, and the checks that
//! the merged result has to pass.

use crate::text;
use crate::text::append_i32;
use crate::text::append_u64;
use vstd::prelude::*;

verus! {

/// Complete relay configuration.
#[derive(Clone)]
pub struct Config {
    /// Address to listen on.
    pub local_ip: String,
    /// Port to listen on, for TCP and UDP.
    pub local_port: u16,
    /// Address or name of the remote end.
    pub remote_ip: String,
    /// TCP port of the remote end.
    pub remote_tcp_port: u16,
    /// UDP port of the remote end.
    pub remote_udp_port: u16,
    /// How many connections to keep open in advance; 0 turns the pool off.
    pub pool_size: usize,
    /// How many connections may be opened for the pool at once.
    pub refill_batch: usize,
    /// Seconds to wait for a connection to the remote end.
    pub connect_timeout: u64,
    /// Seconds without traffic after which a connection is closed.
    pub idle_timeout: u64,
    /// Seconds after which a connection with one finished direction is closed.
    pub half_close_timeout: u64,
    /// Milliseconds that a pooled connection is kept, before jitter.
    pub preconnect_ttl_ms: u64,
    /// A lower bound on the pool's size. It is checked against `pool_size` and has
    /// no other effect.
    pub pool_min_size: usize,
    /// Jitter on the life of a pooled connection, in percent. It is checked and has
    /// no other effect: the jitter is a quarter.
    pub ttl_jitter_pct: u8,
    /// Bytes that one direction of a connection may hold in its pipe.
    pub splice_chunk: usize,
    /// Capacity of a pipe in bytes.
    pub splice_pipe_size: usize,
    /// Seconds without traffic after which a UDP association ends.
    pub udp_idle_timeout: u64,
    /// Bytes of buffer of a UDP socket.
    pub udp_socket_buffer: usize,
    /// Datagrams to receive at once.
    pub udp_batch_size: usize,
    /// Backlog of the listening socket.
    pub listen_backlog: i32,
    /// Log lines to print per second.
    pub log_rate_per_sec: usize,
    /// Whether to print log lines.
    pub log_enable: bool,
    /// Seconds before the first keepalive probe.
    pub tcp_keepidle: i32,
    /// Seconds between keepalive probes.
    pub tcp_keepintvl: i32,
    /// Keepalive probes before a connection is given up.
    pub tcp_keepcnt: i32,
    /// TCP user timeout in milliseconds; 0 leaves the system's.
    pub tcp_user_timeout_ms: i32,
}

/// What a configuration holds, with its texts as character sequences.
#[verifier::ext_equal]
pub struct ConfigView {
    pub local_ip: Seq<char>,
    pub local_port: u16,
    pub remote_ip: Seq<char>,
    pub remote_tcp_port: u16,
    pub remote_udp_port: u16,
    pub pool_size: usize,
    pub refill_batch: usize,
    pub connect_timeout: u64,
    pub idle_timeout: u64,
    pub half_close_timeout: u64,
    pub preconnect_ttl_ms: u64,
    pub pool_min_size: usize,
    pub ttl_jitter_pct: u8,
    pub splice_chunk: usize,
    pub splice_pipe_size: usize,
    pub udp_idle_timeout: u64,
    pub udp_socket_buffer: usize,
    pub udp_batch_size: usize,
    pub listen_backlog: i32,
    pub log_rate_per_sec: usize,
    pub log_enable: bool,
    pub tcp_keepidle: i32,
    pub tcp_keepintvl: i32,
    pub tcp_keepcnt: i32,
    pub tcp_user_timeout_ms: i32,
}

impl View for Config {
    type V = ConfigView;

    open spec fn view(&self) -> ConfigView {
        ConfigView {
            local_ip: self.local_ip@,
            local_port: self.local_port,
            remote_ip: self.remote_ip@,
            remote_tcp_port: self.remote_tcp_port,
            remote_udp_port: self.remote_udp_port,
            pool_size: self.pool_size,
            refill_batch: self.refill_batch,
            connect_timeout: self.connect_timeout,
            idle_timeout: self.idle_timeout,
            half_close_timeout: self.half_close_timeout,
            preconnect_ttl_ms: self.preconnect_ttl_ms,
            pool_min_size: self.pool_min_size,
            ttl_jitter_pct: self.ttl_jitter_pct,
            splice_chunk: self.splice_chunk,
            splice_pipe_size: self.splice_pipe_size,
            udp_idle_timeout: self.udp_idle_timeout,
            udp_socket_buffer: self.udp_socket_buffer,
            udp_batch_size: self.udp_batch_size,
            listen_backlog: self.listen_backlog,
            log_rate_per_sec: self.log_rate_per_sec,
            log_enable: self.log_enable,
            tcp_keepidle: self.tcp_keepidle,
            tcp_keepintvl: self.tcp_keepintvl,
            tcp_keepcnt: self.tcp_keepcnt,
            tcp_user_timeout_ms: self.tcp_user_timeout_ms,
        }
    }
}

pub fn default_pool_size() -> (r: usize)
    ensures
        r == 32,
{
    32
}

pub fn default_refill_batch() -> (r: usize)
    ensures
        r == 8,
{
    8
}

pub fn default_connect_timeout() -> (r: u64)
    ensures
        r == 5,
{
    5
}

pub fn default_idle_timeout() -> (r: u64)
    ensures
        r == 180,
{
    180
}

pub fn default_half_close_timeout() -> (r: u64)
    ensures
        r == 6,
{
    6
}

pub fn default_preconnect_ttl_ms() -> (r: u64)
    ensures
        r == 60_000,
{
    60_000
}

pub fn default_pool_min_size() -> (r: usize)
    ensures
        r == 0,
{
    0
}

pub fn default_ttl_jitter_pct() -> (r: u8)
    ensures
        r == 25,
{
    25
}

pub fn default_splice_chunk() -> (r: usize)
    ensures
        r == 131_072,
{
    131_072
}

pub fn default_splice_pipe_size() -> (r: usize)
    ensures
        r == 1_048_576,
{
    1_048_576
}

pub fn default_udp_idle_timeout() -> (r: u64)
    ensures
        r == 60,
{
    60
}

pub fn default_udp_socket_buffer() -> (r: usize)
    ensures
        r == 4_194_304,
{
    4_194_304
}

pub fn default_udp_batch_size() -> (r: usize)
    ensures
        r == 64,
{
    64
}

pub fn default_listen_backlog() -> (r: i32)
    ensures
        r == 16_384,
{
    16_384
}

pub fn default_log_rate_per_sec() -> (r: usize)
    ensures
        r == 24,
{
    24
}

pub fn default_log_enable() -> (r: bool)
    ensures
        r == true,
{
    true
}

pub fn default_tcp_keepidle() -> (r: i32)
    ensures
        r == 45,
{
    45
}

pub fn default_tcp_keepintvl() -> (r: i32)
    ensures
        r == 10,
{
    10
}

pub fn default_tcp_keepcnt() -> (r: i32)
    ensures
        r == 2,
{
    2
}

pub fn default_tcp_user_timeout_ms() -> (r: i32)
    ensures
        r == 0,
{
    0
}

/// The configuration that nothing has overridden.
pub open spec fn default_view() -> ConfigView {
    ConfigView {
        local_ip: Seq::empty(),
        local_port: 0,
        remote_ip: Seq::empty(),
        remote_tcp_port: 0,
        remote_udp_port: 0,
        pool_size: 32,
        refill_batch: 8,
        connect_timeout: 5,
        idle_timeout: 180,
        half_close_timeout: 6,
        preconnect_ttl_ms: 60_000,
        pool_min_size: 0,
        ttl_jitter_pct: 25,
        splice_chunk: 131_072,
        splice_pipe_size: 1_048_576,
        udp_idle_timeout: 60,
        udp_socket_buffer: 4_194_304,
        udp_batch_size: 64,
        listen_backlog: 16_384,
        log_rate_per_sec: 24,
        log_enable: true,
        tcp_keepidle: 45,
        tcp_keepintvl: 10,
        tcp_keepcnt: 2,
        tcp_user_timeout_ms: 0,
    }
}

impl Default for Config {
    fn default() -> (r: Self)
        ensures
            r@ == default_view(),
    {
        Config {
            local_ip: String::new(),
            local_port: 0,
            remote_ip: String::new(),
            remote_tcp_port: 0,
            remote_udp_port: 0,
            pool_size: default_pool_size(),
            refill_batch: default_refill_batch(),
            connect_timeout: default_connect_timeout(),
            idle_timeout: default_idle_timeout(),
            half_close_timeout: default_half_close_timeout(),
            preconnect_ttl_ms: default_preconnect_ttl_ms(),
            pool_min_size: default_pool_min_size(),
            ttl_jitter_pct: default_ttl_jitter_pct(),
            splice_chunk: default_splice_chunk(),
            splice_pipe_size: default_splice_pipe_size(),
            udp_idle_timeout: default_udp_idle_timeout(),
            udp_socket_buffer: default_udp_socket_buffer(),
            udp_batch_size: default_udp_batch_size(),
            listen_backlog: default_listen_backlog(),
            log_rate_per_sec: default_log_rate_per_sec(),
            log_enable: default_log_enable(),
            tcp_keepidle: default_tcp_keepidle(),
            tcp_keepintvl: default_tcp_keepintvl(),
            tcp_keepcnt: default_tcp_keepcnt(),
            tcp_user_timeout_ms: default_tcp_user_timeout_ms(),
        }
    }
}

/// What a settings file sets; a field that the file leaves out is `None`.
pub struct FileSettings {
    pub local_ip: Option<String>,
    pub local_port: Option<u16>,
    pub remote_ip: Option<String>,
    pub remote_tcp_port: Option<u16>,
    pub remote_udp_port: Option<u16>,
    pub pool_size: Option<usize>,
    pub refill_batch: Option<usize>,
    pub connect_timeout: Option<u64>,
    pub idle_timeout: Option<u64>,
    pub half_close_timeout: Option<u64>,
    pub preconnect_ttl_ms: Option<u64>,
    pub pool_min_size: Option<usize>,
    pub ttl_jitter_pct: Option<u8>,
    pub splice_chunk: Option<usize>,
    pub splice_pipe_size: Option<usize>,
    pub udp_idle_timeout: Option<u64>,
    pub udp_socket_buffer: Option<usize>,
    pub udp_batch_size: Option<usize>,
    pub listen_backlog: Option<i32>,
    pub log_rate_per_sec: Option<usize>,
    pub log_enable: Option<bool>,
    pub tcp_keepidle: Option<i32>,
    pub tcp_keepintvl: Option<i32>,
    pub tcp_keepcnt: Option<i32>,
    pub tcp_user_timeout_ms: Option<i32>,
}

/// Why a settings file could not be used, in the words of what refused it.
pub enum FileError {
    Read(String),
    Syntax(String),
}

/// The field's value in the file, or its default.
pub open spec fn or_default<T>(set: Option<T>, default: T) -> T {
    match set {
        Some(v) => v,
        None => default,
    }
}

/// The text in the file, or the empty default.
pub open spec fn or_empty(set: Option<String>) -> Seq<char> {
    match set {
        Some(v) => v@,
        None => Seq::empty(),
    }
}

/// The configuration of a settings file: missing fields stay at their defaults.
pub open spec fn file_view(f: FileSettings) -> ConfigView {
    ConfigView {
        local_ip: or_empty(f.local_ip),
        local_port: or_default(f.local_port, default_view().local_port),
        remote_ip: or_empty(f.remote_ip),
        remote_tcp_port: or_default(f.remote_tcp_port, default_view().remote_tcp_port),
        remote_udp_port: or_default(f.remote_udp_port, default_view().remote_udp_port),
        pool_size: or_default(f.pool_size, default_view().pool_size),
        refill_batch: or_default(f.refill_batch, default_view().refill_batch),
        connect_timeout: or_default(f.connect_timeout, default_view().connect_timeout),
        idle_timeout: or_default(f.idle_timeout, default_view().idle_timeout),
        half_close_timeout: or_default(f.half_close_timeout, default_view().half_close_timeout),
        preconnect_ttl_ms: or_default(f.preconnect_ttl_ms, default_view().preconnect_ttl_ms),
        pool_min_size: or_default(f.pool_min_size, default_view().pool_min_size),
        ttl_jitter_pct: or_default(f.ttl_jitter_pct, default_view().ttl_jitter_pct),
        splice_chunk: or_default(f.splice_chunk, default_view().splice_chunk),
        splice_pipe_size: or_default(f.splice_pipe_size, default_view().splice_pipe_size),
        udp_idle_timeout: or_default(f.udp_idle_timeout, default_view().udp_idle_timeout),
        udp_socket_buffer: or_default(f.udp_socket_buffer, default_view().udp_socket_buffer),
        udp_batch_size: or_default(f.udp_batch_size, default_view().udp_batch_size),
        listen_backlog: or_default(f.listen_backlog, default_view().listen_backlog),
        log_rate_per_sec: or_default(f.log_rate_per_sec, default_view().log_rate_per_sec),
        log_enable: or_default(f.log_enable, default_view().log_enable),
        tcp_keepidle: or_default(f.tcp_keepidle, default_view().tcp_keepidle),
        tcp_keepintvl: or_default(f.tcp_keepintvl, default_view().tcp_keepintvl),
        tcp_keepcnt: or_default(f.tcp_keepcnt, default_view().tcp_keepcnt),
        tcp_user_timeout_ms: or_default(f.tcp_user_timeout_ms, default_view().tcp_user_timeout_ms),
    }
}

fn set_or<T>(set: Option<T>, default: T) -> (r: T)
    ensures
        r == or_default(set, default),
{
    match set {
        Some(v) => v,
        None => default,
    }
}

fn text_or_empty(set: Option<String>) -> (r: String)
    ensures
        r@ == or_empty(set),
{
    match set {
        Some(v) => v,
        None => String::new(),
    }
}

/// A configuration from what a settings file sets.
fn from_settings(f: FileSettings) -> (r: Config)
    ensures
        r@ == file_view(f),
{
    Config {
        local_ip: text_or_empty(f.local_ip),
        local_port: set_or(f.local_port, 0),
        remote_ip: text_or_empty(f.remote_ip),
        remote_tcp_port: set_or(f.remote_tcp_port, 0),
        remote_udp_port: set_or(f.remote_udp_port, 0),
        pool_size: set_or(f.pool_size, default_pool_size()),
        refill_batch: set_or(f.refill_batch, default_refill_batch()),
        connect_timeout: set_or(f.connect_timeout, default_connect_timeout()),
        idle_timeout: set_or(f.idle_timeout, default_idle_timeout()),
        half_close_timeout: set_or(f.half_close_timeout, default_half_close_timeout()),
        preconnect_ttl_ms: set_or(f.preconnect_ttl_ms, default_preconnect_ttl_ms()),
        pool_min_size: set_or(f.pool_min_size, default_pool_min_size()),
        ttl_jitter_pct: set_or(f.ttl_jitter_pct, default_ttl_jitter_pct()),
        splice_chunk: set_or(f.splice_chunk, default_splice_chunk()),
        splice_pipe_size: set_or(f.splice_pipe_size, default_splice_pipe_size()),
        udp_idle_timeout: set_or(f.udp_idle_timeout, default_udp_idle_timeout()),
        udp_socket_buffer: set_or(f.udp_socket_buffer, default_udp_socket_buffer()),
        udp_batch_size: set_or(f.udp_batch_size, default_udp_batch_size()),
        listen_backlog: set_or(f.listen_backlog, default_listen_backlog()),
        log_rate_per_sec: set_or(f.log_rate_per_sec, default_log_rate_per_sec()),
        log_enable: set_or(f.log_enable, default_log_enable()),
        tcp_keepidle: set_or(f.tcp_keepidle, default_tcp_keepidle()),
        tcp_keepintvl: set_or(f.tcp_keepintvl, default_tcp_keepintvl()),
        tcp_keepcnt: set_or(f.tcp_keepcnt, default_tcp_keepcnt()),
        tcp_user_timeout_ms: set_or(f.tcp_user_timeout_ms, default_tcp_user_timeout_ms()),
    }
}

/// Whether a configuration is complete and every field lies in its range.
pub open spec fn acceptable(c: ConfigView) -> bool {
    &&& c.local_ip.len() > 0
    &&& c.local_port != 0
    &&& c.remote_ip.len() > 0
    &&& c.remote_tcp_port != 0
    &&& c.remote_udp_port != 0
    &&& c.pool_size <= 256
    &&& 16_384 <= c.splice_chunk <= 1_048_576
    &&& 4096 <= c.splice_pipe_size <= 1_048_576
    &&& 1 <= c.udp_batch_size <= 128
    &&& c.pool_min_size <= c.pool_size
    &&& c.ttl_jitter_pct <= 50
    &&& 1 <= c.connect_timeout <= 65
    &&& c.idle_timeout >= 30
    &&& c.half_close_timeout >= 1
    &&& c.preconnect_ttl_ms >= 10_000
    &&& 10 <= c.tcp_keepidle <= 86_400
    &&& 1 <= c.tcp_keepintvl <= 3_600
    &&& 1 <= c.tcp_keepcnt <= 30
}

/// The message about the first field, in the order of the checks, for which a
/// configuration is refused.
pub open spec fn refusal(c: ConfigView) -> Option<Seq<char>> {
    if c.local_ip.len() == 0 {
        Some("local_ip is required (set LOCAL_IP env or local_ip in TOML)"@)
    } else if c.local_port == 0 {
        Some("local_port is required (set LOCAL_PORT env or local_port in TOML)"@)
    } else if c.remote_ip.len() == 0 {
        Some("remote_ip is required (set REMOTE_IP env or remote_ip in TOML)"@)
    } else if c.remote_tcp_port == 0 {
        Some("remote_tcp_port is required (set REMOTE_TCP_PORT env or remote_tcp_port in TOML)"@)
    } else if c.remote_udp_port == 0 {
        Some("remote_udp_port is required (set REMOTE_UDP_PORT env or remote_udp_port in TOML)"@)
    } else if c.pool_size > 256 {
        Some("pool_size must be <= 256"@)
    } else if !(16_384 <= c.splice_chunk <= 1_048_576) {
        Some("splice_chunk must be between 16 KiB and 1 MiB"@)
    } else if !(4096 <= c.splice_pipe_size <= 1_048_576) {
        Some("splice_pipe_size must be between 4 KiB and 1 MiB"@)
    } else if !(1 <= c.udp_batch_size <= 128) {
        Some("udp_batch_size must be between 1 and 128"@)
    } else if c.pool_min_size > c.pool_size {
        Some("pool_min_size must be <= pool_size"@)
    } else if c.ttl_jitter_pct > 50 {
        Some("ttl_jitter_pct must be <= 50"@)
    } else if !(1 <= c.connect_timeout <= 65) {
        Some("connect_timeout must be between 1 and 65 seconds"@)
    } else if c.idle_timeout < 30 {
        Some("idle_timeout must be >= 30"@)
    } else if c.half_close_timeout < 1 {
        Some("half_close_timeout must be >= 1"@)
    } else if c.preconnect_ttl_ms < 10_000 {
        Some("preconnect_ttl_ms must be >= 10000"@)
    } else if !(10 <= c.tcp_keepidle <= 86_400) {
        Some("tcp_keepidle must be between 10 and 86400"@)
    } else if !(1 <= c.tcp_keepintvl <= 3_600) {
        Some("tcp_keepintvl must be between 1 and 3600"@)
    } else if !(1 <= c.tcp_keepcnt <= 30) {
        Some("tcp_keepcnt must be between 1 and 30"@)
    } else {
        None
    }
}

/// The refill batch that a checked configuration uses: at least one, and no
/// more than the pool holds, where there is a pool.
pub open spec fn checked_refill_batch(c: ConfigView) -> usize {
    let at_least_one = if c.refill_batch == 0 {
        1usize
    } else {
        c.refill_batch
    };
    if c.pool_size > 0 && at_least_one > c.pool_size {
        c.pool_size
    } else {
        at_least_one
    }
}

/// The configuration that a successful check hands out.
pub open spec fn checked(c: ConfigView) -> ConfigView {
    ConfigView { refill_batch: checked_refill_batch(c), ..c }
}

/// What the program says about a settings file that it could not use.
pub open spec fn file_error_text(path: Seq<char>, e: FileError) -> Seq<char> {
    match e {
        FileError::Read(why) => "cannot read config file "@ + path + ": "@ + why@,
        FileError::Syntax(why) => "invalid TOML in "@ + path + ": "@ + why@,
    }
}

fn file_error_message(path: &str, e: &FileError) -> (r: String)
    ensures
        r@ == file_error_text(path@, *e),
{
    match e {
        FileError::Read(why) => {
            let mut r: String = "cannot read config file ".to_owned();
            r.append(path);
            r.append(": ");
            r.append(why.as_str());
            r
        },
        FileError::Syntax(why) => {
            let mut r: String = "invalid TOML in ".to_owned();
            r.append(path);
            r.append(": ");
            r.append(why.as_str());
            r
        },
    }
}

impl Config {
    /// A configuration from what was loaded of the settings file at `path`,
    /// which is given as it is to appear in a message. Missing fields stay at
    /// their defaults.
    pub fn from_file(path: &str, loaded: Result<FileSettings, FileError>) -> (r: Result<Self, String>)
        ensures
            match loaded {
                Ok(f) => r is Ok && r->Ok_0@ == file_view(f),
                Err(e) => r is Err && r->Err_0@ == file_error_text(path@, e),
            },
    {
        match loaded {
            Ok(f) => Ok(from_settings(f)),
            Err(e) => Err(file_error_message(path, &e)),
        }
    }

    /// Checks the merged configuration and bounds its refill batch.
    pub fn validate(self) -> (r: Result<Self, String>)
        ensures
            match refusal(self@) {
                Some(why) => r is Err && r->Err_0@ == why,
                None => r is Ok && r->Ok_0@ == checked(self@),
            },
    {
        if self.local_ip.as_str().is_empty() {
            return Err("local_ip is required (set LOCAL_IP env or local_ip in TOML)".to_owned());
        }
        if self.local_port == 0 {
            return Err(
                "local_port is required (set LOCAL_PORT env or local_port in TOML)".to_owned(),
            );
        }
        if self.remote_ip.as_str().is_empty() {
            return Err("remote_ip is required (set REMOTE_IP env or remote_ip in TOML)".to_owned());
        }
        if self.remote_tcp_port == 0 {
            return Err(
                "remote_tcp_port is required (set REMOTE_TCP_PORT env or remote_tcp_port in TOML)".to_owned(),
            );
        }
        if self.remote_udp_port == 0 {
            return Err(
                "remote_udp_port is required (set REMOTE_UDP_PORT env or remote_udp_port in TOML)".to_owned(),
            );
        }
        if self.pool_size > 256 {
            return Err("pool_size must be <= 256".to_owned());
        }
        if self.splice_chunk < 16_384 || self.splice_chunk > 1_048_576 {
            return Err("splice_chunk must be between 16 KiB and 1 MiB".to_owned());
        }
        if self.splice_pipe_size < 4096 || self.splice_pipe_size > 1_048_576 {
            return Err("splice_pipe_size must be between 4 KiB and 1 MiB".to_owned());
        }
        if self.udp_batch_size < 1 || self.udp_batch_size > 128 {
            return Err("udp_batch_size must be between 1 and 128".to_owned());
        }
        if self.pool_min_size > self.pool_size {
            return Err("pool_min_size must be <= pool_size".to_owned());
        }
        if self.ttl_jitter_pct > 50 {
            return Err("ttl_jitter_pct must be <= 50".to_owned());
        }
        if self.connect_timeout < 1 || self.connect_timeout > 65 {
            return Err("connect_timeout must be between 1 and 65 seconds".to_owned());
        }
        if self.idle_timeout < 30 {
            return Err("idle_timeout must be >= 30".to_owned());
        }
        if self.half_close_timeout < 1 {
            return Err("half_close_timeout must be >= 1".to_owned());
        }
        if self.preconnect_ttl_ms < 10_000 {
            return Err("preconnect_ttl_ms must be >= 10000".to_owned());
        }
        if self.tcp_keepidle < 10 || self.tcp_keepidle > 86_400 {
            return Err("tcp_keepidle must be between 10 and 86400".to_owned());
        }
        if self.tcp_keepintvl < 1 || self.tcp_keepintvl > 3_600 {
            return Err("tcp_keepintvl must be between 1 and 3600".to_owned());
        }
        if self.tcp_keepcnt < 1 || self.tcp_keepcnt > 30 {
            return Err("tcp_keepcnt must be between 1 and 30".to_owned());
        }
        let mut checked: Config = self;
        if checked.refill_batch == 0 {
            checked.refill_batch = 1;
        }
        if checked.pool_size > 0 && checked.refill_batch > checked.pool_size {
            checked.refill_batch = checked.pool_size;
        }
        Ok(checked)
    }
}

/// A configuration passes the check if and only if it is complete and every
/// field lies in its range.
pub proof fn law_accepts_exactly_acceptable(c: ConfigView)
    ensures
        refusal(c) is None <==> acceptable(c),
{
}

/// Checking a configuration that passed the check once more changes nothing.
pub proof fn law_check_is_idempotent(c: ConfigView)
    requires
        refusal(c) is None,
    ensures
        refusal(checked(c)) is None,
        checked(checked(c)) == checked(c),
{
}

/// A configuration that passed the check refills the pool by at least one
/// connection at a time, and never by more than the pool holds.
pub proof fn law_checked_refill_batch_bounds(c: ConfigView)
    requires
        refusal(c) is None,
    ensures
        checked(c).refill_batch >= 1,
        c.pool_size > 0 ==> checked(c).refill_batch <= c.pool_size,
{
}

/// The default configuration lacks nothing but its addresses: with those set,
/// it passes the check unchanged.
pub proof fn law_defaults_pass_with_addresses(
    local_ip: Seq<char>,
    local_port: u16,
    remote_ip: Seq<char>,
    remote_tcp_port: u16,
    remote_udp_port: u16,
)
    requires
        local_ip.len() > 0,
        local_port != 0,
        remote_ip.len() > 0,
        remote_tcp_port != 0,
        remote_udp_port != 0,
    ensures
        ({
            let c = ConfigView {
                local_ip,
                local_port,
                remote_ip,
                remote_tcp_port,
                remote_udp_port,
                ..default_view()
            };
            refusal(c) is None && checked(c) == c
        }),
{
}

/// The lines that announce a configuration.
pub open spec fn startup_text(c: ConfigView) -> Seq<Seq<char>> {
    seq![
        "Using config: local="@ + c.local_ip + ":"@ + text::decimal(c.local_port as nat)
            + " -> remote="@ + c.remote_ip + " TCP:"@ + text::decimal(c.remote_tcp_port as nat)
            + "/UDP:"@ + text::decimal(c.remote_udp_port as nat),
        "Runtime: pool="@ + text::decimal(c.pool_size as nat) + " refill="@ + text::decimal(
            c.refill_batch as nat,
        ) + " splice="@ + text::decimal(c.splice_chunk as nat) + " backlog="@
            + text::signed_decimal(c.listen_backlog as int) + " udp_buf="@ + text::decimal(
            c.udp_socket_buffer as nat,
        ) + " log="@ + (if c.log_enable {
            "on"@
        } else {
            "off"@
        }),
    ]
}

/// The lines to log once the configuration is final.
pub fn startup_lines(cfg: &Config) -> (r: Vec<String>)
    ensures
        text::lines(r@) == startup_text(cfg@),
{
    let mut first: String = "Using config: local=".to_owned();
    first.append(cfg.local_ip.as_str());
    first.append(":");
    append_u64(&mut first, cfg.local_port as u64);
    first.append(" -> remote=");
    first.append(cfg.remote_ip.as_str());
    first.append(" TCP:");
    append_u64(&mut first, cfg.remote_tcp_port as u64);
    first.append("/UDP:");
    append_u64(&mut first, cfg.remote_udp_port as u64);

    let mut second: String = "Runtime: pool=".to_owned();
    append_u64(&mut second, cfg.pool_size as u64);
    second.append(" refill=");
    append_u64(&mut second, cfg.refill_batch as u64);
    second.append(" splice=");
    append_u64(&mut second, cfg.splice_chunk as u64);
    second.append(" backlog=");
    append_i32(&mut second, cfg.listen_backlog);
    second.append(" udp_buf=");
    append_u64(&mut second, cfg.udp_socket_buffer as u64);
    second.append(" log=");
    if cfg.log_enable {
        second.append("on");
    } else {
        second.append("off");
    }

    let mut r: Vec<String> = Vec::new();
    r.push(first);
    r.push(second);
    assert(text::lines(r@) =~= startup_text(cfg@));
    r
}

} // verus!
