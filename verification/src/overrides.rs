//! Overrides of a configuration: environment variables, then command line
//! options.

use crate::config;
use crate::config::Config;
use crate::config::ConfigView;
use crate::config::FileSettings;
use crate::text;
use crate::text::append_flag;
use crate::text::append_i32;
use crate::text::append_u64;
use crate::text::parse_i32;
use crate::text::parse_unsigned;
use vstd::prelude::*;

verus! {

/// One environment variable.
pub struct EnvVar {
    pub name: String,
    pub value: String,
}

/// The names and values of a list of variables.
pub open spec fn env_pairs(vars: Seq<EnvVar>) -> Seq<(Seq<char>, Seq<char>)> {
    vars.map_values(|v: EnvVar| (v.name@, v.value@))
}

/// The value of the first variable of that name.
pub open spec fn env_value(vars: Seq<(Seq<char>, Seq<char>)>, name: Seq<char>) -> Option<Seq<char>>
    decreases vars.len(),
{
    if vars.len() == 0 {
        None
    } else if vars[0].0 == name {
        Some(vars[0].1)
    } else {
        env_value(vars.skip(1), name)
    }
}

/// A text after its override: the variable's value, where it is set.
pub open spec fn env_text(
    vars: Seq<(Seq<char>, Seq<char>)>,
    name: Seq<char>,
    current: Seq<char>,
) -> Seq<char> {
    match env_value(vars, name) {
        Some(value) => value,
        None => current,
    }
}

/// The number of at most `max` that a variable's value spells.
pub open spec fn unsigned_setting(value: Seq<char>, max: nat) -> Option<nat> {
    match text::unsigned_number(value) {
        Some(n) => if n <= max {
            Some(n)
        } else {
            None
        },
        None => None,
    }
}

/// The `i32` that a variable's value spells.
pub open spec fn signed_setting(value: Seq<char>) -> Option<int> {
    match text::signed_number(value) {
        Some(n) => if i32::MIN <= n <= i32::MAX {
            Some(n)
        } else {
            None
        },
        None => None,
    }
}

/// The truth value that a variable's value spells.
pub open spec fn flag_setting(value: Seq<char>) -> Option<bool> {
    if value == "0"@ || value == "false"@ || value == "no"@ || value == "off"@ {
        Some(false)
    } else if value == "1"@ || value == "true"@ || value == "yes"@ || value == "on"@ {
        Some(true)
    } else {
        None
    }
}

/// A number after its override: the variable's, where it is set and valid.
pub open spec fn env_unsigned(
    vars: Seq<(Seq<char>, Seq<char>)>,
    name: Seq<char>,
    max: nat,
    current: nat,
) -> nat {
    match env_value(vars, name) {
        Some(value) => match unsigned_setting(value, max) {
            Some(n) => n,
            None => current,
        },
        None => current,
    }
}

/// A signed number after its override.
pub open spec fn env_signed(
    vars: Seq<(Seq<char>, Seq<char>)>,
    name: Seq<char>,
    current: int,
) -> int {
    match env_value(vars, name) {
        Some(value) => match signed_setting(value) {
            Some(n) => n,
            None => current,
        },
        None => current,
    }
}

/// A truth value after its override.
pub open spec fn env_flag(
    vars: Seq<(Seq<char>, Seq<char>)>,
    name: Seq<char>,
    current: bool,
) -> bool {
    match env_value(vars, name) {
        Some(value) => match flag_setting(value) {
            Some(b) => b,
            None => current,
        },
        None => current,
    }
}

/// The line that reports a variable with an unusable value.
pub open spec fn warning_line(name: Seq<char>, value: Seq<char>, kept: Seq<char>) -> Seq<char> {
    "WARN: invalid "@ + name + "="@ + value + ", keeping "@ + kept
}

/// The warning of a number's override: one line where the value is unusable.
pub open spec fn unsigned_warning(
    vars: Seq<(Seq<char>, Seq<char>)>,
    name: Seq<char>,
    max: nat,
    current: nat,
) -> Seq<Seq<char>> {
    match env_value(vars, name) {
        Some(value) => if unsigned_setting(value, max) is None {
            seq![warning_line(name, value, text::decimal(current))]
        } else {
            seq![]
        },
        None => seq![],
    }
}

/// The warning of a signed number's override.
pub open spec fn signed_warning(
    vars: Seq<(Seq<char>, Seq<char>)>,
    name: Seq<char>,
    current: int,
) -> Seq<Seq<char>> {
    match env_value(vars, name) {
        Some(value) => if signed_setting(value) is None {
            seq![warning_line(name, value, text::signed_decimal(current))]
        } else {
            seq![]
        },
        None => seq![],
    }
}

/// The warning of a truth value's override.
pub open spec fn flag_warning(
    vars: Seq<(Seq<char>, Seq<char>)>,
    name: Seq<char>,
    current: bool,
) -> Seq<Seq<char>> {
    match env_value(vars, name) {
        Some(value) => if flag_setting(value) is None {
            seq![warning_line(name, value, text::flag_text(current))]
        } else {
            seq![]
        },
        None => seq![],
    }
}

/// A configuration after its environment overrides.
pub open spec fn env_view(c: ConfigView, vars: Seq<(Seq<char>, Seq<char>)>) -> ConfigView {
    ConfigView {
        local_ip: env_text(vars, "LOCAL_IP"@, c.local_ip),
        local_port: env_unsigned(vars, "LOCAL_PORT"@, u16::MAX as nat, c.local_port as nat) as u16,
        remote_ip: env_text(vars, "REMOTE_IP"@, c.remote_ip),
        remote_tcp_port: env_unsigned(
            vars,
            "REMOTE_TCP_PORT"@,
            u16::MAX as nat,
            c.remote_tcp_port as nat,
        ) as u16,
        remote_udp_port: env_unsigned(
            vars,
            "REMOTE_UDP_PORT"@,
            u16::MAX as nat,
            c.remote_udp_port as nat,
        ) as u16,
        pool_size: env_unsigned(vars, "POOL_SIZE"@, usize::MAX as nat, c.pool_size as nat) as usize,
        refill_batch: env_unsigned(
            vars,
            "REFILL_BATCH"@,
            usize::MAX as nat,
            c.refill_batch as nat,
        ) as usize,
        connect_timeout: env_unsigned(
            vars,
            "CONNECT_TIMEOUT"@,
            u64::MAX as nat,
            c.connect_timeout as nat,
        ) as u64,
        idle_timeout: env_unsigned(
            vars,
            "IDLE_TIMEOUT"@,
            u64::MAX as nat,
            c.idle_timeout as nat,
        ) as u64,
        half_close_timeout: env_unsigned(
            vars,
            "HALF_CLOSE_TIMEOUT"@,
            u64::MAX as nat,
            c.half_close_timeout as nat,
        ) as u64,
        preconnect_ttl_ms: env_unsigned(
            vars,
            "PRECONNECT_TTL_MS"@,
            u64::MAX as nat,
            c.preconnect_ttl_ms as nat,
        ) as u64,
        pool_min_size: env_unsigned(
            vars,
            "POOL_MIN_SIZE"@,
            usize::MAX as nat,
            c.pool_min_size as nat,
        ) as usize,
        ttl_jitter_pct: env_unsigned(
            vars,
            "TTL_JITTER_PCT"@,
            u8::MAX as nat,
            c.ttl_jitter_pct as nat,
        ) as u8,
        splice_chunk: env_unsigned(
            vars,
            "SPLICE_CHUNK"@,
            usize::MAX as nat,
            c.splice_chunk as nat,
        ) as usize,
        splice_pipe_size: env_unsigned(
            vars,
            "SPLICE_PIPE_SIZE"@,
            usize::MAX as nat,
            c.splice_pipe_size as nat,
        ) as usize,
        udp_idle_timeout: env_unsigned(
            vars,
            "UDP_IDLE_TIMEOUT"@,
            u64::MAX as nat,
            c.udp_idle_timeout as nat,
        ) as u64,
        udp_socket_buffer: env_unsigned(
            vars,
            "UDP_SOCKET_BUFFER"@,
            usize::MAX as nat,
            c.udp_socket_buffer as nat,
        ) as usize,
        udp_batch_size: env_unsigned(
            vars,
            "UDP_BATCH_SIZE"@,
            usize::MAX as nat,
            c.udp_batch_size as nat,
        ) as usize,
        listen_backlog: env_signed(vars, "LISTEN_BACKLOG"@, c.listen_backlog as int) as i32,
        log_rate_per_sec: env_unsigned(
            vars,
            "LOG_RATE_PER_SEC"@,
            usize::MAX as nat,
            c.log_rate_per_sec as nat,
        ) as usize,
        log_enable: env_flag(vars, "LOG_ENABLE"@, c.log_enable),
        tcp_keepidle: env_signed(vars, "TCP_KEEPIDLE"@, c.tcp_keepidle as int) as i32,
        tcp_keepintvl: env_signed(vars, "TCP_KEEPINTVL"@, c.tcp_keepintvl as int) as i32,
        tcp_keepcnt: env_signed(vars, "TCP_KEEPCNT"@, c.tcp_keepcnt as int) as i32,
        tcp_user_timeout_ms: env_signed(
            vars,
            "TCP_USER_TIMEOUT_MS"@,
            c.tcp_user_timeout_ms as int,
        ) as i32,
    }
}

/// The warnings that the overrides of `c` give, in the order of the variables.
pub open spec fn env_warnings(c: ConfigView, vars: Seq<(Seq<char>, Seq<char>)>) -> Seq<Seq<char>> {
    Seq::<Seq<char>>::empty()
        + unsigned_warning(vars, "LOCAL_PORT"@, u16::MAX as nat, c.local_port as nat)
        + unsigned_warning(vars, "REMOTE_TCP_PORT"@, u16::MAX as nat, c.remote_tcp_port as nat)
        + unsigned_warning(vars, "REMOTE_UDP_PORT"@, u16::MAX as nat, c.remote_udp_port as nat)
        + unsigned_warning(vars, "POOL_SIZE"@, usize::MAX as nat, c.pool_size as nat)
        + unsigned_warning(vars, "REFILL_BATCH"@, usize::MAX as nat, c.refill_batch as nat)
        + unsigned_warning(vars, "CONNECT_TIMEOUT"@, u64::MAX as nat, c.connect_timeout as nat)
        + unsigned_warning(vars, "IDLE_TIMEOUT"@, u64::MAX as nat, c.idle_timeout as nat)
        + unsigned_warning(vars, "HALF_CLOSE_TIMEOUT"@, u64::MAX as nat, c.half_close_timeout as nat)
        + unsigned_warning(vars, "PRECONNECT_TTL_MS"@, u64::MAX as nat, c.preconnect_ttl_ms as nat)
        + unsigned_warning(vars, "SPLICE_CHUNK"@, usize::MAX as nat, c.splice_chunk as nat)
        + unsigned_warning(vars, "SPLICE_PIPE_SIZE"@, usize::MAX as nat, c.splice_pipe_size as nat)
        + unsigned_warning(vars, "UDP_IDLE_TIMEOUT"@, u64::MAX as nat, c.udp_idle_timeout as nat)
        + unsigned_warning(vars, "UDP_SOCKET_BUFFER"@, usize::MAX as nat, c.udp_socket_buffer as nat)
        + unsigned_warning(vars, "UDP_BATCH_SIZE"@, usize::MAX as nat, c.udp_batch_size as nat)
        + unsigned_warning(vars, "POOL_MIN_SIZE"@, usize::MAX as nat, c.pool_min_size as nat)
        + unsigned_warning(vars, "TTL_JITTER_PCT"@, u8::MAX as nat, c.ttl_jitter_pct as nat)
        + signed_warning(vars, "LISTEN_BACKLOG"@, c.listen_backlog as int)
        + unsigned_warning(vars, "LOG_RATE_PER_SEC"@, usize::MAX as nat, c.log_rate_per_sec as nat)
        + flag_warning(vars, "LOG_ENABLE"@, c.log_enable)
        + signed_warning(vars, "TCP_KEEPIDLE"@, c.tcp_keepidle as int)
        + signed_warning(vars, "TCP_KEEPINTVL"@, c.tcp_keepintvl as int)
        + signed_warning(vars, "TCP_KEEPCNT"@, c.tcp_keepcnt as int)
        + signed_warning(vars, "TCP_USER_TIMEOUT_MS"@, c.tcp_user_timeout_ms as int)
}

fn find_env<'a>(vars: &'a Vec<EnvVar>, name: &str) -> (r: Option<&'a String>)
    ensures
        match r {
            Some(value) => env_value(env_pairs(vars@), name@) == Some(value@),
            None => env_value(env_pairs(vars@), name@) is None,
        },
{
    let wanted: String = name.to_owned();
    let ghost pairs = env_pairs(vars@);
    assert(pairs.skip(0) =~= pairs);
    let mut i: usize = 0;
    while i < vars.len()
        invariant
            i <= vars@.len(),
            wanted@ == name@,
            pairs == env_pairs(vars@),
            env_value(pairs, name@) == env_value(pairs.skip(i as int), name@),
        decreases vars@.len() - i,
    {
        assert(pairs.skip(i as int)[0] == pairs[i as int]);
        if vars[i].name == wanted {
            return Some(&vars[i].value);
        }
        assert(pairs.skip(i as int).skip(1) =~= pairs.skip(i + 1));
        i += 1;
    }
    None
}

/// Starts the line that reports a variable with an unusable value.
fn begin_warning(name: &str, value: &String) -> (line: String)
    ensures
        line@ == "WARN: invalid "@ + name@ + "="@ + value@ + ", keeping "@,
{
    let mut line: String = "WARN: invalid ".to_owned();
    line.append(name);
    line.append("=");
    line.append(value.as_str());
    line.append(", keeping ");
    line
}

fn unsigned_warning_line(name: &str, value: &String, kept: u64) -> (line: String)
    ensures
        line@ == warning_line(name@, value@, text::decimal(kept as nat)),
{
    let mut line: String = begin_warning(name, value);
    append_u64(&mut line, kept);
    line
}

proof fn lemma_push_line(v: Seq<String>, s: String)
    ensures
        text::lines(v.push(s)) == text::lines(v) + seq![s@],
{
    assert(text::lines(v.push(s)) =~= text::lines(v) + seq![s@]);
}

fn apply_env_string(vars: &Vec<EnvVar>, name: &str, target: &mut String)
    ensures
        final(target)@ == env_text(env_pairs(vars@), name@, old(target)@),
{
    match find_env(vars, name) {
        Some(value) => {
            *target = value.clone();
        },
        None => {},
    }
}

/// The value of an unsigned field of at most `max` after its override.
fn read_env_unsigned(
    vars: &Vec<EnvVar>,
    name: &str,
    max: u64,
    current: u64,
    warnings: &mut Vec<String>,
) -> (r: u64)
    requires
        current <= max,
    ensures
        r == env_unsigned(env_pairs(vars@), name@, max as nat, current as nat),
        r <= max,
        text::lines(final(warnings)@) == text::lines(old(warnings)@) + unsigned_warning(
            env_pairs(vars@),
            name@,
            max as nat,
            current as nat,
        ),
{
    match find_env(vars, name) {
        Some(value) => match parse_unsigned(value.as_str(), max) {
            Some(v) => {
                assert(text::lines(warnings@) =~= text::lines(warnings@) + seq![]);
                v
            },
            None => {
                let line: String = unsigned_warning_line(name, value, current);
                proof {
                    lemma_push_line(warnings@, line);
                }
                warnings.push(line);
                current
            },
        },
        None => {
            assert(text::lines(warnings@) =~= text::lines(warnings@) + seq![]);
            current
        },
    }
}

fn apply_env_u16(vars: &Vec<EnvVar>, name: &str, target: &mut u16, warnings: &mut Vec<String>)
    ensures
        *final(target) == env_unsigned(env_pairs(vars@), name@, u16::MAX as nat, *old(target) as nat),
        text::lines(final(warnings)@) == text::lines(old(warnings)@) + unsigned_warning(
            env_pairs(vars@),
            name@,
            u16::MAX as nat,
            *old(target) as nat,
        ),
{
    let v: u64 = read_env_unsigned(vars, name, u16::MAX as u64, *target as u64, warnings);
    *target = v as u16;
}

fn apply_env_u64(vars: &Vec<EnvVar>, name: &str, target: &mut u64, warnings: &mut Vec<String>)
    ensures
        *final(target) == env_unsigned(env_pairs(vars@), name@, u64::MAX as nat, *old(target) as nat),
        text::lines(final(warnings)@) == text::lines(old(warnings)@) + unsigned_warning(
            env_pairs(vars@),
            name@,
            u64::MAX as nat,
            *old(target) as nat,
        ),
{
    *target = read_env_unsigned(vars, name, u64::MAX, *target, warnings);
}

fn apply_env_usize(vars: &Vec<EnvVar>, name: &str, target: &mut usize, warnings: &mut Vec<String>)
    ensures
        *final(target) == env_unsigned(env_pairs(vars@), name@, usize::MAX as nat, *old(target) as nat),
        text::lines(final(warnings)@) == text::lines(old(warnings)@) + unsigned_warning(
            env_pairs(vars@),
            name@,
            usize::MAX as nat,
            *old(target) as nat,
        ),
{
    let v: u64 = read_env_unsigned(vars, name, usize::MAX as u64, *target as u64, warnings);
    *target = v as usize;
}

fn apply_env_u8(vars: &Vec<EnvVar>, name: &str, target: &mut u8, warnings: &mut Vec<String>)
    ensures
        *final(target) == env_unsigned(env_pairs(vars@), name@, u8::MAX as nat, *old(target) as nat),
        text::lines(final(warnings)@) == text::lines(old(warnings)@) + unsigned_warning(
            env_pairs(vars@),
            name@,
            u8::MAX as nat,
            *old(target) as nat,
        ),
{
    let v: u64 = read_env_unsigned(vars, name, u8::MAX as u64, *target as u64, warnings);
    *target = v as u8;
}

fn apply_env_i32(vars: &Vec<EnvVar>, name: &str, target: &mut i32, warnings: &mut Vec<String>)
    ensures
        *final(target) == env_signed(env_pairs(vars@), name@, *old(target) as int),
        text::lines(final(warnings)@) == text::lines(old(warnings)@) + signed_warning(
            env_pairs(vars@),
            name@,
            *old(target) as int,
        ),
{
    match find_env(vars, name) {
        Some(value) => match parse_i32(value.as_str()) {
            Some(v) => {
                *target = v;
                assert(text::lines(warnings@) =~= text::lines(warnings@) + seq![]);
            },
            None => {
                let mut line: String = begin_warning(name, value);
                append_i32(&mut line, *target);
                proof {
                    lemma_push_line(warnings@, line);
                }
                warnings.push(line);
            },
        },
        None => {
            assert(text::lines(warnings@) =~= text::lines(warnings@) + seq![]);
        },
    }
}

/// Reads one of the words that stand for a truth value.
fn parse_flag(value: &String) -> (r: Option<bool>)
    ensures
        r == flag_setting(value@),
{
    if *value == "0".to_owned() || *value == "false".to_owned() || *value == "no".to_owned()
        || *value == "off".to_owned() {
        Some(false)
    } else if *value == "1".to_owned() || *value == "true".to_owned() || *value == "yes".to_owned()
        || *value == "on".to_owned() {
        Some(true)
    } else {
        None
    }
}

fn apply_env_bool(vars: &Vec<EnvVar>, name: &str, target: &mut bool, warnings: &mut Vec<String>)
    ensures
        *final(target) == env_flag(env_pairs(vars@), name@, *old(target)),
        text::lines(final(warnings)@) == text::lines(old(warnings)@) + flag_warning(
            env_pairs(vars@),
            name@,
            *old(target),
        ),
{
    match find_env(vars, name) {
        Some(value) => match parse_flag(value) {
            Some(b) => {
                *target = b;
                assert(text::lines(warnings@) =~= text::lines(warnings@) + seq![]);
            },
            None => {
                let mut line: String = begin_warning(name, value);
                append_flag(&mut line, *target);
                proof {
                    lemma_push_line(warnings@, line);
                }
                warnings.push(line);
            },
        },
        None => {
            assert(text::lines(warnings@) =~= text::lines(warnings@) + seq![]);
        },
    }
}

impl Config {
    /// Overrides fields from environment variables. A variable that is not set
    /// leaves its field alone; so does one whose value does not fit, and each
    /// such variable gives one warning line.
    pub fn apply_env_overrides(&mut self, vars: &Vec<EnvVar>) -> (warnings: Vec<String>)
        ensures
            final(self)@ == env_view(old(self)@, env_pairs(vars@)),
            text::lines(warnings@) == env_warnings(old(self)@, env_pairs(vars@)),
    {
        let mut warnings: Vec<String> = Vec::new();
        assert(text::lines(warnings@) =~= Seq::<Seq<char>>::empty());
        apply_env_string(vars, "LOCAL_IP", &mut self.local_ip);
        apply_env_u16(vars, "LOCAL_PORT", &mut self.local_port, &mut warnings);
        apply_env_string(vars, "REMOTE_IP", &mut self.remote_ip);
        apply_env_u16(vars, "REMOTE_TCP_PORT", &mut self.remote_tcp_port, &mut warnings);
        apply_env_u16(vars, "REMOTE_UDP_PORT", &mut self.remote_udp_port, &mut warnings);
        apply_env_usize(vars, "POOL_SIZE", &mut self.pool_size, &mut warnings);
        apply_env_usize(vars, "REFILL_BATCH", &mut self.refill_batch, &mut warnings);
        apply_env_u64(vars, "CONNECT_TIMEOUT", &mut self.connect_timeout, &mut warnings);
        apply_env_u64(vars, "IDLE_TIMEOUT", &mut self.idle_timeout, &mut warnings);
        apply_env_u64(vars, "HALF_CLOSE_TIMEOUT", &mut self.half_close_timeout, &mut warnings);
        apply_env_u64(vars, "PRECONNECT_TTL_MS", &mut self.preconnect_ttl_ms, &mut warnings);
        apply_env_usize(vars, "SPLICE_CHUNK", &mut self.splice_chunk, &mut warnings);
        apply_env_usize(vars, "SPLICE_PIPE_SIZE", &mut self.splice_pipe_size, &mut warnings);
        apply_env_u64(vars, "UDP_IDLE_TIMEOUT", &mut self.udp_idle_timeout, &mut warnings);
        apply_env_usize(vars, "UDP_SOCKET_BUFFER", &mut self.udp_socket_buffer, &mut warnings);
        apply_env_usize(vars, "UDP_BATCH_SIZE", &mut self.udp_batch_size, &mut warnings);
        apply_env_usize(vars, "POOL_MIN_SIZE", &mut self.pool_min_size, &mut warnings);
        apply_env_u8(vars, "TTL_JITTER_PCT", &mut self.ttl_jitter_pct, &mut warnings);
        apply_env_i32(vars, "LISTEN_BACKLOG", &mut self.listen_backlog, &mut warnings);
        apply_env_usize(vars, "LOG_RATE_PER_SEC", &mut self.log_rate_per_sec, &mut warnings);
        apply_env_bool(vars, "LOG_ENABLE", &mut self.log_enable, &mut warnings);
        apply_env_i32(vars, "TCP_KEEPIDLE", &mut self.tcp_keepidle, &mut warnings);
        apply_env_i32(vars, "TCP_KEEPINTVL", &mut self.tcp_keepintvl, &mut warnings);
        apply_env_i32(vars, "TCP_KEEPCNT", &mut self.tcp_keepcnt, &mut warnings);
        apply_env_i32(vars, "TCP_USER_TIMEOUT_MS", &mut self.tcp_user_timeout_ms, &mut warnings);
        warnings
    }
}

/// What the command line sets.
pub struct CliOptions {
    pub local_ip: Option<String>,
    pub local_port: Option<u16>,
    pub remote_ip: Option<String>,
    pub remote_tcp_port: Option<u16>,
    pub remote_udp_port: Option<u16>,
}

/// The text of an option that is given, else the current one.
pub open spec fn given_text(option: Option<String>, current: Seq<char>) -> Seq<char> {
    match option {
        Some(v) => v@,
        None => current,
    }
}

/// A configuration after its command line overrides.
pub open spec fn cli_view(c: ConfigView, o: CliOptions) -> ConfigView {
    ConfigView {
        local_ip: given_text(o.local_ip, c.local_ip),
        local_port: config::or_default(o.local_port, c.local_port),
        remote_ip: given_text(o.remote_ip, c.remote_ip),
        remote_tcp_port: config::or_default(o.remote_tcp_port, c.remote_tcp_port),
        remote_udp_port: config::or_default(o.remote_udp_port, c.remote_udp_port),
        ..c
    }
}

fn override_text(option: &Option<String>, target: &mut String)
    ensures
        final(target)@ == given_text(*option, old(target)@),
{
    match option {
        Some(v) => {
            *target = v.clone();
        },
        None => {},
    }
}

fn override_port(option: Option<u16>, target: &mut u16)
    ensures
        *final(target) == config::or_default(option, *old(target)),
{
    match option {
        Some(v) => {
            *target = v;
        },
        None => {},
    }
}

impl Config {
    /// Overrides fields from the command line.
    pub fn apply_cli_overrides(&mut self, options: &CliOptions)
        ensures
            final(self)@ == cli_view(old(self)@, *options),
    {
        override_text(&options.local_ip, &mut self.local_ip);
        override_port(options.local_port, &mut self.local_port);
        override_text(&options.remote_ip, &mut self.remote_ip);
        override_port(options.remote_tcp_port, &mut self.remote_tcp_port);
        override_port(options.remote_udp_port, &mut self.remote_udp_port);
    }

    /// The final configuration: the overrides of the environment, then those of
    /// the command line, then the check. The warnings of the environment come
    /// with it in either case.
    pub fn resolve(
        self,
        vars: &Vec<EnvVar>,
        options: &CliOptions,
    ) -> (r: (Vec<String>, Result<Config, String>))
        ensures
            text::lines(r.0@) == env_warnings(self@, env_pairs(vars@)),
            ({
                let merged = cli_view(env_view(self@, env_pairs(vars@)), *options);
                match config::refusal(merged) {
                    Some(why) => r.1 is Err && r.1->Err_0@ == why,
                    None => r.1 is Ok && r.1->Ok_0@ == config::checked(merged),
                }
            }),
    {
        let mut merged: Config = self;
        let warnings: Vec<String> = merged.apply_env_overrides(vars);
        merged.apply_cli_overrides(options);
        (warnings, merged.validate())
    }
}

/// The command line goes before the environment, the environment before the
/// settings file, and the file before the default, field by field.
pub proof fn law_merge_priority(
    f: FileSettings,
    vars: Seq<(Seq<char>, Seq<char>)>,
    o: CliOptions,
)
    ensures
        ({
            let c = cli_view(env_view(config::file_view(f), vars), o);
            let d = config::default_view();
            &&& c.local_ip == given_text(
                o.local_ip,
                env_text(vars, "LOCAL_IP"@, config::or_empty(f.local_ip)),
            )
            &&& c.local_port == config::or_default(
                o.local_port,
                env_unsigned(
                    vars,
                    "LOCAL_PORT"@,
                    u16::MAX as nat,
                    config::or_default(f.local_port, d.local_port) as nat,
                ) as u16,
            )
            &&& c.remote_ip == given_text(
                o.remote_ip,
                env_text(vars, "REMOTE_IP"@, config::or_empty(f.remote_ip)),
            )
            &&& c.remote_tcp_port == config::or_default(
                o.remote_tcp_port,
                env_unsigned(
                    vars,
                    "REMOTE_TCP_PORT"@,
                    u16::MAX as nat,
                    config::or_default(f.remote_tcp_port, d.remote_tcp_port) as nat,
                ) as u16,
            )
            &&& c.remote_udp_port == config::or_default(
                o.remote_udp_port,
                env_unsigned(
                    vars,
                    "REMOTE_UDP_PORT"@,
                    u16::MAX as nat,
                    config::or_default(f.remote_udp_port, d.remote_udp_port) as nat,
                ) as u16,
            )
            &&& c.pool_size == env_unsigned(
                vars,
                "POOL_SIZE"@,
                usize::MAX as nat,
                config::or_default(f.pool_size, d.pool_size) as nat,
            )
            &&& c.refill_batch == env_unsigned(
                vars,
                "REFILL_BATCH"@,
                usize::MAX as nat,
                config::or_default(f.refill_batch, d.refill_batch) as nat,
            )
            &&& c.connect_timeout == env_unsigned(
                vars,
                "CONNECT_TIMEOUT"@,
                u64::MAX as nat,
                config::or_default(f.connect_timeout, d.connect_timeout) as nat,
            )
            &&& c.idle_timeout == env_unsigned(
                vars,
                "IDLE_TIMEOUT"@,
                u64::MAX as nat,
                config::or_default(f.idle_timeout, d.idle_timeout) as nat,
            )
            &&& c.half_close_timeout == env_unsigned(
                vars,
                "HALF_CLOSE_TIMEOUT"@,
                u64::MAX as nat,
                config::or_default(f.half_close_timeout, d.half_close_timeout) as nat,
            )
            &&& c.preconnect_ttl_ms == env_unsigned(
                vars,
                "PRECONNECT_TTL_MS"@,
                u64::MAX as nat,
                config::or_default(f.preconnect_ttl_ms, d.preconnect_ttl_ms) as nat,
            )
            &&& c.pool_min_size == env_unsigned(
                vars,
                "POOL_MIN_SIZE"@,
                usize::MAX as nat,
                config::or_default(f.pool_min_size, d.pool_min_size) as nat,
            )
            &&& c.ttl_jitter_pct == env_unsigned(
                vars,
                "TTL_JITTER_PCT"@,
                u8::MAX as nat,
                config::or_default(f.ttl_jitter_pct, d.ttl_jitter_pct) as nat,
            )
            &&& c.splice_chunk == env_unsigned(
                vars,
                "SPLICE_CHUNK"@,
                usize::MAX as nat,
                config::or_default(f.splice_chunk, d.splice_chunk) as nat,
            )
            &&& c.splice_pipe_size == env_unsigned(
                vars,
                "SPLICE_PIPE_SIZE"@,
                usize::MAX as nat,
                config::or_default(f.splice_pipe_size, d.splice_pipe_size) as nat,
            )
            &&& c.udp_idle_timeout == env_unsigned(
                vars,
                "UDP_IDLE_TIMEOUT"@,
                u64::MAX as nat,
                config::or_default(f.udp_idle_timeout, d.udp_idle_timeout) as nat,
            )
            &&& c.udp_socket_buffer == env_unsigned(
                vars,
                "UDP_SOCKET_BUFFER"@,
                usize::MAX as nat,
                config::or_default(f.udp_socket_buffer, d.udp_socket_buffer) as nat,
            )
            &&& c.udp_batch_size == env_unsigned(
                vars,
                "UDP_BATCH_SIZE"@,
                usize::MAX as nat,
                config::or_default(f.udp_batch_size, d.udp_batch_size) as nat,
            )
            &&& c.listen_backlog == env_signed(
                vars,
                "LISTEN_BACKLOG"@,
                config::or_default(f.listen_backlog, d.listen_backlog) as int,
            )
            &&& c.log_rate_per_sec == env_unsigned(
                vars,
                "LOG_RATE_PER_SEC"@,
                usize::MAX as nat,
                config::or_default(f.log_rate_per_sec, d.log_rate_per_sec) as nat,
            )
            &&& c.log_enable == env_flag(
                vars,
                "LOG_ENABLE"@,
                config::or_default(f.log_enable, d.log_enable),
            )
            &&& c.tcp_keepidle == env_signed(
                vars,
                "TCP_KEEPIDLE"@,
                config::or_default(f.tcp_keepidle, d.tcp_keepidle) as int,
            )
            &&& c.tcp_keepintvl == env_signed(
                vars,
                "TCP_KEEPINTVL"@,
                config::or_default(f.tcp_keepintvl, d.tcp_keepintvl) as int,
            )
            &&& c.tcp_keepcnt == env_signed(
                vars,
                "TCP_KEEPCNT"@,
                config::or_default(f.tcp_keepcnt, d.tcp_keepcnt) as int,
            )
            &&& c.tcp_user_timeout_ms == env_signed(
                vars,
                "TCP_USER_TIMEOUT_MS"@,
                config::or_default(f.tcp_user_timeout_ms, d.tcp_user_timeout_ms) as int,
            )
        }),
{
}

/// An override from the environment touches no field whose variable is not set,
/// and gives no warning about it.
pub proof fn law_empty_environment_changes_nothing(c: ConfigView)
    ensures
        env_view(c, seq![]) == c,
        env_warnings(c, seq![]) == Seq::<Seq<char>>::empty(),
{
}

} // verus!
