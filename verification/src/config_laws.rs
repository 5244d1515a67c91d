//! What the configuration is made of, field by field: where each value comes from,
//! which values are refused, and what is said about them.

use crate::config;
use crate::config::Config;
use crate::config::ConfigView;
use crate::config::FileError;
use crate::config::FileSettings;
use crate::overrides;
use crate::overrides::CliOptions;
use crate::overrides::EnvVar;
use crate::text;
use vstd::prelude::*;

verus! {

/// The view of a configuration hides nothing: it has every field as it is, the texts
/// as their characters.
pub proof fn law_view_shows_every_field(c: Config)
    ensures
        c@.local_ip == c.local_ip@,
        c@.remote_ip == c.remote_ip@,
        c@.local_port == c.local_port,
        c@.remote_tcp_port == c.remote_tcp_port,
        c@.remote_udp_port == c.remote_udp_port,
        c@.pool_size == c.pool_size,
        c@.refill_batch == c.refill_batch,
        c@.connect_timeout == c.connect_timeout,
        c@.idle_timeout == c.idle_timeout,
        c@.half_close_timeout == c.half_close_timeout,
        c@.preconnect_ttl_ms == c.preconnect_ttl_ms,
        c@.pool_min_size == c.pool_min_size,
        c@.ttl_jitter_pct == c.ttl_jitter_pct,
        c@.splice_chunk == c.splice_chunk,
        c@.splice_pipe_size == c.splice_pipe_size,
        c@.udp_idle_timeout == c.udp_idle_timeout,
        c@.udp_socket_buffer == c.udp_socket_buffer,
        c@.udp_batch_size == c.udp_batch_size,
        c@.listen_backlog == c.listen_backlog,
        c@.log_rate_per_sec == c.log_rate_per_sec,
        c@.log_enable == c.log_enable,
        c@.tcp_keepidle == c.tcp_keepidle,
        c@.tcp_keepintvl == c.tcp_keepintvl,
        c@.tcp_keepcnt == c.tcp_keepcnt,
        c@.tcp_user_timeout_ms == c.tcp_user_timeout_ms,
{
}

/// The view of an environment hides nothing: it has every variable, in order.
pub proof fn law_environment_is_seen_whole(vars: Seq<EnvVar>, i: int)
    ensures
        overrides::env_pairs(vars).len() == vars.len(),
        0 <= i < vars.len() ==> overrides::env_pairs(vars)[i] == (vars[i].name@, vars[i].value@),
{
}

/// The value of every field that nothing has set.
pub proof fn law_defaults_are_these()
    ensures
        ({
            let d = config::default_view();
            &&& d.local_ip.len() == 0
            &&& d.local_port == 0
            &&& d.remote_ip.len() == 0
            &&& d.remote_tcp_port == 0
            &&& d.remote_udp_port == 0
            &&& d.pool_size == 32
            &&& d.refill_batch == 8
            &&& d.connect_timeout == 5
            &&& d.idle_timeout == 180
            &&& d.half_close_timeout == 6
            &&& d.preconnect_ttl_ms == 60_000
            &&& d.pool_min_size == 0
            &&& d.ttl_jitter_pct == 25
            &&& d.splice_chunk == 131_072
            &&& d.splice_pipe_size == 1_048_576
            &&& d.udp_idle_timeout == 60
            &&& d.udp_socket_buffer == 4_194_304
            &&& d.udp_batch_size == 64
            &&& d.listen_backlog == 16_384
            &&& d.log_rate_per_sec == 24
            &&& d.log_enable == true
            &&& d.tcp_keepidle == 45
            &&& d.tcp_keepintvl == 10
            &&& d.tcp_keepcnt == 2
            &&& d.tcp_user_timeout_ms == 0
        }),
{
}

/// A settings file sets exactly the fields that it names, to the values that it
/// gives; every other field keeps its default.
pub proof fn law_file_sets_what_it_names(f: FileSettings)
    ensures
        ({
            let c = config::file_view(f);
            &&& f.local_ip matches Some(v) ==> c.local_ip == v@
            &&& f.local_ip is None ==> c.local_ip.len() == 0
            &&& f.local_port matches Some(v) ==> c.local_port == v
            &&& f.local_port is None ==> c.local_port == 0
            &&& f.remote_ip matches Some(v) ==> c.remote_ip == v@
            &&& f.remote_ip is None ==> c.remote_ip.len() == 0
            &&& f.remote_tcp_port matches Some(v) ==> c.remote_tcp_port == v
            &&& f.remote_tcp_port is None ==> c.remote_tcp_port == 0
            &&& f.remote_udp_port matches Some(v) ==> c.remote_udp_port == v
            &&& f.remote_udp_port is None ==> c.remote_udp_port == 0
            &&& f.pool_size matches Some(v) ==> c.pool_size == v
            &&& f.pool_size is None ==> c.pool_size == 32
            &&& f.refill_batch matches Some(v) ==> c.refill_batch == v
            &&& f.refill_batch is None ==> c.refill_batch == 8
            &&& f.connect_timeout matches Some(v) ==> c.connect_timeout == v
            &&& f.connect_timeout is None ==> c.connect_timeout == 5
            &&& f.idle_timeout matches Some(v) ==> c.idle_timeout == v
            &&& f.idle_timeout is None ==> c.idle_timeout == 180
            &&& f.half_close_timeout matches Some(v) ==> c.half_close_timeout == v
            &&& f.half_close_timeout is None ==> c.half_close_timeout == 6
            &&& f.preconnect_ttl_ms matches Some(v) ==> c.preconnect_ttl_ms == v
            &&& f.preconnect_ttl_ms is None ==> c.preconnect_ttl_ms == 60_000
            &&& f.pool_min_size matches Some(v) ==> c.pool_min_size == v
            &&& f.pool_min_size is None ==> c.pool_min_size == 0
            &&& f.ttl_jitter_pct matches Some(v) ==> c.ttl_jitter_pct == v
            &&& f.ttl_jitter_pct is None ==> c.ttl_jitter_pct == 25
            &&& f.splice_chunk matches Some(v) ==> c.splice_chunk == v
            &&& f.splice_chunk is None ==> c.splice_chunk == 131_072
            &&& f.splice_pipe_size matches Some(v) ==> c.splice_pipe_size == v
            &&& f.splice_pipe_size is None ==> c.splice_pipe_size == 1_048_576
            &&& f.udp_idle_timeout matches Some(v) ==> c.udp_idle_timeout == v
            &&& f.udp_idle_timeout is None ==> c.udp_idle_timeout == 60
            &&& f.udp_socket_buffer matches Some(v) ==> c.udp_socket_buffer == v
            &&& f.udp_socket_buffer is None ==> c.udp_socket_buffer == 4_194_304
            &&& f.udp_batch_size matches Some(v) ==> c.udp_batch_size == v
            &&& f.udp_batch_size is None ==> c.udp_batch_size == 64
            &&& f.listen_backlog matches Some(v) ==> c.listen_backlog == v
            &&& f.listen_backlog is None ==> c.listen_backlog == 16_384
            &&& f.log_rate_per_sec matches Some(v) ==> c.log_rate_per_sec == v
            &&& f.log_rate_per_sec is None ==> c.log_rate_per_sec == 24
            &&& f.log_enable matches Some(v) ==> c.log_enable == v
            &&& f.log_enable is None ==> c.log_enable == true
            &&& f.tcp_keepidle matches Some(v) ==> c.tcp_keepidle == v
            &&& f.tcp_keepidle is None ==> c.tcp_keepidle == 45
            &&& f.tcp_keepintvl matches Some(v) ==> c.tcp_keepintvl == v
            &&& f.tcp_keepintvl is None ==> c.tcp_keepintvl == 10
            &&& f.tcp_keepcnt matches Some(v) ==> c.tcp_keepcnt == v
            &&& f.tcp_keepcnt is None ==> c.tcp_keepcnt == 2
            &&& f.tcp_user_timeout_ms matches Some(v) ==> c.tcp_user_timeout_ms == v
            &&& f.tcp_user_timeout_ms is None ==> c.tcp_user_timeout_ms == 0
        }),
{
}

/// The check keeps every setting but the refill batch, and that too where it is at
/// least one and no more than the pool holds, or where there is no pool. A refill
/// batch of none becomes one, and one that is too large becomes the pool's size.
pub proof fn law_check_keeps_every_setting(c: ConfigView)
    ensures
        ({
            let k = config::checked(c);
            &&& k.local_ip == c.local_ip
            &&& k.local_port == c.local_port
            &&& k.remote_ip == c.remote_ip
            &&& k.remote_tcp_port == c.remote_tcp_port
            &&& k.remote_udp_port == c.remote_udp_port
            &&& k.pool_size == c.pool_size
            &&& k.connect_timeout == c.connect_timeout
            &&& k.idle_timeout == c.idle_timeout
            &&& k.half_close_timeout == c.half_close_timeout
            &&& k.preconnect_ttl_ms == c.preconnect_ttl_ms
            &&& k.pool_min_size == c.pool_min_size
            &&& k.ttl_jitter_pct == c.ttl_jitter_pct
            &&& k.splice_chunk == c.splice_chunk
            &&& k.splice_pipe_size == c.splice_pipe_size
            &&& k.udp_idle_timeout == c.udp_idle_timeout
            &&& k.udp_socket_buffer == c.udp_socket_buffer
            &&& k.udp_batch_size == c.udp_batch_size
            &&& k.listen_backlog == c.listen_backlog
            &&& k.log_rate_per_sec == c.log_rate_per_sec
            &&& k.log_enable == c.log_enable
            &&& k.tcp_keepidle == c.tcp_keepidle
            &&& k.tcp_keepintvl == c.tcp_keepintvl
            &&& k.tcp_keepcnt == c.tcp_keepcnt
            &&& k.tcp_user_timeout_ms == c.tcp_user_timeout_ms
            &&& c.refill_batch >= 1 && (c.pool_size == 0 || c.refill_batch <= c.pool_size)
                ==> k.refill_batch == c.refill_batch
            &&& c.refill_batch == 0 ==> k.refill_batch == 1
            &&& c.pool_size > 0 && c.refill_batch > c.pool_size ==> k.refill_batch == c.pool_size
        }),
{
}

/// A configuration is accepted if and only if it has both addresses and all three
/// ports, and every limited field lies within its limits.
pub proof fn law_check_refuses_exactly_the_faulty(c: ConfigView)
    ensures
        config::refusal(c) is None <==> {
            &&& c.local_ip.len() > 0
            &&& c.local_port != 0
            &&& c.remote_ip.len() > 0
            &&& c.remote_tcp_port != 0
            &&& c.remote_udp_port != 0
            &&& c.pool_size <= 256
            &&& 16_384 <= c.splice_chunk <= 1_048_576
            &&& 4_096 <= c.splice_pipe_size <= 1_048_576
            &&& 1 <= c.udp_batch_size <= 128
            &&& c.pool_min_size <= c.pool_size
            &&& c.ttl_jitter_pct <= 50
            &&& 1 <= c.connect_timeout <= 65
            &&& c.idle_timeout >= 30
            &&& c.half_close_timeout >= 1
            &&& c.preconnect_ttl_ms >= 10_000
            &&& 10 <= c.tcp_keepidle <= 86_400
            &&& 1 <= c.tcp_keepintvl <= 3_600
            &&& 1 <= c.tcp_keepcnt <= 30
        },
{
}

/// The faults of a configuration with what is said about each, in the order in which
/// they are looked for.
pub open spec fn faults(c: ConfigView) -> Seq<(bool, Seq<char>)> {
    seq![
        (!(c.local_ip.len() > 0), "local_ip is required (set LOCAL_IP env or local_ip in TOML)"@),
        (!(c.local_port != 0), "local_port is required (set LOCAL_PORT env or local_port in TOML)"@),
        (!(c.remote_ip.len() > 0), "remote_ip is required (set REMOTE_IP env or remote_ip in TOML)"@),
        (!(c.remote_tcp_port != 0), "remote_tcp_port is required (set REMOTE_TCP_PORT env or remote_tcp_port in TOML)"@),
        (!(c.remote_udp_port != 0), "remote_udp_port is required (set REMOTE_UDP_PORT env or remote_udp_port in TOML)"@),
        (!(c.pool_size <= 256), "pool_size must be <= 256"@),
        (!(16_384 <= c.splice_chunk <= 1_048_576), "splice_chunk must be between 16 KiB and 1 MiB"@),
        (!(4_096 <= c.splice_pipe_size <= 1_048_576), "splice_pipe_size must be between 4 KiB and 1 MiB"@),
        (!(1 <= c.udp_batch_size <= 128), "udp_batch_size must be between 1 and 128"@),
        (!(c.pool_min_size <= c.pool_size), "pool_min_size must be <= pool_size"@),
        (!(c.ttl_jitter_pct <= 50), "ttl_jitter_pct must be <= 50"@),
        (!(1 <= c.connect_timeout <= 65), "connect_timeout must be between 1 and 65 seconds"@),
        (!(c.idle_timeout >= 30), "idle_timeout must be >= 30"@),
        (!(c.half_close_timeout >= 1), "half_close_timeout must be >= 1"@),
        (!(c.preconnect_ttl_ms >= 10_000), "preconnect_ttl_ms must be >= 10000"@),
        (!(10 <= c.tcp_keepidle <= 86_400), "tcp_keepidle must be between 10 and 86400"@),
        (!(1 <= c.tcp_keepintvl <= 3_600), "tcp_keepintvl must be between 1 and 3600"@),
        (!(1 <= c.tcp_keepcnt <= 30), "tcp_keepcnt must be between 1 and 30"@),
    ]
}

/// Of several faults the first is reported, in its own words.
pub proof fn law_first_fault_is_reported(c: ConfigView, i: int)
    requires
        0 <= i < faults(c).len(),
        faults(c)[i].0,
        forall|j: int| 0 <= j < i ==> !(#[trigger] faults(c)[j]).0,
    ensures
        config::refusal(c) == Some(faults(c)[i].1),
{
    assert(0 < i ==> !faults(c)[0].0);
    assert(1 < i ==> !faults(c)[1].0);
    assert(2 < i ==> !faults(c)[2].0);
    assert(3 < i ==> !faults(c)[3].0);
    assert(4 < i ==> !faults(c)[4].0);
    assert(5 < i ==> !faults(c)[5].0);
    assert(6 < i ==> !faults(c)[6].0);
    assert(7 < i ==> !faults(c)[7].0);
    assert(8 < i ==> !faults(c)[8].0);
    assert(9 < i ==> !faults(c)[9].0);
    assert(10 < i ==> !faults(c)[10].0);
    assert(11 < i ==> !faults(c)[11].0);
    assert(12 < i ==> !faults(c)[12].0);
    assert(13 < i ==> !faults(c)[13].0);
    assert(14 < i ==> !faults(c)[14].0);
    assert(15 < i ==> !faults(c)[15].0);
    assert(16 < i ==> !faults(c)[16].0);
    assert(17 < i ==> !faults(c)[17].0);
}

/// What is said about a settings file that could not be used: what failed, the file,
/// and why.
pub proof fn law_file_error_names_the_file(path: Seq<char>, why: String)
    ensures
        config::file_error_text(path, FileError::Read(why)) == "cannot read config file "@ + path
            + ": "@ + why@,
        config::file_error_text(path, FileError::Syntax(why)) == "invalid TOML in "@ + path + ": "@
            + why@,
{
}

/// The announcement of a configuration names both ends, and then how it runs.
pub proof fn law_startup_names_both_ends(c: ConfigView)
    ensures
        config::startup_text(c).len() == 2,
        config::startup_text(c)[0] == "Using config: local="@ + c.local_ip + ":"@ + text::decimal(
            c.local_port as nat,
        ) + " -> remote="@ + c.remote_ip + " TCP:"@ + text::decimal(c.remote_tcp_port as nat)
            + "/UDP:"@ + text::decimal(c.remote_udp_port as nat),
        c.log_enable ==> config::startup_text(c)[1] == runtime_line(c, "on"@),
        !c.log_enable ==> config::startup_text(c)[1] == runtime_line(c, "off"@),
{
}

/// The line that says how a configuration runs.
pub open spec fn runtime_line(c: ConfigView, log: Seq<char>) -> Seq<char> {
    "Runtime: pool="@ + text::decimal(c.pool_size as nat) + " refill="@ + text::decimal(
        c.refill_batch as nat,
    ) + " splice="@ + text::decimal(c.splice_chunk as nat) + " backlog="@ + text::signed_decimal(
        c.listen_backlog as int,
    ) + " udp_buf="@ + text::decimal(c.udp_socket_buffer as nat) + " log="@ + log
}

/// The value of a variable is that of the first one of its name, and none where there
/// is no such variable.
pub proof fn law_first_variable_of_a_name_counts(
    vars: Seq<(Seq<char>, Seq<char>)>,
    name: Seq<char>,
    i: int,
)
    ensures
        0 <= i < vars.len() && vars[i].0 == name && (forall|j: int|
            0 <= j < i ==> (#[trigger] vars[j]).0 != name) ==> overrides::env_value(vars, name)
            == Some(vars[i].1),
        (forall|j: int| 0 <= j < vars.len() ==> (#[trigger] vars[j]).0 != name)
            ==> overrides::env_value(vars, name) is None,
    decreases vars.len(),
{
    if vars.len() > 0 {
        let rest = vars.skip(1);
        assert(forall|j: int| 0 <= j < rest.len() ==> #[trigger] rest[j] == vars[j + 1]);
        law_first_variable_of_a_name_counts(rest, name, i - 1);
    }
}

/// A variable that is not set leaves its field alone, without a warning.
pub proof fn law_unset_variable_is_ignored(
    vars: Seq<(Seq<char>, Seq<char>)>,
    name: Seq<char>,
    max: nat,
    words: Seq<char>,
    number: nat,
    signed: int,
    flag: bool,
)
    requires
        overrides::env_value(vars, name) is None,
    ensures
        overrides::env_text(vars, name, words) == words,
        overrides::env_unsigned(vars, name, max, number) == number,
        overrides::env_signed(vars, name, signed) == signed,
        overrides::env_flag(vars, name, flag) == flag,
        overrides::unsigned_warning(vars, name, max, number).len() == 0,
        overrides::signed_warning(vars, name, signed).len() == 0,
        overrides::flag_warning(vars, name, flag).len() == 0,
{
}

/// A variable that is set overrides a text as it is. It overrides a number where it
/// spells one that fits, and a truth value where it is one of the words for one, and
/// then gives no warning.
pub proof fn law_usable_variable_overrides(
    vars: Seq<(Seq<char>, Seq<char>)>,
    name: Seq<char>,
    value: Seq<char>,
    max: nat,
    words: Seq<char>,
    number: nat,
    signed: int,
    flag: bool,
)
    requires
        overrides::env_value(vars, name) == Some(value),
    ensures
        overrides::env_text(vars, name, words) == value,
        text::unsigned_number(value) is Some && text::unsigned_number(value)->0 <= max
            ==> overrides::env_unsigned(vars, name, max, number) == text::unsigned_number(value)->0
            && overrides::unsigned_warning(vars, name, max, number).len() == 0,
        text::signed_number(value) is Some && -0x8000_0000 <= text::signed_number(value)->0
            <= 0x7fff_ffff ==> overrides::env_signed(vars, name, signed) == text::signed_number(
            value,
        )->0 && overrides::signed_warning(
            vars,
            name,
            signed,
        ).len() == 0,
        value == "1"@ || value == "true"@ || value == "yes"@ || value == "on"@
            ==> overrides::env_flag(vars, name, flag) && overrides::flag_warning(
            vars,
            name,
            flag,
        ).len() == 0,
        value == "0"@ || value == "false"@ || value == "no"@ || value == "off"@
            ==> !overrides::env_flag(vars, name, flag) && overrides::flag_warning(
            vars,
            name,
            flag,
        ).len() == 0,
{
    reveal_strlit("0");
    reveal_strlit("1");
    reveal_strlit("false");
    reveal_strlit("true");
    reveal_strlit("no");
    reveal_strlit("yes");
    reveal_strlit("off");
    reveal_strlit("on");
    assert("1"@[0] == '1' && "true"@[0] == 't' && "yes"@[0] == 'y' && "on"@[1] == 'n');
    assert("0"@[0] == '0' && "false"@[0] == 'f' && "no"@[0] == 'n' && "off"@[1] == 'f');
}

/// A variable that is set to what does not fit leaves its field alone, and one
/// warning names the variable, its value and what is kept.
pub proof fn law_unusable_variable_is_warned_about(
    vars: Seq<(Seq<char>, Seq<char>)>,
    name: Seq<char>,
    value: Seq<char>,
    max: nat,
    number: nat,
    signed: int,
    flag: bool,
)
    requires
        overrides::env_value(vars, name) == Some(value),
    ensures
        text::unsigned_number(value) is None || text::unsigned_number(value)->0 > max
            ==> overrides::env_unsigned(vars, name, max, number) == number
            && overrides::unsigned_warning(vars, name, max, number) == seq![
            "WARN: invalid "@ + name + "="@ + value + ", keeping "@ + text::decimal(number),
        ],
        text::signed_number(value) is None || text::signed_number(value)->0 < -0x8000_0000
            || text::signed_number(value)->0 > 0x7fff_ffff ==> overrides::env_signed(
            vars,
            name,
            signed,
        ) == signed && overrides::signed_warning(vars, name, signed) == seq![
            "WARN: invalid "@ + name + "="@ + value + ", keeping "@ + text::signed_decimal(signed),
        ],
        value != "0"@ && value != "false"@ && value != "no"@ && value != "off"@ && value != "1"@
            && value != "true"@ && value != "yes"@ && value != "on"@ ==> overrides::env_flag(
            vars,
            name,
            flag,
        ) == flag && overrides::flag_warning(vars, name, flag) == seq![
            "WARN: invalid "@ + name + "="@ + value + ", keeping "@ + text::flag_text(flag),
        ],
{
}

/// Each field is overridden by the variable of its own name, with the limit of its
/// own type, and by no other variable.
pub proof fn law_each_field_has_its_variable(
    c: ConfigView,
    vars: Seq<(Seq<char>, Seq<char>)>,
)
    ensures
        ({
            let e = overrides::env_view(c, vars);
            &&& e.local_ip == overrides::env_text(vars, "LOCAL_IP"@, c.local_ip)
            &&& e.local_port == overrides::env_unsigned(
                vars,
                "LOCAL_PORT"@,
                65_535,
                c.local_port as nat,
            )
            &&& e.remote_ip == overrides::env_text(vars, "REMOTE_IP"@, c.remote_ip)
            &&& e.remote_tcp_port == overrides::env_unsigned(
                vars,
                "REMOTE_TCP_PORT"@,
                65_535,
                c.remote_tcp_port as nat,
            )
            &&& e.remote_udp_port == overrides::env_unsigned(
                vars,
                "REMOTE_UDP_PORT"@,
                65_535,
                c.remote_udp_port as nat,
            )
            &&& e.pool_size == overrides::env_unsigned(
                vars,
                "POOL_SIZE"@,
                usize::MAX as nat,
                c.pool_size as nat,
            )
            &&& e.refill_batch == overrides::env_unsigned(
                vars,
                "REFILL_BATCH"@,
                usize::MAX as nat,
                c.refill_batch as nat,
            )
            &&& e.connect_timeout == overrides::env_unsigned(
                vars,
                "CONNECT_TIMEOUT"@,
                u64::MAX as nat,
                c.connect_timeout as nat,
            )
            &&& e.idle_timeout == overrides::env_unsigned(
                vars,
                "IDLE_TIMEOUT"@,
                u64::MAX as nat,
                c.idle_timeout as nat,
            )
            &&& e.half_close_timeout == overrides::env_unsigned(
                vars,
                "HALF_CLOSE_TIMEOUT"@,
                u64::MAX as nat,
                c.half_close_timeout as nat,
            )
            &&& e.preconnect_ttl_ms == overrides::env_unsigned(
                vars,
                "PRECONNECT_TTL_MS"@,
                u64::MAX as nat,
                c.preconnect_ttl_ms as nat,
            )
            &&& e.pool_min_size == overrides::env_unsigned(
                vars,
                "POOL_MIN_SIZE"@,
                usize::MAX as nat,
                c.pool_min_size as nat,
            )
            &&& e.ttl_jitter_pct == overrides::env_unsigned(
                vars,
                "TTL_JITTER_PCT"@,
                255,
                c.ttl_jitter_pct as nat,
            )
            &&& e.splice_chunk == overrides::env_unsigned(
                vars,
                "SPLICE_CHUNK"@,
                usize::MAX as nat,
                c.splice_chunk as nat,
            )
            &&& e.splice_pipe_size == overrides::env_unsigned(
                vars,
                "SPLICE_PIPE_SIZE"@,
                usize::MAX as nat,
                c.splice_pipe_size as nat,
            )
            &&& e.udp_idle_timeout == overrides::env_unsigned(
                vars,
                "UDP_IDLE_TIMEOUT"@,
                u64::MAX as nat,
                c.udp_idle_timeout as nat,
            )
            &&& e.udp_socket_buffer == overrides::env_unsigned(
                vars,
                "UDP_SOCKET_BUFFER"@,
                usize::MAX as nat,
                c.udp_socket_buffer as nat,
            )
            &&& e.udp_batch_size == overrides::env_unsigned(
                vars,
                "UDP_BATCH_SIZE"@,
                usize::MAX as nat,
                c.udp_batch_size as nat,
            )
            &&& e.listen_backlog == overrides::env_signed(vars, "LISTEN_BACKLOG"@, c.listen_backlog as int)
            &&& e.log_rate_per_sec == overrides::env_unsigned(
                vars,
                "LOG_RATE_PER_SEC"@,
                usize::MAX as nat,
                c.log_rate_per_sec as nat,
            )
            &&& e.log_enable == overrides::env_flag(vars, "LOG_ENABLE"@, c.log_enable)
            &&& e.tcp_keepidle == overrides::env_signed(vars, "TCP_KEEPIDLE"@, c.tcp_keepidle as int)
            &&& e.tcp_keepintvl == overrides::env_signed(vars, "TCP_KEEPINTVL"@, c.tcp_keepintvl as int)
            &&& e.tcp_keepcnt == overrides::env_signed(vars, "TCP_KEEPCNT"@, c.tcp_keepcnt as int)
            &&& e.tcp_user_timeout_ms == overrides::env_signed(vars, "TCP_USER_TIMEOUT_MS"@, c.tcp_user_timeout_ms as int)
        }),
{
}

/// The warnings of a whole environment are those of its variables, each variable for
/// itself, in a fixed order.
pub proof fn law_warnings_come_in_a_fixed_order(
    c: ConfigView,
    vars: Seq<(Seq<char>, Seq<char>)>,
)
    ensures
        overrides::env_warnings(c, vars) == Seq::<Seq<char>>::empty()
            + overrides::unsigned_warning(vars, "LOCAL_PORT"@, 65_535, c.local_port as nat)
            + overrides::unsigned_warning(vars, "REMOTE_TCP_PORT"@, 65_535, c.remote_tcp_port as nat)
            + overrides::unsigned_warning(vars, "REMOTE_UDP_PORT"@, 65_535, c.remote_udp_port as nat)
            + overrides::unsigned_warning(vars, "POOL_SIZE"@, usize::MAX as nat, c.pool_size as nat)
            + overrides::unsigned_warning(vars, "REFILL_BATCH"@, usize::MAX as nat, c.refill_batch as nat)
            + overrides::unsigned_warning(vars, "CONNECT_TIMEOUT"@, u64::MAX as nat, c.connect_timeout as nat)
            + overrides::unsigned_warning(vars, "IDLE_TIMEOUT"@, u64::MAX as nat, c.idle_timeout as nat)
            + overrides::unsigned_warning(vars, "HALF_CLOSE_TIMEOUT"@, u64::MAX as nat, c.half_close_timeout as nat)
            + overrides::unsigned_warning(vars, "PRECONNECT_TTL_MS"@, u64::MAX as nat, c.preconnect_ttl_ms as nat)
            + overrides::unsigned_warning(vars, "SPLICE_CHUNK"@, usize::MAX as nat, c.splice_chunk as nat)
            + overrides::unsigned_warning(vars, "SPLICE_PIPE_SIZE"@, usize::MAX as nat, c.splice_pipe_size as nat)
            + overrides::unsigned_warning(vars, "UDP_IDLE_TIMEOUT"@, u64::MAX as nat, c.udp_idle_timeout as nat)
            + overrides::unsigned_warning(vars, "UDP_SOCKET_BUFFER"@, usize::MAX as nat, c.udp_socket_buffer as nat)
            + overrides::unsigned_warning(vars, "UDP_BATCH_SIZE"@, usize::MAX as nat, c.udp_batch_size as nat)
            + overrides::unsigned_warning(vars, "POOL_MIN_SIZE"@, usize::MAX as nat, c.pool_min_size as nat)
            + overrides::unsigned_warning(vars, "TTL_JITTER_PCT"@, 255, c.ttl_jitter_pct as nat)
            + overrides::signed_warning(vars, "LISTEN_BACKLOG"@, c.listen_backlog as int)
            + overrides::unsigned_warning(vars, "LOG_RATE_PER_SEC"@, usize::MAX as nat, c.log_rate_per_sec as nat)
            + overrides::flag_warning(vars, "LOG_ENABLE"@, c.log_enable)
            + overrides::signed_warning(vars, "TCP_KEEPIDLE"@, c.tcp_keepidle as int)
            + overrides::signed_warning(vars, "TCP_KEEPINTVL"@, c.tcp_keepintvl as int)
            + overrides::signed_warning(vars, "TCP_KEEPCNT"@, c.tcp_keepcnt as int)
            + overrides::signed_warning(vars, "TCP_USER_TIMEOUT_MS"@, c.tcp_user_timeout_ms as int),
{
}

/// An option of the command line overrides its own field, and nothing else is
/// touched.
pub proof fn law_options_override_their_fields(c: ConfigView, o: CliOptions)
    ensures
        ({
            let k = overrides::cli_view(c, o);
            &&& o.local_ip matches Some(v) ==> k.local_ip == v@
            &&& o.local_ip is None ==> k.local_ip == c.local_ip
            &&& o.local_port matches Some(v) ==> k.local_port == v
            &&& o.local_port is None ==> k.local_port == c.local_port
            &&& o.remote_ip matches Some(v) ==> k.remote_ip == v@
            &&& o.remote_ip is None ==> k.remote_ip == c.remote_ip
            &&& o.remote_tcp_port matches Some(v) ==> k.remote_tcp_port == v
            &&& o.remote_tcp_port is None ==> k.remote_tcp_port == c.remote_tcp_port
            &&& o.remote_udp_port matches Some(v) ==> k.remote_udp_port == v
            &&& o.remote_udp_port is None ==> k.remote_udp_port == c.remote_udp_port
            &&& k.pool_size == c.pool_size
            &&& k.refill_batch == c.refill_batch
            &&& k.connect_timeout == c.connect_timeout
            &&& k.idle_timeout == c.idle_timeout
            &&& k.half_close_timeout == c.half_close_timeout
            &&& k.preconnect_ttl_ms == c.preconnect_ttl_ms
            &&& k.pool_min_size == c.pool_min_size
            &&& k.ttl_jitter_pct == c.ttl_jitter_pct
            &&& k.splice_chunk == c.splice_chunk
            &&& k.splice_pipe_size == c.splice_pipe_size
            &&& k.udp_idle_timeout == c.udp_idle_timeout
            &&& k.udp_socket_buffer == c.udp_socket_buffer
            &&& k.udp_batch_size == c.udp_batch_size
            &&& k.listen_backlog == c.listen_backlog
            &&& k.log_rate_per_sec == c.log_rate_per_sec
            &&& k.log_enable == c.log_enable
            &&& k.tcp_keepidle == c.tcp_keepidle
            &&& k.tcp_keepintvl == c.tcp_keepintvl
            &&& k.tcp_keepcnt == c.tcp_keepcnt
            &&& k.tcp_user_timeout_ms == c.tcp_user_timeout_ms
        }),
{
}

} // verus!
