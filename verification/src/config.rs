//! The service's settings: their defaults, how command-line options
//! override the settings file, and the bounds that every setting is kept in.

use vstd::prelude::*;
use crate::ids::new_id;
use crate::order::chars_of;
use crate::text::{concat_str, owned};
use vstd::string::StrSliceExecFns;

verus! {

broadcast use vstd::string::group_string_axioms;

pub const UNKNOWN_NAME: &'static str = "unknown";

/// Where and how the HTTP server listens. Paths are kept as text.
pub struct ServerConfig {
    pub host: String,
    pub port: u16,
    pub static_dir: Option<String>,
    pub cors: Vec<String>,
    pub lock_timeout_millis: u64,
}

/// Where the data is kept and how writes are batched.
pub struct StorageConfig {
    pub data_dir: String,
    pub queue_size: usize,
    pub wait_interval_seconds: u64,
}

/// Sign-up policy and the parameters of the session tokens.
pub struct SecurityConfig {
    pub allow_signup: bool,
    pub jwt_secret: String,
    pub jwt_issuer: String,
    pub jwt_expires_minutes: i64,
}

/// The log filter, as the directive text that the logger parses.
pub struct LoggingConfig {
    pub level: Option<String>,
}

pub struct Config {
    pub server: ServerConfig,
    pub storage: StorageConfig,
    pub security: SecurityConfig,
    pub logging: LoggingConfig,
}

/// The command-line options; each one that is given overrides the settings
/// file.
pub struct Cli {
    pub host: Option<String>,
    pub port: Option<u16>,
    pub static_dir: Option<String>,
    pub cors: Vec<String>,
    pub no_cors: bool,
    pub no_static: bool,
    pub lock_timeout_millis: Option<u64>,
    pub data_dir: Option<String>,
    pub queue_size: Option<usize>,
    pub wait_interval_seconds: Option<u64>,
    pub allow_signup: bool,
    pub deny_signup: bool,
    pub jwt_secret: Option<String>,
    pub jwt_issuer: Option<String>,
    pub jwt_expires_minutes: Option<i64>,
    pub log_level: Option<String>,
    pub no_log: bool,
}

#[derive(Debug)]
pub enum ConfigError {
    /// The data directory cannot be written to.
    DataDirNotWriteable(String),
}

impl ConfigError {
    /// The text of the error.
    pub fn message(&self) -> (r: String)
        ensures
            match self {
                ConfigError::DataDirNotWriteable(d) => r@ == "data directory ("@ + d@ + ") is not writeable"@,
            },
    {
        match self {
            ConfigError::DataDirNotWriteable(d) => {
                let mut r = concat_str("data directory (", d.as_str());
                r.append(") is not writeable");
                r
            },
        }
    }
}

pub fn default_host() -> (r: String)
    ensures
        r@ == "0.0.0.0"@,
{
    owned("0.0.0.0")
}

pub fn default_port() -> (r: u16)
    ensures
        r == 3000,
{
    3000
}

pub fn default_lock_timeout_millis() -> (r: u64)
    ensures
        r == 50,
{
    50
}

pub fn default_data_dir() -> (r: String)
    ensures
        r@ == "data"@,
{
    owned("data")
}

pub fn default_queue_size() -> (r: usize)
    ensures
        r == 32,
{
    32
}

pub fn default_wait_interval_seconds() -> (r: u64)
    ensures
        r == 5,
{
    5
}

/// A fresh random signing key: 25 base-36 digits.
pub fn default_jwt_secret() -> (r: String)
    ensures
        r@.len() == 25,
        forall|i: int| 0 <= i < 25 ==> ('0' <= #[trigger] r@[i] <= '9' || 'a' <= r@[i] <= 'z'),
{
    new_id()
}

/// The issuer is the name of the program, `exe_name`.
pub fn default_jwt_issuer(exe_name: String) -> (r: String)
    ensures
        r == exe_name,
{
    exe_name
}

/// One week.
pub fn default_jwt_expires_minutes() -> (r: i64)
    ensures
        r == 60 * 24 * 7,
{
    60 * 24 * 7
}

/// The name of the program: the file stem of its executable, or `unknown`
/// when that cannot be had.
pub fn get_exe_name(file_stem: Option<String>) -> (r: String)
    ensures
        file_stem is Some ==> r == file_stem->0,
        file_stem is None ==> r@ == "unknown"@,
{
    match file_stem {
        Some(s) => s,
        None => owned(UNKNOWN_NAME),
    }
}

/// The name of the settings file.
pub const CONFIG_FILE_NAME: &'static str = "config.yaml";

/// The text of `d`, or `unknown` when it is absent.
pub open spec fn or_unknown(d: Option<String>) -> Seq<char> {
    match d {
        Some(x) => x@,
        None => "unknown"@,
    }
}

/// `base` with `part` appended, as `PathBuf::join` does on Unix: an
/// absolute `part` takes the place of `base`; otherwise a `/` goes between
/// the two unless `base` is empty or already ends with one.
pub open spec fn joined(base: Seq<char>, part: Seq<char>) -> Seq<char> {
    if part.len() > 0 && part[0] == '/' {
        part
    } else if base.len() == 0 || base.last() == '/' {
        base + part
    } else {
        base + "/"@ + part
    }
}

/// `base` with `part` appended (see `joined`).
pub fn join_path(base: &str, part: &str) -> (r: String)
    ensures
        r@ == joined(base@, part@),
{
    proof {
        reveal_strlit("/");
    }
    let p = chars_of(part);
    if p.len() > 0 && p[0] == '/' {
        return owned(part);
    }
    let b = chars_of(base);
    if b.len() == 0 || b[b.len() - 1] == '/' {
        concat_str(base, part)
    } else {
        let mut r = concat_str(base, "/");
        r.append(part);
        r
    }
}

/// The settings file in the working directory `cur_dir`, or under
/// `unknown` when that cannot be had.
pub fn get_cur_config_file(cur_dir: Option<String>) -> (r: String)
    ensures
        r@ == joined(or_unknown(cur_dir), "config.yaml"@),
{
    proof {
        reveal_strlit("unknown");
        reveal_strlit("config.yaml");
    }
    let dir = match cur_dir {
        Some(d) => d,
        None => owned(UNKNOWN_NAME),
    };
    join_path(dir.as_str(), CONFIG_FILE_NAME)
}

/// The settings file beside the executable, in its directory `exe_dir`, or
/// under `unknown` when that cannot be had.
pub fn get_exe_config_file(exe_dir: Option<String>) -> (r: String)
    ensures
        r@ == joined(or_unknown(exe_dir), "config.yaml"@),
{
    get_cur_config_file(exe_dir)
}

/// The settings file of the user: under `$XDG_CONFIG_HOME` when that is
/// set, else under `$HOME/.config` (`unknown/.config` without a home), in a
/// directory named after the program `exe_name`.
pub fn get_user_config_file(xdg_config_home: Option<String>, home: Option<String>, exe_name: &str) -> (r: String)
    ensures
        xdg_config_home matches Some(x) ==> r@ == joined(joined(x@, exe_name@), "config.yaml"@),
        xdg_config_home is None ==> r@ == joined(
            joined(joined(or_unknown(home), ".config"@), exe_name@),
            "config.yaml"@,
        ),
{
    proof {
        reveal_strlit("unknown");
        reveal_strlit("config.yaml");
        reveal_strlit(".config");
    }
    let base = match xdg_config_home {
        Some(x) => x,
        None => {
            let h = match home {
                Some(h) => h,
                None => owned(UNKNOWN_NAME),
            };
            join_path(h.as_str(), ".config")
        },
    };
    let dir = join_path(base.as_str(), exe_name);
    join_path(dir.as_str(), CONFIG_FILE_NAME)
}

/// The system-wide settings file of the program `exe_name`.
pub fn get_system_config_file(exe_name: &str) -> (r: String)
    ensures
        r@ == joined(joined("/etc"@, exe_name@), "config.yaml"@),
{
    proof {
        reveal_strlit("config.yaml");
        reveal_strlit("/etc");
    }
    let dir = join_path("/etc", exe_name);
    join_path(dir.as_str(), CONFIG_FILE_NAME)
}

/// The settings files to look at, first to last: in the working directory,
/// beside the executable, the user's, and the system-wide one.
pub fn config_files(
    cur_dir: Option<String>,
    exe_dir: Option<String>,
    xdg_config_home: Option<String>,
    home: Option<String>,
    exe_name: &str,
) -> (r: Vec<String>)
    ensures
        r@.len() == 4,
        r@[0]@ == joined(or_unknown(cur_dir), "config.yaml"@),
        r@[1]@ == joined(or_unknown(exe_dir), "config.yaml"@),
        xdg_config_home matches Some(x) ==> r@[2]@ == joined(joined(x@, exe_name@), "config.yaml"@),
        xdg_config_home is None ==> r@[2]@ == joined(
            joined(joined(or_unknown(home), ".config"@), exe_name@),
            "config.yaml"@,
        ),
        r@[3]@ == joined(joined("/etc"@, exe_name@), "config.yaml"@),
{
    let mut r: Vec<String> = Vec::new();
    r.push(get_cur_config_file(cur_dir));
    r.push(get_exe_config_file(exe_dir));
    r.push(get_user_config_file(xdg_config_home, home, exe_name));
    r.push(get_system_config_file(exe_name));
    r
}

impl ServerConfig {
    pub fn default() -> (r: ServerConfig)
        ensures
            r.host@ == "0.0.0.0"@,
            r.port == 3000,
            r.static_dir is None,
            r.cors@.len() == 0,
            r.lock_timeout_millis == 50,
    {
        ServerConfig {
            host: default_host(),
            port: default_port(),
            static_dir: None,
            cors: Vec::new(),
            lock_timeout_millis: default_lock_timeout_millis(),
        }
    }
}

impl StorageConfig {
    pub fn default() -> (r: StorageConfig)
        ensures
            r.data_dir@ == "data"@,
            r.queue_size == 32,
            r.wait_interval_seconds == 5,
    {
        StorageConfig {
            data_dir: default_data_dir(),
            queue_size: default_queue_size(),
            wait_interval_seconds: default_wait_interval_seconds(),
        }
    }
}

impl SecurityConfig {
    /// The defaults for the program `exe_name`: sign-up closed, a fresh
    /// random key, the program as issuer, and a week of validity.
    pub fn default_for(exe_name: String) -> (r: SecurityConfig)
        ensures
            !r.allow_signup,
            r.jwt_secret@.len() == 25,
            r.jwt_issuer == exe_name,
            r.jwt_expires_minutes == 60 * 24 * 7,
    {
        SecurityConfig {
            allow_signup: false,
            jwt_secret: default_jwt_secret(),
            jwt_issuer: default_jwt_issuer(exe_name),
            jwt_expires_minutes: default_jwt_expires_minutes(),
        }
    }
}

/// `v`, or `dflt` when `v` is absent.
pub open spec fn or_else<T>(v: Option<T>, dflt: T) -> T {
    match v {
        Some(x) => x,
        None => dflt,
    }
}

/// A text option that overrides only when it is given and not empty.
pub open spec fn nonempty_or(v: Option<String>, dflt: String) -> String {
    match v {
        Some(x) => if x@.len() > 0 { x } else { dflt },
        None => dflt,
    }
}

/// `v` kept within `lo..=hi`.
pub open spec fn clamp(v: int, lo: int, hi: int) -> int {
    if v < lo { lo } else if v > hi { hi } else { v }
}

/// Some origin of `cors` is the wildcard `*`.
pub open spec fn has_wildcard(cors: Seq<String>) -> bool {
    exists|i: int| 0 <= i < cors.len() && #[trigger] cors[i]@ == "*"@
}

/// The origins that the options leave: none with `no_cors`, else those of
/// the command line; any list with the wildcard becomes the wildcard alone.
pub open spec fn cors_after(cli_cors: Seq<String>, no_cors: bool) -> Seq<Seq<char>> {
    let cors = if no_cors { Seq::<String>::empty() } else { cli_cors };
    if has_wildcard(cors) { seq!["*"@] } else { cors.map_values(|s: String| s@) }
}

/// The longest validity of a session token: 180 days, in minutes.
pub open spec fn max_jwt_minutes() -> int {
    259200int
}

fn opt_or<T>(v: Option<T>, dflt: T) -> (r: T)
    ensures
        r == or_else(v, dflt),
{
    match v {
        Some(x) => x,
        None => dflt,
    }
}

fn nonempty_opt_or(v: Option<String>, dflt: String) -> (r: String)
    ensures
        r == nonempty_or(v, dflt),
{
    match v {
        Some(x) => if x.as_str().is_empty() { dflt } else { x },
        None => dflt,
    }
}

fn wildcard_in(cors: &Vec<String>) -> (b: bool)
    ensures
        b == has_wildcard(cors@),
{
    let star = "*".to_string();
    let mut i: usize = 0;
    while i < cors.len()
        invariant
            i <= cors@.len(),
            star@ == "*"@,
            forall|j: int| 0 <= j < i ==> #[trigger] cors@[j]@ != "*"@,
        decreases cors@.len() - i,
    {
        if cors[i].eq(&star) {
            return true;
        }
        i += 1;
    }
    false
}

fn clamp_u64(v: u64, lo: u64, hi: u64) -> (r: u64)
    requires
        lo <= hi,
    ensures
        r == clamp(v as int, lo as int, hi as int),
{
    if v < lo { lo } else if v > hi { hi } else { v }
}

fn clamp_usize(v: usize, lo: usize, hi: usize) -> (r: usize)
    requires
        lo <= hi,
    ensures
        r == clamp(v as int, lo as int, hi as int),
{
    if v < lo { lo } else if v > hi { hi } else { v }
}

fn clamp_i64(v: i64, lo: i64, hi: i64) -> (r: i64)
    requires
        lo <= hi,
    ensures
        r == clamp(v as int, lo as int, hi as int),
{
    if v < lo { lo } else if v > hi { hi } else { v }
}

/// The settings of `config` with the options of `cli` applied: each option
/// that is given overrides its setting; host, key and issuer only when not
/// empty; `--no-static`, `--deny-signup`, `--no-log` and `--no-cors` win
/// over their counterparts.
pub fn apply_cli(config: Config, cli: Cli) -> (r: Config)
    ensures
        r.server.host == nonempty_or(cli.host, config.server.host),
        r.server.port == or_else(cli.port, config.server.port),
        r.server.static_dir == (if cli.no_static { None } else if cli.static_dir is Some {
            cli.static_dir
        } else {
            config.server.static_dir
        }),
        r.server.cors@.map_values(|s: String| s@) == cors_after(cli.cors@, cli.no_cors),
        r.server.lock_timeout_millis == or_else(cli.lock_timeout_millis, config.server.lock_timeout_millis),
        r.storage.data_dir == or_else(cli.data_dir, config.storage.data_dir),
        r.storage.queue_size == or_else(cli.queue_size, config.storage.queue_size),
        r.storage.wait_interval_seconds == or_else(cli.wait_interval_seconds, config.storage.wait_interval_seconds),
        r.security.allow_signup == (if cli.deny_signup { false } else if cli.allow_signup { true } else {
            config.security.allow_signup
        }),
        r.security.jwt_secret == nonempty_or(cli.jwt_secret, config.security.jwt_secret),
        r.security.jwt_issuer == nonempty_or(cli.jwt_issuer, config.security.jwt_issuer),
        r.security.jwt_expires_minutes == or_else(cli.jwt_expires_minutes, config.security.jwt_expires_minutes),
        r.logging.level == (if cli.no_log { None } else if cli.log_level is Some {
            cli.log_level
        } else {
            config.logging.level
        }),
{
    let Config { server, storage, security, logging } = config;
    let ServerConfig { host, port, static_dir, cors: _, lock_timeout_millis } = server;
    let StorageConfig { data_dir, queue_size, wait_interval_seconds } = storage;
    let SecurityConfig { allow_signup, jwt_secret, jwt_issuer, jwt_expires_minutes } = security;
    let Cli {
        host: cli_host,
        port: cli_port,
        static_dir: cli_static_dir,
        cors: cli_cors,
        no_cors,
        no_static,
        lock_timeout_millis: cli_lock_timeout,
        data_dir: cli_data_dir,
        queue_size: cli_queue_size,
        wait_interval_seconds: cli_wait,
        allow_signup: cli_allow,
        deny_signup,
        jwt_secret: cli_secret,
        jwt_issuer: cli_issuer,
        jwt_expires_minutes: cli_expires,
        log_level,
        no_log,
    } = cli;
    let static_dir = if no_static {
        None
    } else if cli_static_dir.is_some() {
        cli_static_dir
    } else {
        static_dir
    };
    let mut cors = if no_cors { Vec::new() } else { cli_cors };
    let ghost picked = cors@;
    if wildcard_in(&cors) {
        cors = Vec::new();
        cors.push("*".to_string());
        assert(cors@.map_values(|s: String| s@) =~= seq!["*"@]);
    } else {
        assert(cors@.map_values(|s: String| s@) =~= picked.map_values(|s: String| s@));
    }
    let allow_signup = if deny_signup { false } else if cli_allow { true } else { allow_signup };
    let level = if no_log {
        None
    } else if log_level.is_some() {
        log_level
    } else {
        logging.level
    };
    Config {
        server: ServerConfig {
            host: nonempty_opt_or(cli_host, host),
            port: opt_or(cli_port, port),
            static_dir,
            cors,
            lock_timeout_millis: opt_or(cli_lock_timeout, lock_timeout_millis),
        },
        storage: StorageConfig {
            data_dir: opt_or(cli_data_dir, data_dir),
            queue_size: opt_or(cli_queue_size, queue_size),
            wait_interval_seconds: opt_or(cli_wait, wait_interval_seconds),
        },
        security: SecurityConfig {
            allow_signup,
            jwt_secret: nonempty_opt_or(cli_secret, jwt_secret),
            jwt_issuer: nonempty_opt_or(cli_issuer, jwt_issuer),
            jwt_expires_minutes: opt_or(cli_expires, jwt_expires_minutes),
        },
        logging: LoggingConfig { level },
    }
}

/// Checks the settings after the options are applied and keeps each number
/// within its bounds: the session validity within 1 minute to 180 days,
/// the lock timeout within 1 to 1000 ms, the write queue within 3 to 128
/// entries, and the write delay within 1 to 300 s. A static directory that
/// is not a directory is dropped. `data_dir_writeable` and
/// `static_dir_is_dir` are what the file system says of the two paths.
pub fn normalize(config: Config, data_dir_writeable: bool, static_dir_is_dir: bool) -> (r: Result<Config, ConfigError>)
    ensures
        !data_dir_writeable ==> (r matches Err(ConfigError::DataDirNotWriteable(d)) && d == config.storage.data_dir),
        data_dir_writeable ==> (r matches Ok(c) && {
            &&& c.server.host == config.server.host
            &&& c.server.port == config.server.port
            &&& c.server.static_dir == (if static_dir_is_dir { config.server.static_dir } else { None })
            &&& c.server.cors == config.server.cors
            &&& c.server.lock_timeout_millis == clamp(config.server.lock_timeout_millis as int, 1, 1000)
            &&& c.storage.data_dir == config.storage.data_dir
            &&& c.storage.queue_size == clamp(config.storage.queue_size as int, 3, 128)
            &&& c.storage.wait_interval_seconds == clamp(config.storage.wait_interval_seconds as int, 1, 300)
            &&& c.security.allow_signup == config.security.allow_signup
            &&& c.security.jwt_secret == config.security.jwt_secret
            &&& c.security.jwt_issuer == config.security.jwt_issuer
            &&& c.security.jwt_expires_minutes == clamp(config.security.jwt_expires_minutes as int, 1, max_jwt_minutes())
            &&& c.logging.level == config.logging.level
        }),
{
    if !data_dir_writeable {
        return Err(ConfigError::DataDirNotWriteable(config.storage.data_dir));
    }
    let Config { server, storage, security, logging } = config;
    let static_dir = if static_dir_is_dir { server.static_dir } else { None };
    Ok(Config {
        server: ServerConfig {
            host: server.host,
            port: server.port,
            static_dir,
            cors: server.cors,
            lock_timeout_millis: clamp_u64(server.lock_timeout_millis, 1, 1000),
        },
        storage: StorageConfig {
            data_dir: storage.data_dir,
            queue_size: clamp_usize(storage.queue_size, 3, 128),
            wait_interval_seconds: clamp_u64(storage.wait_interval_seconds, 1, 300),
        },
        security: SecurityConfig {
            allow_signup: security.allow_signup,
            jwt_secret: security.jwt_secret,
            jwt_issuer: security.jwt_issuer,
            jwt_expires_minutes: clamp_i64(security.jwt_expires_minutes, 1, 60 * 24 * 180),
        },
        logging,
    })
}

/// `i` is the position of the first `=` in `a`.
pub open spec fn is_first_eq(a: Seq<char>, i: int) -> bool {
    &&& 0 <= i < a.len()
    &&& a[i] == '='
    &&& forall|j: int| 0 <= j < i ==> a[j] != '='
}

/// A command-line argument as the option parser sees it: an option written
/// `-key=value` or `--key=value` becomes the key and the value, split at
/// the first `=`; any other argument stays as it is.
pub open spec fn split_arg(a: Seq<char>) -> Seq<Seq<char>> {
    if a.len() > 0 && a[0] == '-' && exists|i: int| is_first_eq(a, i) {
        let i = choose|i: int| is_first_eq(a, i);
        seq![a.take(i), a.skip(i + 1)]
    } else {
        seq![a]
    }
}

/// All arguments split as `split_arg` says, in order.
pub open spec fn split_args(args: Seq<Seq<char>>) -> Seq<Seq<char>>
    decreases args.len(),
{
    if args.len() == 0 {
        Seq::empty()
    } else {
        split_args(args.drop_last()) + split_arg(args.last())
    }
}

/// The position of the first `c` in `s`, if there is one.
fn find_char(s: &str, c: char) -> (r: Option<usize>)
    ensures
        r matches Some(i) ==> i < s@.len() && s@[i as int] == c && forall|j: int| 0 <= j < i ==> s@[j] != c,
        r is None ==> forall|j: int| 0 <= j < s@.len() ==> s@[j] != c,
{
    let n = s.unicode_len();
    let mut k: usize = 0;
    for d in it: s.chars()
        invariant
            it.seq() == s@,
            n == s@.len(),
            k == it.index(),
            forall|j: int| 0 <= j < it.index() ==> s@[j] != c,
    {
        assert(d == s@[it.index() as int]);
        if d == c {
            return Some(k);
        }
        k += 1;
    }
    None
}

/// Splits one argument as `split_arg` says.
fn split_one(a: String, out: &mut Vec<String>)
    ensures
        final(out)@.map_values(|s: String| s@) == old(out)@.map_values(|s: String| s@) + split_arg(a@),
{
    let ghost before = out@.map_values(|s: String| s@);
    let first = find_char(a.as_str(), '-');
    let starts_with_dash = match first {
        Some(i) => i == 0,
        None => false,
    };
    if starts_with_dash {
        match find_char(a.as_str(), '=') {
            Some(i) => {
                proof {
                    assert(is_first_eq(a@, i as int));
                    assert forall|x: int| is_first_eq(a@, x) implies x == i as int by {
                        if x < i {
                            assert(a@[x] != '=');
                        } else if x > i {
                            assert(a@[i as int] != '=');
                        }
                    }
                }
                let n = a.as_str().unicode_len();
                let key = a.as_str().substring_char(0, i);
                let value = a.as_str().substring_char(i + 1, n);
                out.push(key.to_string());
                out.push(value.to_string());
                assert(a@.take(i as int) =~= a@.subrange(0, i as int));
                assert(a@.skip(i as int + 1) =~= a@.subrange(i as int + 1, n as int));
                assert(out@.map_values(|s: String| s@) =~= before + split_arg(a@));
                return;
            },
            None => {},
        }
    }
    out.push(a);
    assert(out@.map_values(|s: String| s@) =~= before + split_arg(out@.last()@));
}

/// The arguments with every option written `--key=value` split into the key
/// and the value, as the option parser expects them.
pub fn split_cli_args(args: Vec<String>) -> (r: Vec<String>)
    ensures
        r@.map_values(|s: String| s@) == split_args(args@.map_values(|s: String| s@)),
{
    let ghost all = args@.map_values(|s: String| s@);
    let mut out: Vec<String> = Vec::new();
    let mut i: usize = 0;
    assert(out@.map_values(|s: String| s@) =~= split_args(all.take(0)));
    while i < args.len()
        invariant
            i <= args@.len(),
            all == args@.map_values(|s: String| s@),
            out@.map_values(|s: String| s@) == split_args(all.take(i as int)),
        decreases args@.len() - i,
    {
        assert(all.take(i as int + 1).drop_last() =~= all.take(i as int));
        split_one(args[i].clone(), &mut out);
        i += 1;
    }
    assert(all.take(args@.len() as int) =~= all);
    out
}

} // verus!
