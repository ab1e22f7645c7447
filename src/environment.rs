//! The environment the sidecar is started with.
//!
//! The child learns its parent's process id (so that it can notice being
//! orphaned), where to bind, how verbosely to log, and where to write its log
//! file. Values the hosting environment already supplies for the log level and
//! the log path are passed through unchanged.

use vstd::prelude::*;
use vstd::string::*;

verus! {

/// The decimal digits of `n`, most significant first, without leading zeros.
pub open spec fn decimal(n: nat) -> Seq<char>
    decreases n,
{
    if n < 10 {
        seq!["0123456789"@[n as int]]
    } else {
        decimal(n / 10).push("0123456789"@[(n % 10) as int])
    }
}

/// Writes `n` in decimal.
pub fn decimal_string(n: u32) -> (s: String)
    ensures
        s@ == decimal(n as nat),
    decreases n,
{
    let digits = "0123456789";
    proof {
        reveal_strlit("0123456789");
    }
    let d = (n % 10) as usize;
    let last = digits.substring_char(d, d + 1);
    assert(last@ =~= seq![digits@[d as int]]);
    if n < 10 {
        String::from_str(last)
    } else {
        let mut s = decimal_string(n / 10);
        s.append(last);
        assert(s@ =~= decimal(n as nat));
        s
    }
}

/// One variable of the child's environment.
pub struct EnvVar {
    pub name: String,
    pub value: String,
}

impl View for EnvVar {
    type V = (Seq<char>, Seq<char>);

    open spec fn view(&self) -> (Seq<char>, Seq<char>) {
        (self.name@, self.value@)
    }
}

/// The environment as name/value pairs, in order.
pub open spec fn env_view(vars: Seq<EnvVar>) -> Seq<(Seq<char>, Seq<char>)> {
    vars.map_values(|v: EnvVar| v@)
}

pub open spec fn parent_pid_var() -> Seq<char> {
    "TIPTUNE_PARENT_PID"@
}

pub open spec fn web_host_var() -> Seq<char> {
    "TIPTUNE_WEB_HOST"@
}

pub open spec fn web_port_var() -> Seq<char> {
    "TIPTUNE_WEB_PORT"@
}

pub open spec fn log_level_var() -> Seq<char> {
    "TIPTUNE_LOG_LEVEL"@
}

pub open spec fn log_path_var() -> Seq<char> {
    "TIPTUNE_DEFAULT_LOG_PATH"@
}

/// The host the child's web server binds to.
pub open spec fn web_host() -> Seq<char> {
    "127.0.0.1"@
}

/// The port the child's web server binds to.
pub open spec fn web_port() -> Seq<char> {
    "8765"@
}

/// The log level used when the hosting environment sets none.
pub open spec fn default_log_level() -> Seq<char> {
    "INFO"@
}

/// The log file placed in the application-data directory `dir`.
pub open spec fn log_file_in(dir: Seq<char>) -> Seq<char> {
    dir + "/tiptune-sidecar.log"@
}

/// The child's environment. `level` and `log_path` are the values the hosting
/// environment already supplies; `log_dir` is the application-data directory,
/// when it could be resolved and created.
pub open spec fn sidecar_env(
    pid: u32,
    level: Option<Seq<char>>,
    log_path: Option<Seq<char>>,
    log_dir: Option<Seq<char>>,
) -> Seq<(Seq<char>, Seq<char>)> {
    let level_value = match level {
        Some(l) => l,
        None => default_log_level(),
    };
    let base = seq![
        (parent_pid_var(), decimal(pid as nat)),
        (web_host_var(), web_host()),
        (web_port_var(), web_port()),
        (log_level_var(), level_value),
    ];
    match log_path {
        Some(p) => base.push((log_path_var(), p)),
        None => match log_dir {
            Some(d) => base.push((log_path_var(), log_file_in(d))),
            None => base,
        },
    }
}

fn env_var(name: &str, value: String) -> (v: EnvVar)
    ensures
        v@ == (name@, value@),
{
    EnvVar { name: String::from_str(name), value }
}

/// Builds the environment the sidecar is started with, in this order: the
/// parent's process id, the bind host and port, the log level, and the log
/// file path where one is supplied or can be derived from `log_dir`.
pub fn build_sidecar_env(
    parent_pid: u32,
    log_level_override: Option<String>,
    log_path_override: Option<String>,
    log_dir: Option<String>,
) -> (vars: Vec<EnvVar>)
    ensures
        env_view(vars@) == sidecar_env(
            parent_pid,
            log_level_override.deep_view(),
            log_path_override.deep_view(),
            log_dir.deep_view(),
        ),
{
    let mut vars: Vec<EnvVar> = Vec::new();
    vars.push(env_var("TIPTUNE_PARENT_PID", decimal_string(parent_pid)));
    vars.push(env_var("TIPTUNE_WEB_HOST", String::from_str("127.0.0.1")));
    vars.push(env_var("TIPTUNE_WEB_PORT", String::from_str("8765")));
    let level = match log_level_override {
        Some(l) => l,
        None => String::from_str("INFO"),
    };
    vars.push(env_var("TIPTUNE_LOG_LEVEL", level));
    match log_path_override {
        Some(p) => {
            vars.push(env_var("TIPTUNE_DEFAULT_LOG_PATH", p));
        },
        None => match log_dir {
            Some(d) => {
                let path = d.concat("/tiptune-sidecar.log");
                vars.push(env_var("TIPTUNE_DEFAULT_LOG_PATH", path));
            },
            None => {},
        },
    }
    assert(env_view(vars@) =~= sidecar_env(
        parent_pid,
        log_level_override.deep_view(),
        log_path_override.deep_view(),
        log_dir.deep_view(),
    ));
    vars
}

/// The log level the child sees: the value the hosting environment supplies,
/// unchanged, or `INFO` when it supplies none. No other entry names the level.
pub proof fn lemma_log_level_passed_or_defaulted(
    pid: u32,
    level: Option<Seq<char>>,
    log_path: Option<Seq<char>>,
    log_dir: Option<Seq<char>>,
)
    ensures
        ({
            let env = sidecar_env(pid, level, log_path, log_dir);
            let expected = match level {
                Some(l) => l,
                None => "INFO"@,
            };
            &&& env.contains((log_level_var(), expected))
            &&& forall|i: int|
                0 <= i < env.len() && (#[trigger] env[i]).0 == log_level_var() ==> env[i].1
                    == expected
        }),
{
    reveal_strlit("TIPTUNE_PARENT_PID");
    reveal_strlit("TIPTUNE_WEB_HOST");
    reveal_strlit("TIPTUNE_WEB_PORT");
    reveal_strlit("TIPTUNE_LOG_LEVEL");
    reveal_strlit("TIPTUNE_DEFAULT_LOG_PATH");
    let env = sidecar_env(pid, level, log_path, log_dir);
    assert(env[3].0 == log_level_var());
}

/// The log path the child sees: the value the hosting environment supplies,
/// unchanged and with no derived path beside it; else the fixed log file in
/// the application-data directory, when there is one; else none at all.
pub proof fn lemma_log_path_passed_or_derived(
    pid: u32,
    level: Option<Seq<char>>,
    log_path: Option<Seq<char>>,
    log_dir: Option<Seq<char>>,
)
    ensures
        ({
            let env = sidecar_env(pid, level, log_path, log_dir);
            let expected = match log_path {
                Some(p) => Some(p),
                None => match log_dir {
                    Some(d) => Some(d + "/tiptune-sidecar.log"@),
                    None => None,
                },
            };
            &&& expected matches Some(p) ==> env.contains((log_path_var(), p))
            &&& forall|i: int|
                0 <= i < env.len() && (#[trigger] env[i]).0 == log_path_var() ==> expected
                    == Some(env[i].1)
        }),
{
    reveal_strlit("TIPTUNE_PARENT_PID");
    reveal_strlit("TIPTUNE_WEB_HOST");
    reveal_strlit("TIPTUNE_WEB_PORT");
    reveal_strlit("TIPTUNE_LOG_LEVEL");
    reveal_strlit("TIPTUNE_DEFAULT_LOG_PATH");
    let env = sidecar_env(pid, level, log_path, log_dir);
    assert(env[0].0.len() != log_path_var().len());
    assert(env[1].0.len() != log_path_var().len());
    assert(env[2].0.len() != log_path_var().len());
    assert(env[3].0.len() != log_path_var().len());
    if env.len() == 5 {
        assert(env[4].0 == log_path_var());
    }
}

} // verus!
