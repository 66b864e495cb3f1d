//! Start-up settings: where the server listens and how much it logs.
use crate::text::{decimal_string, decimal_text};
use vstd::prelude::*;

verus! {

/// How verbose the server's logs are.
#[derive(Clone, Copy, Debug, PartialEq, Eq, Structural)]
pub enum LogLevel {
    Info,
    Debug,
    Trace,
}

/// The level chosen by how many times the verbosity flag was given.
pub open spec fn level_for(verbosity: u8) -> LogLevel {
    if verbosity == 0 {
        LogLevel::Info
    } else if verbosity == 1 {
        LogLevel::Debug
    } else {
        LogLevel::Trace
    }
}

/// The upper-case name under which the logging framework knows a level.
pub open spec fn level_name(level: LogLevel) -> Seq<char> {
    match level {
        LogLevel::Info => "INFO"@,
        LogLevel::Debug => "DEBUG"@,
        LogLevel::Trace => "TRACE"@,
    }
}

/// A crate name as a log target: each `-` becomes `_`.
pub open spec fn log_target(name: Seq<char>) -> Seq<char> {
    Seq::new(name.len(), |i: int| if name[i] == '-' { '_' } else { name[i] })
}

/// The default log filter: the server's own crate at the chosen level, the
/// HTTP middleware at debug and request rejections at trace.
pub open spec fn filter_directive(name: Seq<char>, level: LogLevel) -> Seq<char> {
    log_target(name) + "="@ + level_name(level) + ",tower_http=debug,axum::rejection=trace"@
}

/// How many requests one client may make at once before it must wait.
pub const RATE_LIMIT_BURST: u32 = 5;

/// The seconds after which one more request is allowed to a client.
pub const RATE_LIMIT_REPLENISH_SECONDS: u64 = 20;

/// The one origin that cross-origin requests may come from.
pub const ALLOWED_ORIGIN: &'static str = "http://localhost:3000";

/// The resolved start-up settings of the server.
#[derive(Clone, Debug)]
pub struct ServerConfig {
    pub address: String,
    pub port: u32,
    pub log_level: LogLevel,
}

/// The level chosen by how many times the verbosity flag was given:
/// none for info, one for debug, more for trace.
pub fn log_level_for(verbosity: u8) -> (r: LogLevel)
    ensures
        r == level_for(verbosity),
{
    if verbosity == 0 {
        LogLevel::Info
    } else if verbosity == 1 {
        LogLevel::Debug
    } else {
        LogLevel::Trace
    }
}

/// Resolves the parsed command-line values into the server's settings.
pub fn handle_startup_commands(address: String, port: u32, verbosity: u8) -> (r: ServerConfig)
    ensures
        r.address@ == address@,
        r.port == port,
        r.log_level == level_for(verbosity),
{
    ServerConfig { address, port, log_level: log_level_for(verbosity) }
}

impl ServerConfig {
    /// The text of the port, in decimal.
    pub fn port_text(&self) -> (r: String)
        ensures
            r@ == decimal_text(self.port as nat),
    {
        decimal_string(self.port)
    }

    /// The socket address to bind, `address:port`.
    pub fn bind_address(&self) -> (r: String)
        ensures
            r@ == self.address@ + ":"@ + decimal_text(self.port as nat),
    {
        let mut r = self.address.clone();
        r.append(":");
        let port = decimal_string(self.port);
        r.append(port.as_str());
        r
    }
}

/// Relies on tracing::Level::as_str, which names each level in upper case.
#[verifier::external_body]
fn level_str(level: LogLevel) -> (r: &'static str)
    ensures
        r@ == level_name(level),
{
    let level = match level {
        LogLevel::Info => tracing::Level::INFO,
        LogLevel::Debug => tracing::Level::DEBUG,
        LogLevel::Trace => tracing::Level::TRACE,
    };
    level.as_str()
}

/// The upper-case name of a level, as the logs print it.
pub fn level_label(level: LogLevel) -> (r: String)
    ensures
        r@ == level_name(level),
{
    String::from_str(level_str(level))
}

/// The default log filter for the crate called `name` at `level`.
pub fn tracing_directive(name: &str, level: LogLevel) -> (r: String)
    ensures
        r@ == filter_directive(name@, level),
{
    let n = name.unicode_len();
    let mut r = String::new();
    let mut i: usize = 0;
    while i < n
        invariant
            n == name@.len(),
            i <= n,
            r@ == log_target(name@).subrange(0, i as int),
        decreases n - i,
    {
        let c = name.get_char(i);
        if c == '-' {
            r.append("_");
        } else {
            r.append(name.substring_char(i, i + 1));
        }
        proof {
            reveal_strlit("_");
            assert(log_target(name@).subrange(0, i + 1) =~= log_target(name@).subrange(
                0,
                i as int,
            ).push(log_target(name@)[i as int]));
        }
        assert(r@ =~= log_target(name@).subrange(0, i + 1));
        i = i + 1;
    }
    assert(r@ =~= log_target(name@));
    r.append("=");
    r.append(level_str(level));
    r.append(",tower_http=debug,axum::rejection=trace");
    r
}

} // verus!
