//! How the embedded HTTP server is configured: from the arguments the JVM
//! passes to `Native.start` and `Native.stop`, and for the standalone runner.
use vstd::prelude::*;
use vstd::string::*;

verus! {

/// The settings the HTTP server is built with.
///
/// A setting that is `None` (or `false`) leaves the server's own default in
/// place.
#[derive(Clone, Debug, PartialEq, Eq)]
pub struct ServerConfig {
    /// Name of the actor system that runs the server.
    pub system_name: String,
    /// Address the server listens on.
    pub bind: String,
    /// Host name the server reports, if one is set.
    pub hostname: Option<String>,
    /// Number of worker threads.
    pub workers: Option<usize>,
    /// Maximum number of pending connections.
    pub backlog: Option<i32>,
    /// Stop the actor system when the server stops.
    pub system_exit: bool,
    /// Ignore process signals.
    pub disable_signals: bool,
    /// Seconds that a graceful shutdown may take.
    pub shutdown_timeout: Option<u16>,
    /// Serve HTTP/1 only.
    pub no_http2: bool,
}

/// A request to stop a running server.
#[derive(Clone, Copy, PartialEq, Eq, Debug)]
pub struct StopRequest {
    /// Let running requests finish.
    pub graceful: bool,
    /// Block until the server has stopped.
    pub wait: bool,
}

/// The actor system's name when the JVM passes none that can be read.
pub open spec fn default_system_name() -> Seq<char> {
    "mojo"@
}

/// The listening address when the JVM passes none that can be read.
pub open spec fn default_bind() -> Seq<char> {
    "localhost:8000"@
}

/// A string argument as read from the JVM, or `default` where it could not be
/// read.
pub open spec fn or_default(read: Option<String>, default: Seq<char>) -> Seq<char> {
    match read {
        Some(s) => s@,
        None => default,
    }
}

/// A Java `int` flag: set when positive.
pub open spec fn flag(v: i32) -> bool {
    v > 0
}

fn string_or(read: Option<String>, default: &str) -> (r: String)
    ensures
        r@ == or_default(read, default@),
{
    match read {
        Some(s) => s,
        None => String::from_str(default),
    }
}

impl ServerConfig {
    /// The configuration that `Native.start` asks for.
    ///
    /// `system_name`, `bind` and `hostname` are the string arguments as read
    /// from the JVM, `None` where reading failed. A failed name falls back to
    /// `"mojo"`, a failed address to `"localhost:8000"`, a failed host name to
    /// none. Each numeric argument takes effect only when it is positive; the
    /// shutdown timeout is cut to its low 16 bits, as a cast to
    /// `u16` does.
    pub fn from_native_args(
        system_name: Option<String>,
        bind: Option<String>,
        hostname: Option<String>,
        workers: i32,
        backlog: i32,
        system_exit: i32,
        disable_signals: i32,
        shutdown_timeout: i32,
        no_http2: i32,
    ) -> (c: ServerConfig)
        ensures
            c.system_name@ == or_default(system_name, default_system_name()),
            c.bind@ == or_default(bind, default_bind()),
            c.hostname == hostname,
            c.workers == (if flag(workers) { Some(workers as usize) } else { None::<usize> }),
            c.backlog == (if flag(backlog) { Some(backlog) } else { None::<i32> }),
            c.system_exit == flag(system_exit),
            c.disable_signals == flag(disable_signals),
            c.shutdown_timeout == (if flag(shutdown_timeout) {
                Some((shutdown_timeout % 0x10000) as u16)
            } else {
                None::<u16>
            }),
            c.no_http2 == flag(no_http2),
    {
        let system_name = string_or(system_name, "mojo");
        let bind = string_or(bind, "localhost:8000");
        proof {
            reveal_strlit("mojo");
            reveal_strlit("localhost:8000");
        }
        ServerConfig {
            system_name,
            bind,
            hostname,
            workers: if workers > 0 { Some(workers as usize) } else { None },
            backlog: if backlog > 0 { Some(backlog) } else { None },
            system_exit: system_exit > 0,
            disable_signals: disable_signals > 0,
            shutdown_timeout: if shutdown_timeout > 0 {
                let t: u32 = shutdown_timeout as u32;
                Some((t % 0x10000) as u16)
            } else {
                None
            },
            no_http2: no_http2 > 0,
        }
    }

    /// The configuration of the standalone runner: two workers listening on
    /// `"localhost:8000"` in the actor system `"mojo"`, everything else left
    /// at the server's defaults.
    pub fn standalone() -> (c: ServerConfig)
        ensures
            c.system_name@ == default_system_name(),
            c.bind@ == default_bind(),
            c.hostname is None,
            c.workers == Some(2usize),
            c.backlog is None,
            !c.system_exit,
            !c.disable_signals,
            c.shutdown_timeout is None,
            !c.no_http2,
    {
        proof {
            reveal_strlit("mojo");
            reveal_strlit("localhost:8000");
        }
        ServerConfig {
            system_name: String::from_str("mojo"),
            bind: String::from_str("localhost:8000"),
            hostname: None,
            workers: Some(2),
            backlog: None,
            system_exit: false,
            disable_signals: false,
            shutdown_timeout: None,
            no_http2: false,
        }
    }
}

impl StopRequest {
    /// The stop request that `Native.stop` asks for: each Java `int` flag is
    /// set when positive.
    pub fn from_native_args(graceful: i32, wait: i32) -> (r: StopRequest)
        ensures
            r.graceful == flag(graceful),
            r.wait == flag(wait),
    {
        StopRequest { graceful: graceful > 0, wait: wait > 0 }
    }
}

} // verus!
