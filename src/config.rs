//! Daemon configuration: defaults, validation and environment overrides.

use vstd::prelude::*;
use crate::text::{chars_of, decimal, decimal_string};

verus! {

#[derive(Clone, Copy, Debug, PartialEq, Eq, Structural)]
pub enum LogFormat {
    Json,
    Pretty,
}

/// A listening address: a host (an IP address in text form) and a port.
#[derive(Clone, Debug)]
pub struct BindAddr {
    pub host: String,
    pub port: u16,
}

/// `host:port`, with an IPv6 host in brackets.
pub open spec fn bind_text(host: Seq<char>, port: u16) -> Seq<char> {
    if host.contains(':') {
        "["@ + host + "]:"@ + decimal(port as nat)
    } else {
        host + ":"@ + decimal(port as nat)
    }
}

fn has_colon(s: &str) -> (r: bool)
    ensures
        r == s@.contains(':'),
{
    let v = chars_of(s);
    let mut i: usize = 0;
    while i < v.len()
        invariant
            v@ == s@,
            i <= v.len(),
            forall|k: int| 0 <= k < i ==> v@[k] != ':',
        decreases v.len() - i,
    {
        if v[i] == ':' {
            return true;
        }
        i = i + 1;
    }
    false
}

impl BindAddr {
    pub fn port(&self) -> (r: u16)
        ensures
            r == self.port,
    {
        self.port
    }

    /// The address in the form a socket address is written.
    pub fn to_text(&self) -> (r: String)
        ensures
            r@ == bind_text(self.host@, self.port),
    {
        let mut r = if has_colon(self.host.as_str()) {
            let mut r = String::from_str("[");
            r.append(self.host.as_str());
            r.append("]:");
            r
        } else {
            let mut r = self.host.clone();
            r.append(":");
            r
        };
        r.append(decimal_string(self.port as u64).as_str());
        r
    }
}

/// Settings of the relay server. Durations are in milliseconds.
#[derive(Clone, Debug)]
pub struct ServerConfig {
    pub bind_addr: BindAddr,
    pub require_sink: bool,
    pub supersede_on_register: bool,
    pub max_job_bytes: usize,
    pub websocket_ping_interval_ms: u64,
    pub websocket_pong_timeout_ms: u64,
    pub websocket_max_missed_pings: u32,
    pub dispatch_timeout_ms: u64,
}

impl Default for ServerConfig {
    /// Listens on 127.0.0.1:8787, accepts jobs without a sink, lets a new sink
    /// supersede the old one, caps jobs at 128 KiB, pings every 15 s, waits 10 s
    /// for a pong, drops the sink after 3 missed pings, and waits 30 s for an ack.
    fn default() -> (r: Self)
        ensures
            r.bind_addr.host@ == "127.0.0.1"@,
            r.bind_addr.port == 8787,
            !r.require_sink,
            r.supersede_on_register,
            r.max_job_bytes == 128 * 1024,
            r.websocket_ping_interval_ms == 15_000,
            r.websocket_pong_timeout_ms == 10_000,
            r.websocket_max_missed_pings == 3,
            r.dispatch_timeout_ms == 30_000,
    {
        ServerConfig {
            bind_addr: BindAddr { host: String::from_str("127.0.0.1"), port: 8787 },
            require_sink: false,
            supersede_on_register: true,
            max_job_bytes: 128 * 1024,
            websocket_ping_interval_ms: 15_000,
            websocket_pong_timeout_ms: 10_000,
            websocket_max_missed_pings: 3,
            dispatch_timeout_ms: 30_000,
        }
    }
}

/// The whole daemon configuration.
#[derive(Clone, Debug)]
pub struct AppConfig {
    pub server: ServerConfig,
    pub log_level: String,
    pub log_format: LogFormat,
}

/// Why a configuration was refused.
#[derive(Clone, Debug)]
pub enum ConfigError {
    Message(String),
}

/// Overrides read from the environment.
#[derive(Clone, Debug)]
pub struct EnvConfig {
    pub server_bind_addr: Option<BindAddr>,
    pub log_level: Option<String>,
    pub log_format: Option<LogFormat>,
}

impl Default for AppConfig {
    /// The server defaults, log level `info`, pretty log lines.
    fn default() -> (r: Self)
        ensures
            r.server.bind_addr.host@ == "127.0.0.1"@,
            r.server.bind_addr.port == 8787,
            r.server.max_job_bytes == 128 * 1024,
            r.server.websocket_max_missed_pings == 3,
            r.log_level@ == "info"@,
            r.log_format == LogFormat::Pretty,
    {
        AppConfig {
            server: ServerConfig::default(),
            log_level: String::from_str("info"),
            log_format: LogFormat::Pretty,
        }
    }
}

impl AppConfig {
    /// Refuses a zero job-size cap and a zero missed-ping limit.
    pub fn validate(&self) -> (r: Result<(), ConfigError>)
        ensures
            r is Ok <==> self.server.max_job_bytes > 0 && self.server.websocket_max_missed_pings > 0,
            r matches Err(ConfigError::Message(m)) ==> (if self.server.max_job_bytes == 0 {
                m@ == "max_job_bytes must be greater than 0"@
            } else {
                m@ == "websocket_max_missed_pings must be greater than 0"@
            }),
    {
        if self.server.max_job_bytes == 0 {
            return Err(ConfigError::Message(String::from_str("max_job_bytes must be greater than 0")));
        }
        if self.server.websocket_max_missed_pings == 0 {
            return Err(
                ConfigError::Message(String::from_str("websocket_max_missed_pings must be greater than 0")),
            );
        }
        Ok(())
    }

    /// Lays the values found in the environment over this configuration.
    pub fn apply_env_overrides(&mut self, e: EnvConfig)
        ensures
            final(self).server.bind_addr == (match e.server_bind_addr {
                Some(v) => v,
                None => old(self).server.bind_addr,
            }),
            final(self).log_level == (match e.log_level {
                Some(v) => v,
                None => old(self).log_level,
            }),
            final(self).log_format == (match e.log_format {
                Some(v) => v,
                None => old(self).log_format,
            }),
            final(self).server.require_sink == old(self).server.require_sink,
            final(self).server.supersede_on_register == old(self).server.supersede_on_register,
            final(self).server.max_job_bytes == old(self).server.max_job_bytes,
            final(self).server.websocket_ping_interval_ms == old(self).server.websocket_ping_interval_ms,
            final(self).server.websocket_pong_timeout_ms == old(self).server.websocket_pong_timeout_ms,
            final(self).server.websocket_max_missed_pings == old(self).server.websocket_max_missed_pings,
            final(self).server.dispatch_timeout_ms == old(self).server.dispatch_timeout_ms,
    {
        if let Some(v) = e.server_bind_addr {
            self.server.bind_addr = v;
        }
        if let Some(v) = e.log_level {
            self.log_level = v;
        }
        if let Some(v) = e.log_format {
            self.log_format = v;
        }
    }
}

} // verus!
