//! Operator configuration: the beacon network presets and how they resolve.

use std::time::Duration;

use vstd::prelude::*;

use crate::text;

verus! {

/// Beacon network.
#[derive(Debug, Clone, Copy, PartialEq, Eq, Structural)]
pub enum Network {
    Mainnet,
    Hoodi,
    Sepolia,
    Holesky,
    /// Private / custom beacon chain. Requires an explicit genesis time and slot length.
    Custom,
}

impl Network {
    /// The Unix time of the network's beacon genesis.
    pub open spec fn genesis(self) -> Option<u64> {
        match self {
            Network::Mainnet => Some(1_606_824_023),
            Network::Hoodi => Some(1_742_213_400),
            Network::Sepolia => Some(1_655_733_600),
            Network::Holesky => Some(1_695_902_400),
            Network::Custom => None,
        }
    }

    /// The length of the network's slots in seconds.
    pub open spec fn slot_secs(self) -> Option<u64> {
        if self is Custom {
            None
        } else {
            Some(12)
        }
    }

    pub fn preset_genesis_time(self) -> (r: Option<u64>)
        ensures
            r == self.genesis(),
    {
        match self {
            Network::Mainnet => Some(1_606_824_023),
            Network::Hoodi => Some(1_742_213_400),
            Network::Sepolia => Some(1_655_733_600),
            Network::Holesky => Some(1_695_902_400),
            Network::Custom => None,
        }
    }

    pub fn preset_seconds_per_slot(self) -> (r: Option<u64>)
        ensures
            r == self.slot_secs(),
    {
        match self {
            Network::Custom => None,
            _ => Some(12),
        }
    }
}

/// Verbosity of the application log.
#[derive(Debug, Clone, Copy, PartialEq, Eq, Structural)]
pub enum LogLevel {
    Trace,
    Debug,
    Info,
    Warn,
    Error,
}

impl LogLevel {
    /// The level's name in a filter directive.
    pub open spec fn name(self) -> Seq<char> {
        match self {
            LogLevel::Trace => "trace"@,
            LogLevel::Debug => "debug"@,
            LogLevel::Info => "info"@,
            LogLevel::Warn => "warn"@,
            LogLevel::Error => "error"@,
        }
    }

    pub fn as_str(self) -> (r: &'static str)
        ensures
            r@ == self.name(),
    {
        match self {
            LogLevel::Trace => "trace",
            LogLevel::Debug => "debug",
            LogLevel::Info => "info",
            LogLevel::Warn => "warn",
            LogLevel::Error => "error",
        }
    }
}

/// Everything an operator can set.
#[derive(Debug)]
pub struct Config {
    /// Listen addresses (host:port). All of them serve the same routes.
    pub listen: Vec<String>,
    /// Execution-layer JSON-RPC over HTTP upstream URL.
    pub el_http_url: String,
    /// Execution-layer JSON-RPC over WebSocket upstream URL.
    pub el_ws_url: String,
    /// Consensus-layer Beacon API upstream URL.
    pub cl_beacon_url: String,
    /// Selects the defaults for the genesis time and the slot length.
    pub network: Network,
    /// Maximum EL block age (seconds) that strict readiness accepts.
    pub el_max_block_age_secs: u64,
    /// Maximum CL head-slot age (seconds, wall-clock) that strict readiness accepts.
    pub cl_max_slot_age_secs: u64,
    /// Also gate readiness on EL block / CL slot freshness, not just sync status.
    pub readyz_strict: bool,
    /// Beacon genesis Unix time. Overrides the network preset; 0 disables the slot-age check.
    pub cl_genesis_time: Option<u64>,
    /// Seconds per slot. Overrides the network preset.
    pub cl_seconds_per_slot: Option<u64>,
    /// Upstream timeout for one health probe.
    pub health_timeout: Duration,
    /// Pause between two health polls.
    pub health_poll_interval: Duration,
    /// Upstream timeout for a proxied request.
    pub proxy_timeout: Duration,
    /// How long in-flight connections may drain on shutdown.
    pub shutdown_grace: Duration,
    /// Level of the application log.
    pub log_level: LogLevel,
    /// Whether the per-connection access log is on.
    pub access_log: bool,
    /// Trusted-upstream mode. Readiness is judged as it is without it.
    pub trust_upstream: bool,
    /// OTLP collector endpoint; telemetry export is off without one.
    pub otel_endpoint: Option<String>,
}

impl Default for Config {
    fn default() -> (cfg: Config)
        ensures
            cfg.listen@.len() == 1,
            cfg.listen@[0]@ == "0.0.0.0:8547"@,
            cfg.el_http_url@ == "http://127.0.0.1:8545"@,
            cfg.el_ws_url@ == "ws://127.0.0.1:8546"@,
            cfg.cl_beacon_url@ == "http://127.0.0.1:5052"@,
            cfg.network == Network::Mainnet,
            cfg.el_max_block_age_secs == 60,
            cfg.cl_max_slot_age_secs == 60,
            !cfg.readyz_strict,
            cfg.cl_genesis_time is None,
            cfg.cl_seconds_per_slot is None,
            cfg.health_timeout == crate::time::secs_duration(3),
            cfg.health_poll_interval == crate::time::secs_duration(5),
            cfg.proxy_timeout == crate::time::secs_duration(60),
            cfg.shutdown_grace == crate::time::secs_duration(10),
            cfg.log_level == LogLevel::Info,
            !cfg.access_log,
            !cfg.trust_upstream,
            cfg.otel_endpoint is None,
    {
        let mut listen: Vec<String> = Vec::new();
        listen.push("0.0.0.0:8547".to_owned());
        Config {
            listen,
            el_http_url: "http://127.0.0.1:8545".to_owned(),
            el_ws_url: "ws://127.0.0.1:8546".to_owned(),
            cl_beacon_url: "http://127.0.0.1:5052".to_owned(),
            network: Network::Mainnet,
            el_max_block_age_secs: 60,
            cl_max_slot_age_secs: 60,
            readyz_strict: false,
            cl_genesis_time: None,
            cl_seconds_per_slot: None,
            health_timeout: Duration::from_secs(3),
            health_poll_interval: Duration::from_secs(5),
            proxy_timeout: Duration::from_secs(60),
            shutdown_grace: Duration::from_secs(10),
            log_level: LogLevel::Info,
            access_log: false,
            trust_upstream: false,
            otel_endpoint: None,
        }
    }
}

impl Clone for Config {
    fn clone(&self) -> (r: Config)
        ensures
            r.listen@ == self.listen@,
            r.el_http_url == self.el_http_url,
            r.el_ws_url == self.el_ws_url,
            r.cl_beacon_url == self.cl_beacon_url,
            r.network == self.network,
            r.el_max_block_age_secs == self.el_max_block_age_secs,
            r.cl_max_slot_age_secs == self.cl_max_slot_age_secs,
            r.readyz_strict == self.readyz_strict,
            r.cl_genesis_time == self.cl_genesis_time,
            r.cl_seconds_per_slot == self.cl_seconds_per_slot,
            r.health_timeout == self.health_timeout,
            r.health_poll_interval == self.health_poll_interval,
            r.proxy_timeout == self.proxy_timeout,
            r.shutdown_grace == self.shutdown_grace,
            r.log_level == self.log_level,
            r.access_log == self.access_log,
            r.trust_upstream == self.trust_upstream,
            r.otel_endpoint == self.otel_endpoint,
    {
        Config {
            listen: self.listen.clone(),
            el_http_url: self.el_http_url.clone(),
            el_ws_url: self.el_ws_url.clone(),
            cl_beacon_url: self.cl_beacon_url.clone(),
            network: self.network,
            el_max_block_age_secs: self.el_max_block_age_secs,
            cl_max_slot_age_secs: self.cl_max_slot_age_secs,
            readyz_strict: self.readyz_strict,
            cl_genesis_time: self.cl_genesis_time,
            cl_seconds_per_slot: self.cl_seconds_per_slot,
            health_timeout: self.health_timeout,
            health_poll_interval: self.health_poll_interval,
            proxy_timeout: self.proxy_timeout,
            shutdown_grace: self.shutdown_grace,
            log_level: self.log_level,
            access_log: self.access_log,
            trust_upstream: self.trust_upstream,
            otel_endpoint: self.otel_endpoint.clone(),
        }
    }
}

impl Config {
    /// The genesis time in force: the explicit one, else the network's.
    pub open spec fn genesis(self) -> Option<u64> {
        match self.cl_genesis_time {
            Some(v) => Some(v),
            None => self.network.genesis(),
        }
    }

    /// The slot length in force: the explicit one, else the network's.
    pub open spec fn slot_secs(self) -> Option<u64> {
        match self.cl_seconds_per_slot {
            Some(v) => Some(v),
            None => self.network.slot_secs(),
        }
    }

    pub open spec fn missing_genesis() -> Seq<char> {
        "--network custom requires --cl-genesis-time (use 0 to disable slot-age check)"@
    }

    pub open spec fn missing_slot_secs() -> Seq<char> {
        "--network custom requires --cl-seconds-per-slot"@
    }

    pub fn resolve_cl_genesis_time(&self) -> (r: Result<u64, &'static str>)
        ensures
            match r {
                Ok(v) => self.genesis() == Some(v),
                Err(e) => self.genesis() is None && e@ == Config::missing_genesis(),
            },
    {
        match self.cl_genesis_time {
            Some(v) => Ok(v),
            None => self.network.preset_genesis_time().ok_or(
                "--network custom requires --cl-genesis-time (use 0 to disable slot-age check)",
            ),
        }
    }

    pub fn resolve_cl_seconds_per_slot(&self) -> (r: Result<u64, &'static str>)
        ensures
            match r {
                Ok(v) => self.slot_secs() == Some(v),
                Err(e) => self.slot_secs() is None && e@ == Config::missing_slot_secs(),
            },
    {
        match self.cl_seconds_per_slot {
            Some(v) => Ok(v),
            None => self.network.preset_seconds_per_slot().ok_or(
                "--network custom requires --cl-seconds-per-slot",
            ),
        }
    }

    /// The log filter that applies when the environment sets none: the
    /// application log at its level, the access log on its own target.
    pub open spec fn filter_text(self) -> Seq<char> {
        self.log_level.name() + ",access_log="@ + (if self.access_log {
            "info"@
        } else {
            "off"@
        })
    }

    pub fn log_filter(&self) -> (r: String)
        ensures
            r@ == self.filter_text(),
    {
        let mut filter = self.log_level.as_str().to_owned();
        filter.append(",access_log=");
        filter.append(if self.access_log { "info" } else { "off" });
        filter
    }
}

/// Parses a duration given as a whole number of seconds.
pub fn parse_secs(s: &str) -> (r: Result<Duration, String>)
    ensures
        match text::parsed_u64(s@, 10) {
            Ok(n) => r == Ok::<Duration, String>(crate::time::secs_duration(n as u64)),
            Err(e) => r is Err && r->Err_0@ == "invalid seconds value: "@ + e.text(),
        },
{
    match text::parse_decimal(s) {
        Ok(n) => Ok(Duration::from_secs(n)),
        Err(e) => {
            let mut message = "invalid seconds value: ".to_owned();
            message.append(e.message());
            Err(message)
        },
    }
}

/// An explicit value wins over the network preset, and a network with presets
/// needs no explicit value.
pub proof fn law_explicit_overrides_preset(cfg: Config)
    ensures
        cfg.cl_genesis_time is Some ==> cfg.genesis() == cfg.cl_genesis_time,
        cfg.cl_seconds_per_slot is Some ==> cfg.slot_secs() == cfg.cl_seconds_per_slot,
        cfg.cl_genesis_time is None ==> cfg.genesis() == cfg.network.genesis(),
        cfg.cl_seconds_per_slot is None ==> cfg.slot_secs() == cfg.network.slot_secs(),
        cfg.genesis() is None <==> cfg.network is Custom && cfg.cl_genesis_time is None,
        cfg.slot_secs() is None <==> cfg.network is Custom && cfg.cl_seconds_per_slot is None,
{
}

} // verus!
