//! What the sidecar fixes once, before it serves anything.

use vstd::prelude::*;

use crate::config::Config;
use crate::text;
use crate::uri::{parse_uri, Uri};

verus! {

/// The immutable part of a running sidecar.
#[derive(Debug)]
pub struct AppState {
    pub cfg: Config,
    pub el_http_uri: Uri,
    pub cl_syncing_uri: Uri,
    pub cl_peer_count_uri: Uri,
    pub cl_genesis_time: u64,
    pub cl_seconds_per_slot: u64,
}

/// The text of an endpoint below the Beacon API base URL.
pub open spec fn beacon_endpoint(cfg: Config, path: Seq<char>) -> Seq<char> {
    text::without_trailing_slashes(cfg.cl_beacon_url@) + path
}

pub open spec fn syncing_path() -> Seq<char> {
    "/eth/v1/node/syncing"@
}

pub open spec fn peer_count_path() -> Seq<char> {
    "/eth/v1/node/peer_count"@
}

/// Why the sidecar refuses to start under `cfg`, if it does. The first fault counts.
pub open spec fn startup_fault(cfg: Config) -> Option<Seq<char>> {
    let el_http = crate::uri::uri_parse(cfg.el_http_url@);
    let syncing = crate::uri::uri_parse(beacon_endpoint(cfg, syncing_path()));
    let peer_count = crate::uri::uri_parse(beacon_endpoint(cfg, peer_count_path()));
    if cfg.listen@.len() == 0 {
        Some("no listen addresses configured"@)
    } else if cfg.health_poll_interval == crate::time::secs_duration(0) {
        Some("health-poll-interval must be at least 1 second"@)
    } else if el_http is Err {
        Some(el_http->Err_0)
    } else if syncing is Err {
        Some(syncing->Err_0)
    } else if peer_count is Err {
        Some(peer_count->Err_0)
    } else if cfg.genesis() is None {
        Some(Config::missing_genesis())
    } else if cfg.slot_secs() is None {
        Some(Config::missing_slot_secs())
    } else {
        None
    }
}

impl AppState {
    /// The state that belongs to its configuration.
    pub open spec fn matches_config(self) -> bool {
        &&& self.el_http_uri.text@ == self.cfg.el_http_url@
        &&& crate::uri::uri_parse(self.cfg.el_http_url@) == Ok::<_, Seq<char>>(
            self.el_http_uri.parts(),
        )
        &&& self.cl_syncing_uri.text@ == beacon_endpoint(self.cfg, syncing_path())
        &&& crate::uri::uri_parse(beacon_endpoint(self.cfg, syncing_path())) == Ok::<_, Seq<char>>(
            self.cl_syncing_uri.parts(),
        )
        &&& self.cl_peer_count_uri.text@ == beacon_endpoint(self.cfg, peer_count_path())
        &&& crate::uri::uri_parse(beacon_endpoint(self.cfg, peer_count_path())) == Ok::<
            _,
            Seq<char>,
        >(self.cl_peer_count_uri.parts())
        &&& self.cfg.genesis() == Some(self.cl_genesis_time)
        &&& self.cfg.slot_secs() == Some(self.cl_seconds_per_slot)
    }

    /// Checks the configuration and resolves what serving needs of it.
    pub fn prepare(cfg: Config) -> (r: Result<AppState, String>)
        ensures
            match r {
                Ok(state) => startup_fault(cfg) is None && state.cfg == cfg
                    && state.matches_config(),
                Err(e) => startup_fault(cfg) == Some(e@),
            },
    {
        if cfg.listen.is_empty() {
            return Err("no listen addresses configured".to_owned());
        }
        if cfg.health_poll_interval.is_zero() {
            return Err("health-poll-interval must be at least 1 second".to_owned());
        }
        let el_http_uri = match parse_uri(cfg.el_http_url.as_str()) {
            Ok(uri) => uri,
            Err(e) => return Err(e),
        };
        let cl_base = text::trim_slashes(cfg.cl_beacon_url.as_str());
        let mut syncing = cl_base.to_owned();
        syncing.append("/eth/v1/node/syncing");
        let cl_syncing_uri = match parse_uri(syncing.as_str()) {
            Ok(uri) => uri,
            Err(e) => return Err(e),
        };
        let mut peer_count = cl_base.to_owned();
        peer_count.append("/eth/v1/node/peer_count");
        let cl_peer_count_uri = match parse_uri(peer_count.as_str()) {
            Ok(uri) => uri,
            Err(e) => return Err(e),
        };
        let cl_genesis_time = match cfg.resolve_cl_genesis_time() {
            Ok(v) => v,
            Err(e) => return Err(e.to_owned()),
        };
        let cl_seconds_per_slot = match cfg.resolve_cl_seconds_per_slot() {
            Ok(v) => v,
            Err(e) => return Err(e.to_owned()),
        };
        Ok(
            AppState {
                cfg,
                el_http_uri,
                cl_syncing_uri,
                cl_peer_count_uri,
                cl_genesis_time,
                cl_seconds_per_slot,
            },
        )
    }
}

/// A custom network without both explicit chain parameters never starts.
pub proof fn law_custom_needs_both_parameters(cfg: Config)
    requires
        cfg.network is Custom,
        cfg.cl_genesis_time is None || cfg.cl_seconds_per_slot is None,
    ensures
        startup_fault(cfg) is Some,
{
}

/// Without a listen address, or with no pause between polls, the sidecar never starts.
pub proof fn law_refuses_idle_or_spinning(cfg: Config)
    requires
        cfg.listen@.len() == 0 || cfg.health_poll_interval == crate::time::secs_duration(0),
    ensures
        startup_fault(cfg) is Some,
{
}

} // verus!
