//! Laws of the configuration and of startup.

use vstd::prelude::*;

use crate::config::{Config, LogLevel, Network};
use crate::state::AppState;
use crate::uri::Uri;

verus! {

/// An explicit genesis time is taken as it is, zero included, on every network; else
/// every network but a custom one has its own.
pub proof fn law_genesis_in_force(cfg: Config, r: Result<u64, &'static str>, preset: Option<u64>)
    requires
        call_ensures(Config::resolve_cl_genesis_time, (&cfg,), r),
        call_ensures(Network::preset_genesis_time, (cfg.network,), preset),
    ensures
        cfg.cl_genesis_time matches Some(v) ==> r == Ok::<u64, &'static str>(v),
        cfg.cl_genesis_time is None ==> (preset matches Some(v) ==> r == Ok::<u64, &'static str>(
            v,
        )),
        cfg.cl_genesis_time is None && preset is None ==> r is Err,
        preset is None <==> cfg.network is Custom,
{
}

/// An explicit slot length is taken as it is on every network; else every network but
/// a custom one has its own, and all of them the same.
pub proof fn law_slot_length_in_force(
    cfg: Config,
    r: Result<u64, &'static str>,
    preset: Option<u64>,
)
    requires
        call_ensures(Config::resolve_cl_seconds_per_slot, (&cfg,), r),
        call_ensures(Network::preset_seconds_per_slot, (cfg.network,), preset),
    ensures
        cfg.cl_seconds_per_slot matches Some(v) ==> r == Ok::<u64, &'static str>(v),
        cfg.cl_seconds_per_slot is None ==> (preset matches Some(v) ==> r == Ok::<
            u64,
            &'static str,
        >(v)),
        cfg.cl_seconds_per_slot is None && preset is None ==> r is Err,
        preset is None <==> cfg.network is Custom,
        preset matches Some(v) ==> v == 12,
{
}

/// The log filter starts with the level, and the access log is on in it exactly where
/// it was asked for, whatever the level is.
pub proof fn law_access_log_is_independent_of_the_level(
    cfg: Config,
    filter: String,
    level: &'static str,
)
    requires
        call_ensures(Config::log_filter, (&cfg,), filter),
        call_ensures(LogLevel::as_str, (cfg.log_level,), level),
    ensures
        cfg.access_log ==> filter@ == level@ + ",access_log=info"@,
        !cfg.access_log ==> filter@ == level@ + ",access_log=off"@,
{
    reveal_strlit(",access_log=");
    reveal_strlit(",access_log=info");
    reveal_strlit(",access_log=off");
    reveal_strlit("info");
    reveal_strlit("off");
    assert(",access_log=info"@ =~= ",access_log="@ + "info"@);
    assert(",access_log=off"@ =~= ",access_log="@ + "off"@);
    assert(level@ + ",access_log="@ + "info"@ =~= level@ + (",access_log="@ + "info"@));
    assert(level@ + ",access_log="@ + "off"@ =~= level@ + (",access_log="@ + "off"@));
}

/// A copy of a configuration has the same value in every field.
pub proof fn law_copies_are_equal(cfg: Config, copy: Config)
    requires
        call_ensures(Config::clone, (&cfg,), copy),
    ensures
        copy.listen@ == cfg.listen@,
        copy.el_http_url@ == cfg.el_http_url@,
        copy.el_ws_url@ == cfg.el_ws_url@,
        copy.cl_beacon_url@ == cfg.cl_beacon_url@,
        copy.network == cfg.network,
        copy.el_max_block_age_secs == cfg.el_max_block_age_secs,
        copy.cl_max_slot_age_secs == cfg.cl_max_slot_age_secs,
        copy.readyz_strict == cfg.readyz_strict,
        copy.cl_genesis_time == cfg.cl_genesis_time,
        copy.cl_seconds_per_slot == cfg.cl_seconds_per_slot,
        copy.health_timeout == cfg.health_timeout,
        copy.health_poll_interval == cfg.health_poll_interval,
        copy.proxy_timeout == cfg.proxy_timeout,
        copy.shutdown_grace == cfg.shutdown_grace,
        copy.log_level == cfg.log_level,
        copy.access_log == cfg.access_log,
        copy.trust_upstream == cfg.trust_upstream,
        copy.otel_endpoint == cfg.otel_endpoint,
{
}

/// A URI that was parsed is the text it was parsed from; a text that does not parse is
/// refused, and nothing else is.
pub proof fn law_uris_keep_their_text(s: &str, r: Result<Uri, String>)
    requires
        call_ensures(crate::uri::parse_uri, (s,), r),
    ensures
        r is Ok <==> crate::uri::uri_parse(s@) is Ok,
        r matches Ok(uri) ==> uri.text@ == s@,
        r matches Err(e) ==> crate::uri::uri_parse(s@) == Err::<crate::uri::UriParts, Seq<char>>(
            e@,
        ),
        r matches Ok(uri) ==> (crate::uri::uri_parse(s@) matches Ok(parts) && (
        uri.scheme matches Some(x) ==> parts.scheme == Some(x@)) && (uri.scheme is None
            ==> parts.scheme is None) && (uri.authority matches Some(x) ==> parts.authority == Some(
            x@,
        )) && (uri.authority is None ==> parts.authority is None)),
{
}

/// `base` is a URL up to slashes at its end.
pub open spec fn trimmed(url: Seq<char>, base: Seq<char>) -> bool {
    &&& base.is_prefix_of(url)
    &&& forall|i: int| base.len() <= i < url.len() ==> (#[trigger] url[i]) == '/'
    &&& base.len() > 0 ==> base.last() != '/'
}

proof fn lemma_trimmed_once(url: Seq<char>, base: Seq<char>)
    requires
        trimmed(url, base),
    ensures
        crate::text::without_trailing_slashes(url) == base,
{
    crate::laws::numbers::lemma_trimmed(url);
    let other = crate::text::without_trailing_slashes(url);
    if other.len() < base.len() {
        assert(url[base.len() - 1] == '/');
        assert(base[base.len() - 1] == url[base.len() - 1]);
    } else if other.len() > base.len() {
        assert(url[other.len() - 1] == '/');
        assert(other[other.len() - 1] == url[other.len() - 1]);
    }
    assert(other =~= base);
}

/// A sidecar that starts polls the configured EL, and the two endpoints of the
/// configured Beacon API, whose slashes at the end do not count; its chain parameters
/// are those in force.
pub proof fn law_startup_resolves_the_configuration(
    cfg: Config,
    base: Seq<char>,
    r: Result<AppState, String>,
    genesis: Result<u64, &'static str>,
    slot_secs: Result<u64, &'static str>,
)
    requires
        call_ensures(AppState::prepare, (cfg,), r),
        call_ensures(Config::resolve_cl_genesis_time, (&cfg,), genesis),
        call_ensures(Config::resolve_cl_seconds_per_slot, (&cfg,), slot_secs),
        trimmed(cfg.cl_beacon_url@, base),
    ensures
        r matches Ok(state) ==> {
            &&& state.cfg == cfg
            &&& state.el_http_uri.text@ == cfg.el_http_url@
            &&& state.cl_syncing_uri.text@ == base + "/eth/v1/node/syncing"@
            &&& state.cl_peer_count_uri.text@ == base + "/eth/v1/node/peer_count"@
            &&& crate::uri::uri_parse(cfg.el_http_url@) == Ok::<crate::uri::UriParts, Seq<char>>(
                state.el_http_uri.parts(),
            )
            &&& genesis matches Ok(v) && state.cl_genesis_time == v
            &&& slot_secs matches Ok(v) && state.cl_seconds_per_slot == v
        },
{
    lemma_trimmed_once(cfg.cl_beacon_url@, base);
}

/// The sidecar refuses to start exactly where something is wrong: no listen address, no
/// pause between polls, a URL that is no URI, or a chain parameter that is not known.
/// The first of these is the reason given.
pub proof fn law_startup_refusals(
    cfg: Config,
    base: Seq<char>,
    r: Result<AppState, String>,
    genesis: Result<u64, &'static str>,
    slot_secs: Result<u64, &'static str>,
)
    requires
        call_ensures(AppState::prepare, (cfg,), r),
        call_ensures(Config::resolve_cl_genesis_time, (&cfg,), genesis),
        call_ensures(Config::resolve_cl_seconds_per_slot, (&cfg,), slot_secs),
        trimmed(cfg.cl_beacon_url@, base),
    ensures
        ({
            let idle = cfg.listen@.len() == 0;
            let spinning = cfg.health_poll_interval == crate::time::duration_of(0, 0);
            let el = crate::uri::uri_parse(cfg.el_http_url@);
            let syncing = crate::uri::uri_parse(base + "/eth/v1/node/syncing"@);
            let peers = crate::uri::uri_parse(base + "/eth/v1/node/peer_count"@);
            let uris = el is Ok && syncing is Ok && peers is Ok;
            &&& r is Ok <==> !idle && !spinning && uris && genesis is Ok && slot_secs is Ok
            &&& r matches Err(why) ==> {
                &&& idle ==> why@ == "no listen addresses configured"@
                &&& !idle && spinning ==> why@ == "health-poll-interval must be at least 1 second"@
                &&& !idle && !spinning ==> {
                    &&& el matches Err(e) ==> why@ == e
                    &&& el is Ok ==> (syncing matches Err(e) ==> why@ == e)
                    &&& el is Ok && syncing is Ok ==> (peers matches Err(e) ==> why@ == e)
                    &&& uris ==> (genesis matches Err(e) ==> why@ == e@)
                    &&& uris && genesis is Ok ==> (slot_secs matches Err(e) ==> why@ == e@)
                }
            }
        }),
{
    lemma_trimmed_once(cfg.cl_beacon_url@, base);
}

} // verus!
