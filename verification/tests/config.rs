use std::time::Duration;

use clap::builder::PossibleValuesParser;
use clap::{Arg, ArgAction, Command};
use ethryx::config::{parse_secs, Config, LogLevel, Network};

fn command() -> Command {
    Command::new("ethryx")
        .arg(
            Arg::new("listen")
                .long("listen")
                .value_delimiter(',')
                .action(ArgAction::Append)
                .default_value("0.0.0.0:8547"),
        )
        .arg(
            Arg::new("network")
                .long("network")
                .value_parser(PossibleValuesParser::new([
                    "mainnet", "hoodi", "sepolia", "holesky", "custom",
                ]))
                .default_value("mainnet"),
        )
        .arg(
            Arg::new("readyz-strict")
                .long("readyz-strict")
                .action(ArgAction::Set)
                .num_args(0..=1)
                .value_parser(clap::builder::BoolValueParser::new())
                .default_value("false")
                .default_missing_value("true"),
        )
        .arg(
            Arg::new("cl-genesis-time")
                .long("cl-genesis-time")
                .value_parser(clap::builder::RangedU64ValueParser::<u64>::new()),
        )
        .arg(
            Arg::new("cl-seconds-per-slot")
                .long("cl-seconds-per-slot")
                .value_parser(clap::builder::RangedU64ValueParser::<u64>::new()),
        )
        .arg(
            Arg::new("health-poll-interval")
                .long("health-poll-interval")
                .value_parser(parse_secs)
                .default_value("5"),
        )
}

fn parse(extra: &[&str]) -> Config {
    let mut argv = vec!["ethryx"];
    argv.extend_from_slice(extra);
    let m = command().try_get_matches_from(argv).expect("clap parse");
    Config {
        listen: m.get_many::<String>("listen").expect("default").cloned().collect(),
        network: match m.get_one::<String>("network").expect("default").as_str() {
            "mainnet" => Network::Mainnet,
            "hoodi" => Network::Hoodi,
            "sepolia" => Network::Sepolia,
            "holesky" => Network::Holesky,
            _ => Network::Custom,
        },
        readyz_strict: *m.get_one::<bool>("readyz-strict").expect("default"),
        cl_genesis_time: m.get_one::<u64>("cl-genesis-time").copied(),
        cl_seconds_per_slot: m.get_one::<u64>("cl-seconds-per-slot").copied(),
        health_poll_interval: *m.get_one::<Duration>("health-poll-interval").expect("default"),
        ..Config::default()
    }
}

#[test]
fn presets_match_known_genesis_times() {
    assert_eq!(Network::Mainnet.preset_genesis_time(), Some(1_606_824_023));
    assert_eq!(Network::Hoodi.preset_genesis_time(), Some(1_742_213_400));
    assert_eq!(Network::Sepolia.preset_genesis_time(), Some(1_655_733_600));
    assert_eq!(Network::Holesky.preset_genesis_time(), Some(1_695_902_400));
}

#[test]
fn presets_use_ethereum_slot_duration() {
    for n in [
        Network::Mainnet,
        Network::Hoodi,
        Network::Sepolia,
        Network::Holesky,
    ] {
        assert_eq!(n.preset_seconds_per_slot(), Some(12));
    }
}

#[test]
fn custom_has_no_presets() {
    assert_eq!(Network::Custom.preset_genesis_time(), None);
    assert_eq!(Network::Custom.preset_seconds_per_slot(), None);
}

#[test]
fn explicit_genesis_overrides_network_preset() {
    let cfg = parse(&["--network", "hoodi", "--cl-genesis-time", "999"]);
    assert_eq!(cfg.resolve_cl_genesis_time().unwrap(), 999);
}

#[test]
fn network_preset_used_when_genesis_not_provided() {
    let cfg = parse(&["--network", "sepolia"]);
    assert_eq!(cfg.resolve_cl_genesis_time().unwrap(), 1_655_733_600);
    assert_eq!(cfg.resolve_cl_seconds_per_slot().unwrap(), 12);
}

#[test]
fn custom_without_genesis_fails() {
    let cfg = parse(&["--network", "custom"]);
    assert!(cfg.resolve_cl_genesis_time().is_err());
    assert!(cfg.resolve_cl_seconds_per_slot().is_err());
}

#[test]
fn custom_with_explicit_values_resolves() {
    let cfg = parse(&[
        "--network",
        "custom",
        "--cl-genesis-time",
        "1700000000",
        "--cl-seconds-per-slot",
        "6",
    ]);
    assert_eq!(cfg.resolve_cl_genesis_time().unwrap(), 1_700_000_000);
    assert_eq!(cfg.resolve_cl_seconds_per_slot().unwrap(), 6);
}

#[test]
fn cl_genesis_zero_disables_check_but_still_resolves() {
    let cfg = parse(&["--cl-genesis-time", "0"]);
    assert_eq!(cfg.resolve_cl_genesis_time().unwrap(), 0);
}

#[test]
fn listen_accepts_repeated_flag() {
    let cfg = parse(&["--listen", "127.0.0.1:1", "--listen", "127.0.0.1:2"]);
    assert_eq!(cfg.listen, vec!["127.0.0.1:1", "127.0.0.1:2"]);
}

#[test]
fn listen_accepts_comma_separated() {
    let cfg = parse(&["--listen", "127.0.0.1:1,127.0.0.1:2,127.0.0.1:3"]);
    assert_eq!(cfg.listen.len(), 3);
    assert_eq!(cfg.listen[2], "127.0.0.1:3");
}

#[test]
fn readyz_strict_defaults_off() {
    assert!(!parse(&[]).readyz_strict);
}

#[test]
fn readyz_strict_bare_flag_enables() {
    assert!(parse(&["--readyz-strict"]).readyz_strict);
}

#[test]
fn readyz_strict_accepts_explicit_bool() {
    assert!(parse(&["--readyz-strict", "true"]).readyz_strict);
    assert!(!parse(&["--readyz-strict", "false"]).readyz_strict);
}

#[test]
fn parse_secs_accepts_integer() {
    assert_eq!(parse_secs("30").unwrap(), Duration::from_secs(30));
    assert_eq!(parse_secs("0").unwrap(), Duration::from_secs(0));
}

#[test]
fn parse_secs_rejects_non_integer() {
    assert!(parse_secs("abc").is_err());
    assert!(parse_secs("3.14").is_err());
    assert!(parse_secs("-1").is_err());
}

#[test]
fn parse_secs_names_the_fault() {
    assert_eq!(
        parse_secs("").unwrap_err(),
        "invalid seconds value: cannot parse integer from empty string"
    );
    assert_eq!(
        parse_secs("x").unwrap_err(),
        "invalid seconds value: invalid digit found in string"
    );
    assert_eq!(
        parse_secs("18446744073709551616").unwrap_err(),
        "invalid seconds value: number too large to fit in target type"
    );
    assert_eq!(
        parse_secs("18446744073709551615").unwrap(),
        Duration::from_secs(u64::MAX)
    );
}

#[test]
fn unresolved_parameters_name_their_flag() {
    let cfg = parse(&["--network", "custom"]);
    assert_eq!(
        cfg.resolve_cl_genesis_time().unwrap_err(),
        "--network custom requires --cl-genesis-time (use 0 to disable slot-age check)"
    );
    assert_eq!(
        cfg.resolve_cl_seconds_per_slot().unwrap_err(),
        "--network custom requires --cl-seconds-per-slot"
    );
}

#[test]
fn defaults_are_the_documented_ones() {
    let cfg = Config::default();
    assert_eq!(cfg.listen, vec!["0.0.0.0:8547"]);
    assert_eq!(cfg.el_http_url, "http://127.0.0.1:8545");
    assert_eq!(cfg.el_ws_url, "ws://127.0.0.1:8546");
    assert_eq!(cfg.cl_beacon_url, "http://127.0.0.1:5052");
    assert_eq!(cfg.network, Network::Mainnet);
    assert_eq!(cfg.el_max_block_age_secs, 60);
    assert_eq!(cfg.cl_max_slot_age_secs, 60);
    assert!(!cfg.readyz_strict);
    assert_eq!(cfg.cl_genesis_time, None);
    assert_eq!(cfg.cl_seconds_per_slot, None);
    assert_eq!(cfg.health_timeout, Duration::from_secs(3));
    assert_eq!(cfg.health_poll_interval, Duration::from_secs(5));
    assert_eq!(cfg.proxy_timeout, Duration::from_secs(60));
    assert_eq!(cfg.shutdown_grace, Duration::from_secs(10));
    assert_eq!(cfg.log_level, LogLevel::Info);
    assert!(!cfg.access_log);
    assert!(!cfg.trust_upstream);
    assert_eq!(cfg.otel_endpoint, None);
}

#[test]
fn cloned_config_keeps_every_field() {
    let cfg = Config {
        listen: vec!["a:1".to_string(), "b:2".to_string()],
        el_http_url: "http://el".to_string(),
        el_ws_url: "ws://el".to_string(),
        cl_beacon_url: "http://cl".to_string(),
        network: Network::Hoodi,
        el_max_block_age_secs: 1,
        cl_max_slot_age_secs: 2,
        readyz_strict: true,
        cl_genesis_time: Some(3),
        cl_seconds_per_slot: Some(4),
        health_timeout: Duration::from_secs(5),
        health_poll_interval: Duration::from_secs(6),
        proxy_timeout: Duration::from_secs(7),
        shutdown_grace: Duration::from_secs(8),
        log_level: LogLevel::Trace,
        access_log: true,
        trust_upstream: true,
        otel_endpoint: Some("http://otel".to_string()),
    };
    assert_eq!(format!("{:?}", cfg.clone()), format!("{cfg:?}"));
}

#[test]
fn log_filter_combines_level_and_access_log() {
    let quiet = Config::default();
    assert_eq!(quiet.log_filter(), "info,access_log=off");
    let loud = Config {
        log_level: LogLevel::Debug,
        access_log: true,
        ..Config::default()
    };
    assert_eq!(loud.log_filter(), "debug,access_log=info");
    for (level, name) in [
        (LogLevel::Trace, "trace"),
        (LogLevel::Warn, "warn"),
        (LogLevel::Error, "error"),
    ] {
        assert_eq!(level.as_str(), name);
    }
}
