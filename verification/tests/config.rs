use foksal::common::config::DEFAULT_PORT;
use foksal::standalone::config as standalone;
use foksal::proxy::config::{ParsedProxyConfig, ProxyArgs, RawProxyConfig};
use foksal::remote::config::{ParsedRemoteConfig, RawRemoteConfig, RemoteArgs};

fn text(t: &toml::Table, key: &str) -> Option<String> {
    t.get(key).and_then(|v| v.as_str()).map(|s| s.to_string())
}

fn port(t: &toml::Table, key: &str) -> Option<u16> {
    t.get(key).and_then(|v| v.as_integer()).map(|n| n as u16)
}

fn texts(t: &toml::Table, key: &str) -> Option<Vec<String>> {
    t.get(key).and_then(|v| v.as_array()).map(|a| {
        a.iter().map(|x| x.as_str().unwrap().to_string()).collect()
    })
}

fn raw_proxy(src: &str) -> RawProxyConfig {
    let t: toml::Table = toml::from_str(src).unwrap();
    RawProxyConfig {
        remote_addr: text(&t, "remote_addr"),
        remote_port: port(&t, "remote_port"),
        local_port: port(&t, "local_port"),
        audio_backend: text(&t, "audio_backend"),
    }
}

fn raw_remote(src: &str) -> RawRemoteConfig {
    let t: toml::Table = toml::from_str(src).unwrap();
    RawRemoteConfig {
        interface: text(&t, "interface"),
        port: port(&t, "port"),
        music_root: text(&t, "music_root"),
        allowed_exts: texts(&t, "allowed_exts"),
        ignore_globset: texts(&t, "ignore_globset"),
    }
}

fn empty_proxy_args() -> ProxyArgs {
    ProxyArgs {
        config_file: None,
        remote_addr: None,
        remote_port: None,
        local_port: None,
        audio_backend: None,
        log_file: None,
    }
}

fn empty_remote_args() -> RemoteArgs {
    RemoteArgs {
        config_file: None,
        interface: None,
        port: None,
        music_root: None,
        log_file: None,
    }
}

const MUSIC_ROOT: &str = "/current/dir";

#[test]
fn config_parse_full_config() {
    let toml = r#"
        remote_addr = "12.34.56.78"
        remote_port = 7312
        local_port = 2137
        audio_backend = "default"
    "#;
    let parsed = ParsedProxyConfig::try_merge(raw_proxy(toml), &empty_proxy_args()).unwrap();

    assert_eq!(parsed.remote_addr, "12.34.56.78");
    assert_eq!(parsed.remote_port, 7312);
    assert_eq!(parsed.local_port, 2137);
    assert_eq!(parsed.audio_backend, "default");
}

#[test]
fn config_parse_partial_config_uses_defaults() {
    let toml = r#"
        remote_addr = "12.34.56.78"
    "#;
    let parsed = ParsedProxyConfig::try_merge(raw_proxy(toml), &empty_proxy_args()).unwrap();

    assert_eq!(parsed.remote_addr, "12.34.56.78");
    assert_eq!(parsed.remote_port, DEFAULT_PORT);
    assert_eq!(parsed.local_port, DEFAULT_PORT);
    assert_eq!(parsed.audio_backend, "default");
}

#[test]
fn missing_remote_addr_returns_error() {
    let result = ParsedProxyConfig::try_merge(raw_proxy(""), &empty_proxy_args());

    match result {
        Ok(_) => panic!("expected an error when remote_addr is missing"),
        Err(e) => assert!(
            e.contains("remote"),
            "error message should mention remote address, got: {}",
            e
        ),
    }
}

#[test]
fn config_cli_args_override_toml_values() {
    let toml = r#"
        remote_addr = "12.34.56.78"
        remote_port = 2137
        local_port = 7312
        audio_backend = "default"
    "#;
    let args = ProxyArgs {
        config_file: None,
        remote_addr: Some("192.168.0.1".to_owned()),
        remote_port: Some(1111),
        local_port: Some(2222),
        audio_backend: Some("pulse".to_owned()),
        log_file: None,
    };
    let parsed = ParsedProxyConfig::try_merge(raw_proxy(toml), &args).unwrap();

    assert_eq!(parsed.remote_addr, "192.168.0.1");
    assert_eq!(parsed.remote_port, 1111);
    assert_eq!(parsed.local_port, 2222);
    assert_eq!(parsed.audio_backend, "pulse");
}

#[test]
fn parse_full_config() {
    let toml = r#"
        port = 2137
        music_root = "/music"
        allowed_exts = ["mp3", "wav"]
        ignore_globset = ["*.tmp", ".*"]
    "#;
    let parsed =
        ParsedRemoteConfig::try_merge(raw_remote(toml), &empty_remote_args(), MUSIC_ROOT.to_string())
            .unwrap();

    assert_eq!(parsed.port, 2137);
    assert_eq!(parsed.music_root, "/music");
    assert_eq!(parsed.allowed_exts, vec!["mp3", "wav"]);
    assert_eq!(parsed.ignore_globset.len(), 2);
    assert_eq!(parsed.ignore_globset[0].glob(), "*.tmp");
    assert_eq!(parsed.ignore_globset[1].glob(), ".*");
}

#[test]
fn parse_partial_config_uses_defaults() {
    let toml = r#"
        port = 2137
    "#;
    let parsed =
        ParsedRemoteConfig::try_merge(raw_remote(toml), &empty_remote_args(), MUSIC_ROOT.to_string())
            .unwrap();

    assert_eq!(parsed.port, 2137);
    assert_eq!(parsed.music_root, MUSIC_ROOT);
    assert_eq!(parsed.allowed_exts, vec!["mp3", "m4a", "flac"]);
    assert_eq!(parsed.ignore_globset.len(), 0);
}

#[test]
fn parse_empty_config_uses_all_defaults() {
    let parsed =
        ParsedRemoteConfig::try_merge(raw_remote(""), &empty_remote_args(), MUSIC_ROOT.to_string())
            .unwrap();

    assert_eq!(parsed.port, DEFAULT_PORT);
    assert_eq!(parsed.music_root, MUSIC_ROOT);
    assert_eq!(parsed.allowed_exts, vec!["mp3", "m4a", "flac"]);
    assert!(parsed.ignore_globset.is_empty());
}

#[test]
fn cli_args_override_toml_values() {
    let toml = r#"
        port = 2137
        music_root = "/music"
    "#;
    let args = RemoteArgs {
        config_file: None,
        interface: Some("1.2.3.4".into()),
        port: Some(7312),
        music_root: Some("/other".to_string()),
        log_file: None,
    };
    let parsed =
        ParsedRemoteConfig::try_merge(raw_remote(toml), &args, MUSIC_ROOT.to_string()).unwrap();

    assert_eq!(parsed.port, 7312);
    assert_eq!(parsed.interface, "1.2.3.4".to_string());
    assert_eq!(parsed.music_root, "/other");
}

#[test]
fn remote_interface_defaults_to_loopback() {
    let parsed =
        ParsedRemoteConfig::try_merge(raw_remote(""), &empty_remote_args(), MUSIC_ROOT.to_string())
            .unwrap();
    assert_eq!(parsed.interface, "127.0.0.1");
}

#[test]
fn invalid_ignore_glob_is_refused() {
    let toml = r#"
        ignore_globset = ["a[b"]
    "#;
    let result =
        ParsedRemoteConfig::try_merge(raw_remote(toml), &empty_remote_args(), MUSIC_ROOT.to_string());
    assert!(result.is_err());
}

#[test]
fn raw_config_round_trips_a_parsed_one() {
    let toml = r#"
        port = 4000
        music_root = "/m"
        ignore_globset = ["*.tmp"]
    "#;
    let parsed =
        ParsedRemoteConfig::try_merge(raw_remote(toml), &empty_remote_args(), MUSIC_ROOT.to_string())
            .unwrap();
    let raw = RawRemoteConfig::from_parsed(&parsed);
    assert_eq!(raw.port, Some(4000));
    assert_eq!(raw.music_root.as_deref(), Some("/m"));
    assert_eq!(raw.ignore_globset, Some(vec!["*.tmp".to_string()]));
    assert_eq!(raw.interface.as_deref(), Some("127.0.0.1"));
}

#[test]
fn standalone_local_defaults_and_args() {
    let c = standalone::LocalConfig::merge_with_cli(standalone::LocalArgs { port: None, music_root: None });
    assert_eq!(c.local_port, DEFAULT_PORT);
    assert_eq!(c.music_root, ".");
    assert_eq!(c.allowed_exts, vec!["mp3".to_string(), "m4a".to_string(), "flac".to_string()]);
    assert!(foksal::db::fs_utils::walk_keeps("a.mp3", &c.ignore_glob_set));
    let c = standalone::LocalConfig::merge_with_cli(standalone::LocalArgs { port: Some(9000), music_root: Some("/music".to_string()) });
    assert_eq!(c.local_port, 9000);
    assert_eq!(c.music_root, "/music");
}

#[test]
fn standalone_proxy_and_remote_args() {
    let p = standalone::ProxyConfig::merge_with_cli(standalone::ProxyArgs {
        remote_addr: "10.0.0.2".to_string(),
        remote_port: 4000,
        local_port: None,
    });
    assert_eq!(p.remote_addr, "10.0.0.2");
    assert_eq!(p.remote_port, 4000);
    assert_eq!(p.local_port, DEFAULT_PORT);
    let r = standalone::RemoteConfig::merge_with_cli(standalone::RemoteArgs { port: Some(5000), music_root: None });
    assert_eq!(r.local_port, 5000);
    assert_eq!(r.music_root, ".");
}

#[test]
fn standalone_log_file_default() {
    let c = standalone::CliConfig::merge_with_cli(
        standalone::CliArgs { mode: standalone::Mode::Local(standalone::LocalArgs { port: None, music_root: None }), log_file: None },
        "/tmp/foksal.log".to_string(),
    );
    assert_eq!(c.log_file, "/tmp/foksal.log");
    assert!(matches!(c.mode, standalone::Mode::Local(_)));
    let c = standalone::CliConfig::merge_with_cli(
        standalone::CliArgs { mode: standalone::Mode::Local(standalone::LocalArgs { port: None, music_root: None }), log_file: Some("x.log".to_string()) },
        "/tmp/foksal.log".to_string(),
    );
    assert_eq!(c.log_file, "x.log");
}
