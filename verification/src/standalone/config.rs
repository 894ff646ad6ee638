//! Configuration of the single-binary server, taken from the command line.

use vstd::prelude::*;

use crate::common::config::{default_allowed_exts, default_allowed_exts_vec, string_views, IgnoreSet, DEFAULT_PORT};

verus! {

pub open spec fn default_music_root() -> Seq<char> {
    "."@
}

/// Arguments of the local mode.
pub struct LocalArgs {
    /// localhost port for clients to connect to
    pub port: Option<u16>,
    /// the root of your music collection
    pub music_root: Option<String>,
}

/// Arguments of the proxy mode.
pub struct ProxyArgs {
    /// address of the remote instance
    pub remote_addr: String,
    /// port that the remote instance will listen on
    pub remote_port: u16,
    /// port on localhost for clients to connect to
    pub local_port: Option<u16>,
}

/// Arguments of the remote mode.
pub struct RemoteArgs {
    /// port for proxy instances to connect to
    pub port: Option<u16>,
    /// the root of your music collection
    pub music_root: Option<String>,
}

/// The mode to run in.
pub enum Mode {
    /// local mode (use this pc's audio and mounted filesystem)
    Local(LocalArgs),
    /// proxy mode (requires connecting to a remore instance)
    Proxy(ProxyArgs),
    /// remote mode (can't play audio, needs to be paired with a proxy)
    Remote(RemoteArgs),
}

/// The command line.
pub struct CliArgs {
    pub mode: Mode,
    pub log_file: Option<String>,
}

/// The mode and the log file to write to.
pub struct CliConfig {
    pub mode: Mode,
    pub log_file: String,
}

/// Configuration of the local mode.
pub struct LocalConfig {
    pub local_port: u16,
    pub music_root: String,
    pub ignore_glob_set: IgnoreSet,
    pub allowed_exts: Vec<String>,
}

/// Configuration of the proxy mode.
pub struct ProxyConfig {
    pub remote_addr: String,
    pub remote_port: u16,
    pub local_port: u16,
}

/// Configuration of the remote mode.
pub struct RemoteConfig {
    pub local_port: u16,
    pub music_root: String,
    pub ignore_glob_set: IgnoreSet,
    pub allowed_exts: Vec<String>,
}

fn port_or_default(p: Option<u16>) -> (r: u16)
    ensures
        r == match p {
            Some(v) => v,
            None => DEFAULT_PORT,
        },
{
    match p {
        Some(v) => v,
        None => DEFAULT_PORT,
    }
}

fn music_root_or_default(m: Option<String>) -> (r: String)
    ensures
        r@ == match m {
            Some(v) => v@,
            None => default_music_root(),
        },
{
    match m {
        Some(v) => v,
        None => String::from_str("."),
    }
}

impl CliConfig {
    /// The mode, and the log file (`default_log_file` when none is given).
    pub fn merge_with_cli(cli_args: CliArgs, default_log_file: String) -> (r: CliConfig)
        ensures
            r.mode == cli_args.mode,
            r.log_file@ == match cli_args.log_file {
                Some(f) => f@,
                None => default_log_file@,
            },
    {
        CliConfig {
            mode: cli_args.mode,
            log_file: match cli_args.log_file {
                Some(f) => f,
                None => default_log_file,
            },
        }
    }
}

impl LocalConfig {
    /// The local configuration: arguments, else the defaults.
    pub fn merge_with_cli(cli_args: LocalArgs) -> (r: LocalConfig)
        ensures
            r.local_port == match cli_args.port {
                Some(p) => p,
                None => DEFAULT_PORT,
            },
            r.music_root@ == match cli_args.music_root {
                Some(m) => m@,
                None => default_music_root(),
            },
            string_views(r.allowed_exts@) == default_allowed_exts(),
            r.ignore_glob_set.patterns() == Seq::<Seq<char>>::empty(),
    {
        LocalConfig {
            local_port: port_or_default(cli_args.port),
            music_root: music_root_or_default(cli_args.music_root),
            ignore_glob_set: IgnoreSet::empty(),
            allowed_exts: default_allowed_exts_vec(),
        }
    }
}

impl ProxyConfig {
    /// The proxy configuration: arguments, else the default local port.
    pub fn merge_with_cli(cli_args: ProxyArgs) -> (r: ProxyConfig)
        ensures
            r.remote_addr == cli_args.remote_addr,
            r.remote_port == cli_args.remote_port,
            r.local_port == match cli_args.local_port {
                Some(p) => p,
                None => DEFAULT_PORT,
            },
    {
        ProxyConfig {
            remote_addr: cli_args.remote_addr,
            remote_port: cli_args.remote_port,
            local_port: port_or_default(cli_args.local_port),
        }
    }
}

impl RemoteConfig {
    /// The remote configuration: arguments, else the defaults.
    pub fn merge_with_cli(cli_args: RemoteArgs) -> (r: RemoteConfig)
        ensures
            r.local_port == match cli_args.port {
                Some(p) => p,
                None => DEFAULT_PORT,
            },
            r.music_root@ == match cli_args.music_root {
                Some(m) => m@,
                None => default_music_root(),
            },
            string_views(r.allowed_exts@) == default_allowed_exts(),
            r.ignore_glob_set.patterns() == Seq::<Seq<char>>::empty(),
    {
        RemoteConfig {
            local_port: port_or_default(cli_args.port),
            music_root: music_root_or_default(cli_args.music_root),
            ignore_glob_set: IgnoreSet::empty(),
            allowed_exts: default_allowed_exts_vec(),
        }
    }
}

} // verus!
