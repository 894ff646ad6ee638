//! Configuration of the proxy instance: command line arguments override the
//! configuration file, which overrides the defaults.

use vstd::prelude::*;

use crate::common::config::{
    default_audio_backend, default_audio_backend_string, pick, pick_text, pick_u16, DEFAULT_PORT,
};

verus! {

/// Command line arguments of the proxy instance.
pub struct ProxyArgs {
    /// Foksal config file
    pub config_file: Option<String>,
    /// Address of the remote instance
    pub remote_addr: Option<String>,
    /// Port that the remote instance is listening on
    pub remote_port: Option<u16>,
    /// Local port for clients to connect to
    pub local_port: Option<u16>,
    /// Audio backend to use
    pub audio_backend: Option<String>,
    /// Foksal log file
    pub log_file: Option<String>,
}

/// The settings read from the configuration file, each optional.
pub struct RawProxyConfig {
    pub remote_addr: Option<String>,
    pub remote_port: Option<u16>,
    pub local_port: Option<u16>,
    pub audio_backend: Option<String>,
}

impl Default for RawProxyConfig {
    fn default() -> (r: Self)
        ensures
            r.remote_addr is None,
            r.remote_port is None,
            r.local_port is None,
            r.audio_backend is None,
    {
        RawProxyConfig { remote_addr: None, remote_port: None, local_port: None, audio_backend: None }
    }
}

/// The effective configuration of the proxy instance.
pub struct ParsedProxyConfig {
    pub remote_addr: String,
    pub remote_port: u16,
    pub local_port: u16,
    pub audio_backend: String,
}

impl RawProxyConfig {
    /// The file settings that reproduce a parsed configuration.
    pub fn from_parsed(parsed: &ParsedProxyConfig) -> (r: RawProxyConfig)
        ensures
            r.remote_addr matches Some(a) && a@ == parsed.remote_addr@,
            r.remote_port == Some(parsed.remote_port),
            r.local_port == Some(parsed.local_port),
            r.audio_backend matches Some(b) && b@ == parsed.audio_backend@,
    {
        RawProxyConfig {
            remote_addr: Some(parsed.remote_addr.clone()),
            remote_port: Some(parsed.remote_port),
            local_port: Some(parsed.local_port),
            audio_backend: Some(parsed.audio_backend.clone()),
        }
    }
}

impl ParsedProxyConfig {
    /// Merges the file settings with the command line arguments; the address of
    /// the remote has no default and must come from one of them.
    pub fn try_merge(raw: RawProxyConfig, args: &ProxyArgs) -> (r: Result<ParsedProxyConfig, String>)
        ensures
            (args.remote_addr is None && raw.remote_addr is None) <==> r is Err,
            r matches Err(e) ==> e@ == "IP address of the remote must be specified"@,
            r matches Ok(c) ==> {
                &&& c.remote_addr@ == pick_text(args.remote_addr, raw.remote_addr, Seq::empty())
                &&& c.remote_port == pick(args.remote_port, raw.remote_port, DEFAULT_PORT)
                &&& c.local_port == pick(args.local_port, raw.local_port, DEFAULT_PORT)
                &&& c.audio_backend@ == pick_text(args.audio_backend, raw.audio_backend, default_audio_backend())
            },
    {
        let remote_addr = match &args.remote_addr {
            Some(remote_addr) => remote_addr.clone(),
            None => match raw.remote_addr {
                Some(remote_addr) => remote_addr,
                None => return Err(String::from_str("IP address of the remote must be specified")),
            },
        };
        let audio_backend = match &args.audio_backend {
            Some(b) => b.clone(),
            None => match raw.audio_backend {
                Some(b) => b,
                None => default_audio_backend_string(),
            },
        };
        Ok(ParsedProxyConfig {
            remote_addr,
            remote_port: pick_u16(args.remote_port, raw.remote_port, DEFAULT_PORT),
            local_port: pick_u16(args.local_port, raw.local_port, DEFAULT_PORT),
            audio_backend,
        })
    }
}

} // verus!
