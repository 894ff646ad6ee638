//! Configuration of the local instance: command line arguments override the
//! configuration file, which overrides the defaults.

use vstd::prelude::*;

use crate::common::config::{
    compile_globs, default_allowed_exts, default_allowed_exts_vec, default_audio_backend,
    default_audio_backend_string, glob_is_valid, glob_patterns, pick, pick_text, pick_u16,
    string_views, IgnoreGlob, DEFAULT_PORT,
};

verus! {

/// Command line arguments of the local instance.
pub struct LocalArgs {
    /// Foksal config file
    pub config_file: Option<String>,
    /// Port for clients to connect to
    pub port: Option<u16>,
    /// Root directory of your music collection
    pub music_root: Option<String>,
    /// Audio backend to use
    pub audio_backend: Option<String>,
    /// Foksal log file
    pub log_file: Option<String>,
}

/// The settings read from the configuration file, each optional.
pub struct RawLocalConfig {
    pub port: Option<u16>,
    pub music_root: Option<String>,
    pub audio_backend: Option<String>,
    pub allowed_exts: Option<Vec<String>>,
    pub ignore_globset: Option<Vec<String>>,
}

impl Default for RawLocalConfig {
    fn default() -> (r: Self)
        ensures
            r.port is None,
            r.music_root is None,
            r.audio_backend is None,
            r.allowed_exts is None,
            r.ignore_globset is None,
    {
        RawLocalConfig {
            port: None,
            music_root: None,
            audio_backend: None,
            allowed_exts: None,
            ignore_globset: None,
        }
    }
}

/// The effective configuration of the local instance.
pub struct ParsedLocalConfig {
    pub port: u16,
    pub music_root: String,
    pub audio_backend: String,
    pub allowed_exts: Vec<String>,
    pub ignore_globset: Vec<IgnoreGlob>,
}

pub open spec fn patterns_valid(p: Seq<String>) -> bool {
    forall|i: int| 0 <= i < p.len() ==> glob_is_valid(#[trigger] p[i]@)
}

impl RawLocalConfig {
    /// The file settings that reproduce a parsed configuration.
    pub fn from_parsed(parsed: &ParsedLocalConfig) -> (r: RawLocalConfig)
        ensures
            r.port == Some(parsed.port),
            r.music_root matches Some(m) && m@ == parsed.music_root@,
            r.audio_backend matches Some(b) && b@ == parsed.audio_backend@,
            r.allowed_exts matches Some(e) && string_views(e@) == string_views(parsed.allowed_exts@),
            r.ignore_globset matches Some(g) && string_views(g@) == glob_patterns(parsed.ignore_globset@),
    {
        let mut globs: Vec<String> = Vec::new();
        let mut i: usize = 0;
        while i < parsed.ignore_globset.len()
            invariant
                i <= parsed.ignore_globset.len(),
                globs.len() == i,
                forall|j: int| 0 <= j < i ==> (#[trigger] globs@[j])@ == parsed.ignore_globset@[j].pattern(),
            decreases parsed.ignore_globset.len() - i,
        {
            globs.push(String::from_str(parsed.ignore_globset[i].glob()));
            i = i + 1;
        }
        assert(string_views(globs@) =~= glob_patterns(parsed.ignore_globset@));
        let exts = parsed.allowed_exts.clone();
        assert(string_views(exts@) =~= string_views(parsed.allowed_exts@));
        RawLocalConfig {
            port: Some(parsed.port),
            music_root: Some(parsed.music_root.clone()),
            audio_backend: Some(parsed.audio_backend.clone()),
            allowed_exts: Some(exts),
            ignore_globset: Some(globs),
        }
    }
}

impl ParsedLocalConfig {
    /// Merges the file settings with the command line arguments. The ignore
    /// patterns and allowed extensions come from the file only; an invalid
    /// pattern makes the merge fail. `default_music_root` is the working
    /// directory.
    pub fn try_merge(raw: RawLocalConfig, args: &LocalArgs, default_music_root: String) -> (r: Result<
        ParsedLocalConfig,
        String,
    >)
        ensures
            r is Err <==> (raw.ignore_globset matches Some(p) && !patterns_valid(p@)),
            r matches Ok(c) ==> {
                &&& c.port == pick(args.port, raw.port, DEFAULT_PORT)
                &&& c.music_root@ == pick_text(args.music_root, raw.music_root, default_music_root@)
                &&& c.audio_backend@ == pick_text(args.audio_backend, raw.audio_backend, default_audio_backend())
                &&& string_views(c.allowed_exts@) == match raw.allowed_exts {
                    Some(e) => string_views(e@),
                    None => default_allowed_exts(),
                }
                &&& glob_patterns(c.ignore_globset@) == match raw.ignore_globset {
                    Some(p) => string_views(p@),
                    None => Seq::<Seq<char>>::empty(),
                }
            },
    {
        let ignore_globset = match &raw.ignore_globset {
            Some(patterns) => compile_globs(patterns)?,
            None => {
                let v: Vec<IgnoreGlob> = Vec::new();
                assert(glob_patterns(v@) =~= Seq::<Seq<char>>::empty());
                v
            },
        };
        let music_root = match &args.music_root {
            Some(m) => m.clone(),
            None => match raw.music_root {
                Some(m) => m,
                None => default_music_root,
            },
        };
        let audio_backend = match &args.audio_backend {
            Some(b) => b.clone(),
            None => match raw.audio_backend {
                Some(b) => b,
                None => default_audio_backend_string(),
            },
        };
        let allowed_exts = match raw.allowed_exts {
            Some(e) => e,
            None => default_allowed_exts_vec(),
        };
        Ok(ParsedLocalConfig {
            port: pick_u16(args.port, raw.port, DEFAULT_PORT),
            music_root,
            audio_backend,
            allowed_exts,
            ignore_globset,
        })
    }
}

} // verus!
