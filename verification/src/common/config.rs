//! Configuration defaults shared by the local, proxy and remote instances, and
//! the compiled ignore patterns.

use vstd::prelude::*;



verus! {

pub const DEFAULT_PORT: u16 = 2137;

pub open spec fn default_audio_backend() -> Seq<char> {
    "default"@
}

pub open spec fn default_remote_addr() -> Seq<char> {
    "127.0.0.1"@
}

pub open spec fn default_allowed_exts() -> Seq<Seq<char>> {
    seq!["mp3"@, "m4a"@, "flac"@]
}

pub open spec fn string_views(v: Seq<String>) -> Seq<Seq<char>> {
    v.map_values(|s: String| s@)
}

/// The audio backend used when none is configured.
pub fn default_audio_backend_string() -> (r: String)
    ensures
        r@ == default_audio_backend(),
{
    String::from_str("default")
}

/// The address of the remote instance used when none is configured.
pub fn default_remote_addr_string() -> (r: String)
    ensures
        r@ == default_remote_addr(),
{
    String::from_str("127.0.0.1")
}

/// The file extensions scanned when none are configured.
pub fn default_allowed_exts_vec() -> (r: Vec<String>)
    ensures
        string_views(r@) == default_allowed_exts(),
{
    let mut v: Vec<String> = Vec::new();
    v.push(String::from_str("mp3"));
    v.push(String::from_str("m4a"));
    v.push(String::from_str("flac"));
    assert(string_views(v@) =~= default_allowed_exts());
    v
}

/// The first present value among the argument and the file, else the default.
pub open spec fn pick<T>(arg: Option<T>, file: Option<T>, default: T) -> T {
    match arg {
        Some(a) => a,
        None => match file {
            Some(f) => f,
            None => default,
        },
    }
}

pub open spec fn pick_text(arg: Option<String>, file: Option<String>, default: Seq<char>) -> Seq<char> {
    match arg {
        Some(a) => a@,
        None => match file {
            Some(f) => f@,
            None => default,
        },
    }
}

pub fn pick_u16(arg: Option<u16>, file: Option<u16>, default: u16) -> (r: u16)
    ensures
        r == pick(arg, file, default),
{
    match arg {
        Some(a) => a,
        None => match file {
            Some(f) => f,
            None => default,
        },
    }
}

#[verifier::external_type_specification]
#[verifier::external_body]
pub struct ExGlob(globset::Glob);

/// Whether `globset` accepts `pattern` as a glob.
pub uninterp spec fn glob_is_valid(pattern: Seq<char>) -> bool;

/// The text (`Display`) of the error `globset::Glob::new` gives for a pattern
/// it rejects; it names the pattern and what is wrong with it, and depends
/// on the pattern alone.
pub uninterp spec fn glob_error_message(pattern: Seq<char>) -> Seq<char>;

/// Parses a glob pattern (`globset::Glob::new`); it succeeds exactly for the
/// patterns that `globset` accepts, which only depends on the pattern. The
/// error is given as its text.
#[verifier::external_body]
fn glob_new(pattern: &str) -> (r: Result<globset::Glob, String>)
    ensures
        r is Ok <==> glob_is_valid(pattern@),
        r matches Err(t) ==> t@ == glob_error_message(pattern@),
{
    match globset::Glob::new(pattern) {
        Ok(g) => Ok(g),
        Err(e) => Err(e.to_string()),
    }
}

/// An ignore pattern with its compiled glob.
#[derive(Debug)]
pub struct IgnoreGlob {
    pattern: String,
    glob: globset::Glob,
}

impl IgnoreGlob {
    /// The pattern that the glob was compiled from.
    pub closed spec fn pattern(&self) -> Seq<char> {
        self.pattern@
    }

    /// Compiles `pattern`; the error holds the reason given by `globset`.
    pub fn new(pattern: &str) -> (r: Result<IgnoreGlob, String>)
        ensures
            r is Ok <==> glob_is_valid(pattern@),
            r matches Ok(g) ==> g.pattern() == pattern@,
            r matches Err(e) ==> e@ == glob_error_message(pattern@),
    {
        match glob_new(pattern) {
            Ok(glob) => Ok(IgnoreGlob { pattern: String::from_str(pattern), glob }),
            Err(e) => Err(e),
        }
    }

    /// The pattern text as given (`Glob::glob`).
    pub fn glob(&self) -> (r: &str)
        ensures
            r@ == self.pattern(),
    {
        self.pattern.as_str()
    }

    /// The glob that `globset` compiled from `pattern()`.
    pub closed spec fn glob_value(&self) -> globset::Glob {
        self.glob
    }

    /// The compiled glob.
    pub fn compiled(&self) -> (r: &globset::Glob)
        ensures
            *r == self.glob_value(),
    {
        &self.glob
    }
}

pub open spec fn glob_patterns(v: Seq<IgnoreGlob>) -> Seq<Seq<char>> {
    v.map_values(|g: IgnoreGlob| g.pattern())
}

/// Whether `globset` builds a set out of globs with these patterns; building
/// fails only when the compiled set is over `globset`'s size limits, which
/// depends on the patterns alone.
pub uninterp spec fn globset_builds(patterns: Seq<Seq<char>>) -> bool;

/// Whether some glob of a set built from these patterns matches `path`
/// (`GlobSet::is_match`), which depends on the patterns and the path alone.
pub uninterp spec fn globs_match(patterns: Seq<Seq<char>>, path: Seq<char>) -> bool;

/// The text (`Display`) of the error `GlobSetBuilder::build` gives for globs
/// with these patterns when it fails; it depends on the patterns alone.
pub uninterp spec fn globset_error_message(patterns: Seq<Seq<char>>) -> Seq<char>;

/// Builds one glob set out of the globs (`GlobSetBuilder::add` for each, then
/// `GlobSetBuilder::build`); it succeeds exactly when `globset_builds` holds
/// of their patterns. The error is given as its text.
#[verifier::external_body]
fn globset_build(globs: &Vec<IgnoreGlob>) -> (r: Result<globset::GlobSet, String>)
    ensures
        r is Ok <==> globset_builds(glob_patterns(globs@)),
        r matches Err(t) ==> t@ == globset_error_message(glob_patterns(globs@)),
{
    let mut builder = globset::GlobSetBuilder::new();
    for g in globs.iter() {
        builder.add(g.glob.clone());
    }
    match builder.build() {
        Ok(set) => Ok(set),
        Err(e) => Err(e.to_string()),
    }
}

#[verifier::external_type_specification]
#[verifier::external_body]
pub struct ExGlobSet(globset::GlobSet);

/// An empty glob set (`globset::GlobSet::empty`).
#[verifier::external_body]
fn globset_empty() -> globset::GlobSet {
    globset::GlobSet::empty()
}

/// The ignore patterns, compiled into one set.
pub struct IgnoreSet {
    patterns: Ghost<Seq<Seq<char>>>,
    set: globset::GlobSet,
}

impl IgnoreSet {
    /// The patterns the set was built from, in order.
    pub closed spec fn patterns(&self) -> Seq<Seq<char>> {
        self.patterns@
    }

    /// Builds the set of the globs; the error holds the reason given by
    /// `globset`.
    pub fn build(globs: &Vec<IgnoreGlob>) -> (r: Result<IgnoreSet, String>)
        ensures
            r is Ok <==> globset_builds(glob_patterns(globs@)),
            r matches Ok(s) ==> s.patterns() == glob_patterns(globs@),
            r matches Err(e) ==> e@ == globset_error_message(glob_patterns(globs@)),
    {
        match globset_build(globs) {
            Ok(set) => Ok(IgnoreSet { patterns: Ghost(glob_patterns(globs@)), set }),
            Err(e) => Err(e),
        }
    }

    /// The set without globs, which matches nothing.
    pub fn empty() -> (r: IgnoreSet)
        ensures
            r.patterns() == Seq::<Seq<char>>::empty(),
    {
        IgnoreSet { patterns: Ghost(Seq::empty()), set: globset_empty() }
    }

    /// Whether some glob of the set matches `path` (`GlobSet::is_match`); a set
    /// without globs matches nothing.
    #[verifier::external_body]
    pub(crate) fn is_match(&self, path: &str) -> (r: bool)
        ensures
            r == globs_match(self.patterns(), path@),
            self.patterns().len() == 0 ==> !r,
    {
        self.set.is_match(path)
    }
}

/// The pattern at `i` is the first one that `globset` rejects.
pub open spec fn is_first_invalid(patterns: Seq<String>, i: int) -> bool {
    &&& !glob_is_valid(patterns[i]@)
    &&& forall|j: int| 0 <= j < i ==> glob_is_valid(#[trigger] patterns[j]@)
}

/// Compiles every pattern in order; the first invalid one makes it fail,
/// with the error `globset` gives for it.
pub fn compile_globs(patterns: &Vec<String>) -> (r: Result<Vec<IgnoreGlob>, String>)
    ensures
        r is Ok <==> forall|i: int| 0 <= i < patterns.len() ==> glob_is_valid(#[trigger] patterns[i]@),
        r matches Ok(g) ==> glob_patterns(g@) == string_views(patterns@),
        r matches Err(e) ==> exists|i: int|
            0 <= i < patterns.len() && is_first_invalid(patterns@, i) && e@ == glob_error_message(
                #[trigger] patterns[i]@,
            ),
{
    let mut out: Vec<IgnoreGlob> = Vec::new();
    let mut i: usize = 0;
    while i < patterns.len()
        invariant
            i <= patterns.len(),
            out.len() == i,
            forall|j: int| 0 <= j < i ==> glob_is_valid(#[trigger] patterns[j]@),
            forall|j: int| 0 <= j < i ==> (#[trigger] out@[j]).pattern() == patterns[j]@,
        decreases patterns.len() - i,
    {
        match IgnoreGlob::new(patterns[i].as_str()) {
            Ok(g) => out.push(g),
            Err(e) => {
                assert(is_first_invalid(patterns@, i as int));
                return Err(e);
            },
        }
        i = i + 1;
    }
    assert(glob_patterns(out@) =~= string_views(patterns@));
    Ok(out)
}

} // verus!
