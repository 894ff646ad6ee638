//! Checked arguments of database requests.

use vstd::prelude::*;

use crate::common::net::request::{RawFilter, RawMetadataArgs, RawSelectArgs};
use crate::db::filter::{regex_parse_error, unidecoded, ParsedFilter};
use crate::db::song_metadata::filters_wf;
use crate::db::tag::{tag_key_name, TagKey};

verus! {

/// Checked arguments of database requests.
pub trait ParsedDbRequestArgs {}

/// Arguments of `metadata`: the songs and the tags wanted of them.
pub struct ParsedMetadataArgs {
    pub uris: Vec<String>,
    pub tags: Vec<TagKey>,
}

/// Arguments of `select`: the filters every song must pass and the tags
/// the songs are grouped by.
pub struct ParsedSelectArgs {
    pub filters: Vec<ParsedFilter>,
    pub group_by: Vec<TagKey>,
}

impl ParsedDbRequestArgs for ParsedMetadataArgs {}

impl ParsedDbRequestArgs for ParsedSelectArgs {}

/// Some tag key is named `s`.
pub open spec fn is_tag_name(s: Seq<char>) -> bool {
    exists|k: TagKey| tag_key_name(k) == s
}

/// Why the tag name is refused.
pub open spec fn tag_name_error(s: Seq<char>) -> Seq<char> {
    "invalid tag key `"@ + s + "`"@
}

/// The reason why a filter is refused, if it is: its tag is unknown, or its
/// transliterated regex does not compile.
pub open spec fn filter_error(f: RawFilter) -> Option<Seq<char>> {
    if !is_tag_name(f.tag@) {
        Some(tag_name_error(f.tag@))
    } else {
        regex_parse_error(unidecoded(f.regex@))
    }
}

/// The first refused name among `names`, with its error.
pub open spec fn first_bad_name(names: Seq<String>, i: int) -> bool {
    &&& 0 <= i < names.len()
    &&& !is_tag_name(names[i]@)
    &&& forall|j: int| 0 <= j < i ==> is_tag_name((#[trigger] names[j])@)
}

/// Every name is a tag name.
pub open spec fn names_ok(names: Seq<String>) -> bool {
    forall|i: int| 0 <= i < names.len() ==> is_tag_name((#[trigger] names[i])@)
}

/// The elements of an optional list; none when it is missing.
pub open spec fn opt_seq<T>(o: Option<Vec<T>>) -> Seq<T> {
    match o {
        Some(v) => v@,
        None => Seq::empty(),
    }
}

/// Parses tag names in order; the first unknown one is refused.
pub fn parse_tag_names(names: &Vec<String>) -> (r: Result<Vec<TagKey>, String>)
    ensures
        r is Ok <==> names_ok(names@),
        r matches Ok(v) ==> v.len() == names.len() && forall|i: int|
            0 <= i < v.len() ==> tag_key_name(#[trigger] v@[i]) == names@[i]@,
        r matches Err(m) ==> exists|i: int| first_bad_name(names@, i) && m@ == tag_name_error(names@[i]@),
{
    let mut out: Vec<TagKey> = Vec::new();
    let mut i: usize = 0;
    while i < names.len()
        invariant
            i <= names.len(),
            out.len() == i,
            forall|j: int| 0 <= j < i ==> is_tag_name((#[trigger] names@[j])@),
            forall|j: int| 0 <= j < i ==> tag_key_name(#[trigger] out@[j]) == names@[j]@,
        decreases names.len() - i,
    {
        match TagKey::from_name(names[i].as_str()) {
            Ok(k) => out.push(k),
            Err(e) => {
                assert(first_bad_name(names@, i as int));
                return Err(e.message());
            },
        }
        i = i + 1;
    }
    Ok(out)
}

/// The first refused filter among `filters`.
pub open spec fn first_bad_filter(filters: Seq<RawFilter>, i: int) -> bool {
    &&& 0 <= i < filters.len()
    &&& filter_error(filters[i]) is Some
    &&& forall|j: int| 0 <= j < i ==> filter_error(#[trigger] filters[j]) is None
}

/// No filter is refused.
pub open spec fn filters_ok(filters: Seq<RawFilter>) -> bool {
    forall|i: int| 0 <= i < filters.len() ==> filter_error(#[trigger] filters[i]) is None
}

/// Checks filters in order; the first refused one gives the error.
pub fn parse_filters(filters: Vec<RawFilter>) -> (r: Result<Vec<ParsedFilter>, String>)
    ensures
        r is Ok <==> filters_ok(filters@),
        r matches Ok(v) ==> filters_wf(v@) && v.len() == filters.len() && forall|i: int|
            0 <= i < v.len() ==> tag_key_name((#[trigger] v@[i]).tag) == filters@[i].tag@ && v@[i].regex@
                == unidecoded(filters@[i].regex@),
        r matches Err(m) ==> exists|i: int| first_bad_filter(filters@, i) && filter_error(filters@[i]) == Some(m@),
{
    let ghost raw = filters@;
    assert(raw.len() == filters.len());
    let mut rest = filters;
    let mut out: Vec<ParsedFilter> = Vec::new();
    let mut i: usize = 0;
    while rest.len() > 0
        invariant
            raw.len() == i + rest.len(),
            raw == filters@,
            raw.len() <= usize::MAX,
            rest@ == raw.skip(i as int),
            out.len() == i,
            filters_wf(out@),
            forall|j: int| 0 <= j < i ==> filter_error(#[trigger] raw[j]) is None,
            forall|j: int|
                0 <= j < i ==> tag_key_name((#[trigger] out@[j]).tag) == raw[j].tag@ && out@[j].regex@
                    == unidecoded(raw[j].regex@),
        decreases rest.len(),
    {
        let f = rest.remove(0);
        assert(f == raw[i as int]);
        assert(rest@ =~= raw.skip(i + 1));
        match ParsedFilter::try_from(f) {
            Ok(p) => out.push(p),
            Err(e) => {
                assert(filter_error(raw[i as int]) == Some(e@));
                assert(first_bad_filter(raw, i as int));
                return Err(e);
            },
        }
        i = i + 1;
    }
    Ok(out)
}

/// The checked arguments of `metadata` are those of `raw`.
pub open spec fn metadata_args_parsed(raw: RawMetadataArgs, p: ParsedMetadataArgs) -> bool {
    &&& p.uris == raw.uris
    &&& p.tags.len() == raw.tags.len()
    &&& forall|i: int| 0 <= i < p.tags.len() ==> tag_key_name(#[trigger] p.tags@[i]) == raw.tags@[i]@
}

/// The arguments of `metadata` are refused for reason `m`.
pub open spec fn metadata_args_error(raw: RawMetadataArgs, m: Seq<char>) -> bool {
    exists|i: int| first_bad_name(raw.tags@, i) && m == tag_name_error(raw.tags@[i]@)
}

impl ParsedMetadataArgs {
    /// Checks the tag names; the songs are taken as they are.
    pub fn try_from(raw: RawMetadataArgs) -> (r: Result<ParsedMetadataArgs, String>)
        ensures
            r is Ok <==> names_ok(raw.tags@),
            r matches Ok(p) ==> metadata_args_parsed(raw, p),
            r matches Err(m) ==> metadata_args_error(raw, m@),
    {
        let tags = match parse_tag_names(&raw.tags) {
            Ok(t) => t,
            Err(e) => return Err(e),
        };
        Ok(ParsedMetadataArgs { uris: raw.uris, tags })
    }
}

/// The arguments of `select` pass: every filter and every grouping tag.
pub open spec fn select_args_ok(raw: RawSelectArgs) -> bool {
    filters_ok(opt_seq(raw.filters)) && names_ok(opt_seq(raw.group_by))
}

/// The checked arguments of `select` are those of `raw`.
pub open spec fn select_args_parsed(raw: RawSelectArgs, p: ParsedSelectArgs) -> bool {
    let fs = opt_seq(raw.filters);
    let gs = opt_seq(raw.group_by);
    &&& filters_wf(p.filters@)
    &&& p.filters.len() == fs.len()
    &&& forall|i: int|
        0 <= i < fs.len() ==> tag_key_name((#[trigger] p.filters@[i]).tag) == fs[i].tag@ && p.filters@[i].regex@
            == unidecoded(fs[i].regex@)
    &&& p.group_by.len() == gs.len()
    &&& forall|i: int| 0 <= i < gs.len() ==> tag_key_name(#[trigger] p.group_by@[i]) == gs[i]@
}

/// The arguments of `select` are refused for reason `m`: the first refused
/// filter, or else the first unknown grouping tag.
pub open spec fn select_args_error(raw: RawSelectArgs, m: Seq<char>) -> bool {
    let fs = opt_seq(raw.filters);
    let gs = opt_seq(raw.group_by);
    ||| exists|i: int| first_bad_filter(fs, i) && filter_error(fs[i]) == Some(m)
    ||| filters_ok(fs) && exists|i: int| first_bad_name(gs, i) && m == tag_name_error(gs[i]@)
}

impl ParsedSelectArgs {
    /// Checks the filters, then the grouping tags; missing lists are empty.
    pub fn try_from(raw: RawSelectArgs) -> (r: Result<ParsedSelectArgs, String>)
        ensures
            r is Ok <==> select_args_ok(raw),
            r matches Ok(p) ==> select_args_parsed(raw, p),
            r matches Err(m) ==> select_args_error(raw, m@),
    {
        let filters = match raw.filters {
            Some(v) => v,
            None => Vec::new(),
        };
        assert(filters@ == opt_seq(raw.filters));
        let group_by = match raw.group_by {
            Some(v) => v,
            None => Vec::new(),
        };
        assert(group_by@ == opt_seq(raw.group_by));
        let filters = match parse_filters(filters) {
            Ok(f) => f,
            Err(e) => return Err(e),
        };
        let group_by = match parse_tag_names(&group_by) {
            Ok(g) => g,
            Err(e) => return Err(e),
        };
        Ok(ParsedSelectArgs { filters, group_by })
    }
}

} // verus!
