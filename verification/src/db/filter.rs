//! Regex filters on tag values, as `select` requests carry them.

use vstd::prelude::*;

use crate::common::net::request::RawFilter;
use crate::db::tag::{tag_key_name, TagKey};

verus! {

/// The text that `unidecode` makes of `s` (its ASCII transliteration).
pub uninterp spec fn unidecoded(s: Seq<char>) -> Seq<char>;

/// What `regex::Regex::new` says of `pattern`: `None` when it compiles, the
/// text of its error otherwise.
pub uninterp spec fn regex_parse_error(pattern: Seq<char>) -> Option<Seq<char>>;

/// Whether the regex compiled from `pattern` matches somewhere in `text`
/// (`regex::Regex::is_match`).
pub uninterp spec fn regex_matches(pattern: Seq<char>, text: Seq<char>) -> bool;

/// Transliterates `s` to ASCII (`unidecode::unidecode`); the result is a
/// function of `s` alone.
#[verifier::external_body]
fn unidecode_str(s: &str) -> (r: String)
    ensures
        r@ == unidecoded(s@),
{
    unidecode::unidecode(s)
}

/// Compiles `pattern` (`regex::Regex::new`) and reports the error text
/// (its `Display`) when it does not compile.
#[verifier::external_body]
fn regex_error(pattern: &str) -> (r: Option<String>)
    ensures
        match regex_parse_error(pattern@) {
            Some(t) => r matches Some(s) && s@ == t,
            None => r is None,
        },
{
    match regex::Regex::new(pattern) {
        Ok(_) => None,
        Err(e) => Some(e.to_string()),
    }
}

/// Whether the regex of `pattern` matches in `text` (`regex::Regex::new`,
/// then `Regex::is_match`).
#[verifier::external_body]
pub(crate) fn regex_is_match(pattern: &str, text: &str) -> (r: bool)
    requires
        regex_parse_error(pattern@) is None,
    ensures
        r == regex_matches(pattern@, text@),
{
    match regex::Regex::new(pattern) {
        Ok(re) => re.is_match(text),
        Err(_) => false,
    }
}

/// A checked filter: the tag it looks at and the regex (as the ASCII
/// transliteration of the requested pattern, which compiles).
#[derive(Debug)]
pub struct ParsedFilter {
    pub tag: TagKey,
    pub regex: String,
}

impl ParsedFilter {
    /// The regex compiles.
    pub open spec fn wf(&self) -> bool {
        regex_parse_error(self.regex@) is None
    }

    /// Checks a raw filter: the tag must be known and the transliterated
    /// regex must compile; the error is the reason.
    pub fn try_from(raw: RawFilter) -> (r: Result<ParsedFilter, String>)
        ensures
            r is Ok <==> (exists|k: TagKey| tag_key_name(k) == raw.tag@) && regex_parse_error(
                unidecoded(raw.regex@),
            ) is None,
            r matches Ok(f) ==> f.wf() && tag_key_name(f.tag) == raw.tag@ && f.regex@ == unidecoded(
                raw.regex@,
            ),
            (forall|k: TagKey| tag_key_name(k) != raw.tag@) ==> (r matches Err(m) && m@
                == "invalid tag key `"@ + raw.tag@ + "`"@),
            (exists|k: TagKey| tag_key_name(k) == raw.tag@) ==> match regex_parse_error(
                unidecoded(raw.regex@),
            ) {
                Some(t) => r matches Err(m) && m@ == t,
                None => true,
            },
    {
        let tag = match TagKey::from_name(raw.tag.as_str()) {
            Ok(k) => k,
            Err(e) => return Err(e.message()),
        };
        let regex = unidecode_str(raw.regex.as_str());
        match regex_error(regex.as_str()) {
            Some(e) => Err(e),
            None => Ok(ParsedFilter { tag, regex }),
        }
    }
}

} // verus!
