//! Tag keys: the standard tags read from audio files and the extended ones
//! (duration, file size) that the library computes itself.

use vstd::prelude::*;
use vstd::string::StringSliceAdditionalSpecFns;

use std::cmp::Ordering;

use crate::text::{compare_strs, lemma_lex_order_flip, lex_order, Order3, first_byte_or_len, find_byte, parse_i32, parse_i32_bytes, push_str, str_eq};

verus! {

/// The standard tags that the library handles.
#[derive(Clone, Copy, Debug, PartialEq, Eq, Hash, Structural)]
pub enum StandardTagKey {
    Album,
    AlbumArtist,
    Artist,
    Composer,
    Date,
    DiscNumber,
    Genre,
    Performer,
    Producer,
    SortAlbum,
    SortAlbumArtist,
    SortArtist,
    SortComposer,
    SortTrackTitle,
    TrackNumber,
    TrackTitle,
}

/// Tags that are not stored in the file but computed from it.
#[derive(Clone, Copy, Debug, PartialEq, Eq, Hash, Structural)]
pub enum ExtendedTagKey {
    Duration,
    FileSize,
}

/// A tag key.
#[derive(Clone, Copy, Debug, PartialEq, Eq, Hash, Structural)]
pub enum TagKey {
    Standard(StandardTagKey),
    Extended(ExtendedTagKey),
}

/// Order in which `unique` values are sorted.
#[derive(Clone, Copy, Debug, PartialEq, Eq, Structural)]
pub enum SortingOrder {
    Ascending,
    Descending,
}

/// Errors on tag keys and sorting orders given as text.
#[derive(Debug, PartialEq, Eq)]
pub enum TagError {
    InvalidTagKey(String),
    InvalidSortingOrder(String),
}

impl TagError {
    pub open spec fn spec_message(&self) -> Seq<char> {
        match self {
            TagError::InvalidTagKey(s) => "invalid tag key `"@ + s@ + "`"@,
            TagError::InvalidSortingOrder(s) => "invalid sorting order `"@ + s@ + "`"@,
        }
    }

    /// The human-readable description of the error.
    pub fn message(&self) -> (r: String)
        ensures
            r@ == self.spec_message(),
    {
        let mut r = String::new();
        match self {
            TagError::InvalidTagKey(s) => {
                push_str(&mut r, "invalid tag key `");
                push_str(&mut r, s.as_str());
            },
            TagError::InvalidSortingOrder(s) => {
                push_str(&mut r, "invalid sorting order `");
                push_str(&mut r, s.as_str());
            },
        }
        push_str(&mut r, "`");
        r
    }
}

/// The name under which a tag key appears in requests and responses.
pub open spec fn tag_key_name(k: TagKey) -> Seq<char> {
    match k {
            TagKey::Standard(StandardTagKey::Album) => "album"@,
            TagKey::Standard(StandardTagKey::AlbumArtist) => "albumartist"@,
            TagKey::Standard(StandardTagKey::Artist) => "artist"@,
            TagKey::Standard(StandardTagKey::Composer) => "composer"@,
            TagKey::Standard(StandardTagKey::Date) => "date"@,
            TagKey::Standard(StandardTagKey::DiscNumber) => "discnumber"@,
            TagKey::Standard(StandardTagKey::Genre) => "genre"@,
            TagKey::Standard(StandardTagKey::Performer) => "performer"@,
            TagKey::Standard(StandardTagKey::Producer) => "producer"@,
            TagKey::Standard(StandardTagKey::SortAlbum) => "sortalbum"@,
            TagKey::Standard(StandardTagKey::SortAlbumArtist) => "sortalbumartist"@,
            TagKey::Standard(StandardTagKey::SortArtist) => "sortartist"@,
            TagKey::Standard(StandardTagKey::SortComposer) => "sortcomposer"@,
            TagKey::Standard(StandardTagKey::SortTrackTitle) => "sorttracktitle"@,
            TagKey::Standard(StandardTagKey::TrackNumber) => "tracknumber"@,
            TagKey::Standard(StandardTagKey::TrackTitle) => "tracktitle"@,
            TagKey::Extended(ExtendedTagKey::Duration) => "duration"@,
            TagKey::Extended(ExtendedTagKey::FileSize) => "filesize"@,
    }
}

/// The tag that stands in for a missing one when sorting and grouping.
pub open spec fn tag_fallback(k: TagKey) -> Option<TagKey> {
    match k {
        TagKey::Standard(StandardTagKey::SortAlbum) => Some(TagKey::Standard(StandardTagKey::Album)),
        TagKey::Standard(StandardTagKey::SortAlbumArtist) => Some(TagKey::Standard(StandardTagKey::AlbumArtist)),
        TagKey::Standard(StandardTagKey::SortArtist) => Some(TagKey::Standard(StandardTagKey::Artist)),
        TagKey::Standard(StandardTagKey::SortComposer) => Some(TagKey::Standard(StandardTagKey::Composer)),
        TagKey::Standard(StandardTagKey::SortTrackTitle) => Some(TagKey::Standard(StandardTagKey::TrackTitle)),
        TagKey::Standard(StandardTagKey::AlbumArtist) => Some(TagKey::Standard(StandardTagKey::Artist)),
        _ => None,
    }
}

/// Tags whose values are compared as numbers of the form "XX" or "XX/YY".
pub open spec fn is_numbered_tag(k: TagKey) -> bool {
    k == TagKey::Standard(StandardTagKey::DiscNumber) || k == TagKey::Standard(StandardTagKey::TrackNumber)
}

/// The number XX of a text "XX/YY", or of the whole text when it has no `/`.
pub open spec fn parse_out_of_bytes(b: Seq<u8>) -> Option<int> {
    parse_i32_bytes(b.subrange(0, first_byte_or_len(b, 47)))
}

/// Parses XX if `s` is of the form "XX/YY", or the entirety of `s` otherwise.
pub fn parse_out_of(s: &str) -> (r: Option<i32>)
    ensures
        match parse_out_of_bytes(s.spec_bytes()) {
            Some(v) => r == Some(v as i32),
            None => r is None,
        },
{
    let b = s.as_bytes();
    let k = find_byte(b, 47u8);
    parse_i32(b, 0, k)
}

impl TagKey {
    /// The tag's name.
    pub fn name(&self) -> (r: &'static str)
        ensures
            r@ == tag_key_name(*self),
    {
        match *self {
            TagKey::Standard(StandardTagKey::Album) => "album",
            TagKey::Standard(StandardTagKey::AlbumArtist) => "albumartist",
            TagKey::Standard(StandardTagKey::Artist) => "artist",
            TagKey::Standard(StandardTagKey::Composer) => "composer",
            TagKey::Standard(StandardTagKey::Date) => "date",
            TagKey::Standard(StandardTagKey::DiscNumber) => "discnumber",
            TagKey::Standard(StandardTagKey::Genre) => "genre",
            TagKey::Standard(StandardTagKey::Performer) => "performer",
            TagKey::Standard(StandardTagKey::Producer) => "producer",
            TagKey::Standard(StandardTagKey::SortAlbum) => "sortalbum",
            TagKey::Standard(StandardTagKey::SortAlbumArtist) => "sortalbumartist",
            TagKey::Standard(StandardTagKey::SortArtist) => "sortartist",
            TagKey::Standard(StandardTagKey::SortComposer) => "sortcomposer",
            TagKey::Standard(StandardTagKey::SortTrackTitle) => "sorttracktitle",
            TagKey::Standard(StandardTagKey::TrackNumber) => "tracknumber",
            TagKey::Standard(StandardTagKey::TrackTitle) => "tracktitle",
            TagKey::Extended(ExtendedTagKey::Duration) => "duration",
            TagKey::Extended(ExtendedTagKey::FileSize) => "filesize",
        }
    }

    /// The tag's name as an owned string.
    pub fn to_string(&self) -> (r: String)
        ensures
            r@ == tag_key_name(*self),
    {
        String::from_str(self.name())
    }

    /// The tag key with the given name.
    pub fn from_name(s: &str) -> (r: Result<TagKey, TagError>)
        ensures
            match r {
                Ok(k) => tag_key_name(k) == s@,
                Err(e) => e matches TagError::InvalidTagKey(t) && t@ == s@,
            },
            r is Err ==> forall|k: TagKey| tag_key_name(k) != s@,
    {
        if str_eq(s, "album") {
            return Ok(TagKey::Standard(StandardTagKey::Album));
        }
        if str_eq(s, "albumartist") {
            return Ok(TagKey::Standard(StandardTagKey::AlbumArtist));
        }
        if str_eq(s, "artist") {
            return Ok(TagKey::Standard(StandardTagKey::Artist));
        }
        if str_eq(s, "composer") {
            return Ok(TagKey::Standard(StandardTagKey::Composer));
        }
        if str_eq(s, "date") {
            return Ok(TagKey::Standard(StandardTagKey::Date));
        }
        if str_eq(s, "discnumber") {
            return Ok(TagKey::Standard(StandardTagKey::DiscNumber));
        }
        if str_eq(s, "genre") {
            return Ok(TagKey::Standard(StandardTagKey::Genre));
        }
        if str_eq(s, "performer") {
            return Ok(TagKey::Standard(StandardTagKey::Performer));
        }
        if str_eq(s, "producer") {
            return Ok(TagKey::Standard(StandardTagKey::Producer));
        }
        if str_eq(s, "sortalbum") {
            return Ok(TagKey::Standard(StandardTagKey::SortAlbum));
        }
        if str_eq(s, "sortalbumartist") {
            return Ok(TagKey::Standard(StandardTagKey::SortAlbumArtist));
        }
        if str_eq(s, "sortartist") {
            return Ok(TagKey::Standard(StandardTagKey::SortArtist));
        }
        if str_eq(s, "sortcomposer") {
            return Ok(TagKey::Standard(StandardTagKey::SortComposer));
        }
        if str_eq(s, "sorttracktitle") {
            return Ok(TagKey::Standard(StandardTagKey::SortTrackTitle));
        }
        if str_eq(s, "tracknumber") {
            return Ok(TagKey::Standard(StandardTagKey::TrackNumber));
        }
        if str_eq(s, "tracktitle") {
            return Ok(TagKey::Standard(StandardTagKey::TrackTitle));
        }
        if str_eq(s, "duration") {
            return Ok(TagKey::Extended(ExtendedTagKey::Duration));
        }
        if str_eq(s, "filesize") {
            return Ok(TagKey::Extended(ExtendedTagKey::FileSize));
        }
        Err(TagError::InvalidTagKey(s.to_owned()))
    }

    /// The extended tag key as a tag key.
    pub fn from_extended(k: ExtendedTagKey) -> (r: TagKey)
        ensures
            r == TagKey::Extended(k),
    {
        TagKey::Extended(k)
    }

    /// The tag to fall back on when this one is missing.
    pub fn fallback(self) -> (r: Option<TagKey>)
        ensures
            r == tag_fallback(self),
    {
        match self {
            TagKey::Standard(StandardTagKey::SortAlbum) => Some(TagKey::Standard(StandardTagKey::Album)),
            TagKey::Standard(StandardTagKey::SortAlbumArtist) => Some(TagKey::Standard(StandardTagKey::AlbumArtist)),
            TagKey::Standard(StandardTagKey::SortArtist) => Some(TagKey::Standard(StandardTagKey::Artist)),
            TagKey::Standard(StandardTagKey::SortComposer) => Some(TagKey::Standard(StandardTagKey::Composer)),
            TagKey::Standard(StandardTagKey::SortTrackTitle) => Some(TagKey::Standard(StandardTagKey::TrackTitle)),
            TagKey::Standard(StandardTagKey::AlbumArtist) => Some(TagKey::Standard(StandardTagKey::Artist)),
            _ => None,
        }
    }
}

impl SortingOrder {
    /// The sorting order named `s` ("asc"/"ascending" or "desc"/"descending").
    pub fn from_name(s: &str) -> (r: Result<SortingOrder, TagError>)
        ensures
            (s@ == "asc"@ || s@ == "ascending"@) ==> r == Ok::<SortingOrder, TagError>(SortingOrder::Ascending),
            (s@ == "desc"@ || s@ == "descending"@) ==> r == Ok::<SortingOrder, TagError>(SortingOrder::Descending),
            !(s@ == "asc"@ || s@ == "ascending"@ || s@ == "desc"@ || s@ == "descending"@) ==> (r matches Err(
                TagError::InvalidSortingOrder(t),
            ) && t@ == s@),
    {
        proof {
            reveal_strlit("asc");
            reveal_strlit("ascending");
            reveal_strlit("desc");
            reveal_strlit("descending");
            assert("asc"@.len() == 3 && "ascending"@.len() == 9 && "desc"@.len() == 4);
        }
        if str_eq(s, "asc") || str_eq(s, "ascending") {
            Ok(SortingOrder::Ascending)
        } else if str_eq(s, "desc") || str_eq(s, "descending") {
            Ok(SortingOrder::Descending)
        } else {
            Err(TagError::InvalidSortingOrder(s.to_owned()))
        }
    }
}

/// The bytes of an optional string.
pub open spec fn opt_bytes(o: Option<&str>) -> Option<Seq<u8>> {
    match o {
        Some(s) => Some(s.spec_bytes()),
        None => None,
    }
}

/// Three-way comparison of integers.
pub open spec fn int_order(a: int, b: int) -> Order3 {
    if a < b {
        Order3::Less
    } else if a == b {
        Order3::Equal
    } else {
        Order3::Greater
    }
}

/// How two optional values of tag `k` are ordered: a missing value comes
/// first; disc and track numbers compare by their leading number (equal when
/// either does not parse); other tags compare as text.
pub open spec fn tag_value_order(k: TagKey, a: Option<Seq<u8>>, b: Option<Seq<u8>>) -> Order3 {
    match (a, b) {
        (None, None) => Order3::Equal,
        (None, Some(_)) => Order3::Less,
        (Some(_), None) => Order3::Greater,
        (Some(x), Some(y)) => if is_numbered_tag(k) {
            match (parse_out_of_bytes(x), parse_out_of_bytes(y)) {
                (Some(p), Some(q)) => int_order(p, q),
                _ => Order3::Equal,
            }
        } else {
            lex_order(x, y)
        },
    }
}

/// The `Ordering` for a three-way comparison outcome.
pub open spec fn ordering_of(o: Order3) -> Ordering {
    match o {
        Order3::Less => Ordering::Less,
        Order3::Equal => Ordering::Equal,
        Order3::Greater => Ordering::Greater,
    }
}

fn to_ordering(o: Order3) -> (r: Ordering)
    ensures
        r == ordering_of(o),
{
    match o {
        Order3::Less => Ordering::Less,
        Order3::Equal => Ordering::Equal,
        Order3::Greater => Ordering::Greater,
    }
}

fn order_i32(a: i32, b: i32) -> (r: Order3)
    ensures
        r == int_order(a as int, b as int),
{
    if a < b {
        Order3::Less
    } else if a == b {
        Order3::Equal
    } else {
        Order3::Greater
    }
}

impl TagKey {
    /// Compares two optional values of this tag.
    pub fn cmp(&self, a: Option<&str>, b: Option<&str>) -> (r: Ordering)
        ensures
            r == ordering_of(tag_value_order(*self, opt_bytes(a), opt_bytes(b))),
    {
        let o = match (a, b) {
            (None, None) => Order3::Equal,
            (None, Some(_)) => Order3::Less,
            (Some(_), None) => Order3::Greater,
            (Some(x), Some(y)) => {
                let numbered = match *self {
                    TagKey::Standard(StandardTagKey::DiscNumber) => true,
                    TagKey::Standard(StandardTagKey::TrackNumber) => true,
                    _ => false,
                };
                if numbered {
                    match (parse_out_of(x), parse_out_of(y)) {
                        (Some(p), Some(q)) => order_i32(p, q),
                        _ => Order3::Equal,
                    }
                } else {
                    compare_strs(x, y)
                }
            },
        };
        to_ordering(o)
    }
}


/// Swapping two values flips their order: `a` comes before `b` exactly when
/// `b` comes after `a`, and they tie both ways or neither.
pub proof fn lemma_tag_value_order_flip(k: TagKey, a: Option<Seq<u8>>, b: Option<Seq<u8>>)
    ensures
        tag_value_order(k, a, b) == Order3::Less <==> tag_value_order(k, b, a) == Order3::Greater,
        tag_value_order(k, a, b) == Order3::Equal <==> tag_value_order(k, b, a) == Order3::Equal,
{
    match (a, b) {
        (Some(x), Some(y)) => {
            if !is_numbered_tag(k) {
                lemma_lex_order_flip(x, y);
                lemma_lex_order_flip(y, x);
            }
        },
        _ => {},
    }
}

} // verus!
