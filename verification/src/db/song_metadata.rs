//! The tags of one song: gathered from the file's metadata, merged, looked
//! up and matched against filters.

use vstd::prelude::*;

use crate::common::encoding::{base64_decoded, base64_encode, base64_encoded};
use crate::common::json::{JsonNumber, JsonValue};
use crate::db::filter::{regex_is_match, regex_matches, ParsedFilter};
use crate::db::fs_utils::{absolute_path, to_absolute};
use crate::db::tag::{ExtendedTagKey, StandardTagKey, TagKey};
use crate::text::{decimal, digits_number, is_digit_char, lemma_decimal_reads_back, push_decimal, push_str, str_eq};

verus! {

broadcast use vstd::seq_lib::group_seq_properties, vstd::map::group_map_axioms;

/// A tag value as the database keeps it: text read from the file, or a
/// number that the database computed (duration, file size).
#[derive(Debug)]
pub enum TagData {
    Text(String),
    Number(u64),
}

/// The abstract value of a `TagData`.
pub enum TagDataView {
    Text(Seq<char>),
    Number(u64),
}

impl View for TagData {
    type V = TagDataView;

    open spec fn view(&self) -> TagDataView {
        match self {
            TagData::Text(s) => TagDataView::Text(s@),
            TagData::Number(n) => TagDataView::Number(*n),
        }
    }
}

/// The text that a filter's regex is matched against: the string itself, or
/// the decimal rendering of a number.
pub open spec fn data_text(d: TagDataView) -> Seq<char> {
    match d {
        TagDataView::Text(s) => s,
        TagDataView::Number(n) => decimal(n as nat),
    }
}

/// A filter sees a number tag as its decimal rendering: a nonempty run of
/// digits that spells the number (so a duration of 237 is matched as "237"),
/// and a text tag as the text itself.
pub proof fn lemma_data_text_of_number(n: u64, t: Seq<char>)
    ensures
        data_text(TagDataView::Number(n)).len() >= 1,
        forall|i: int|
            0 <= i < data_text(TagDataView::Number(n)).len() ==> is_digit_char(
                #[trigger] data_text(TagDataView::Number(n))[i],
            ),
        digits_number(data_text(TagDataView::Number(n))) == n,
        data_text(TagDataView::Text(t)) == t,
{
    lemma_decimal_reads_back(n as nat);
}

/// `v` is the JSON value of `d`: a string, or a number.
pub open spec fn json_is_data(v: JsonValue, d: TagDataView) -> bool {
    match d {
        TagDataView::Text(s) => v matches JsonValue::String(t) && t@ == s,
        TagDataView::Number(n) => v matches JsonValue::Number(x) && x.value() == n,
    }
}

/// `v` is the JSON value of an optional tag value: `null` when absent.
pub open spec fn json_is_opt_data(v: JsonValue, d: Option<TagDataView>) -> bool {
    match d {
        Some(x) => json_is_data(v, x),
        None => v is Null,
    }
}

impl TagData {
    /// A copy of the value.
    pub fn copy(&self) -> (r: TagData)
        ensures
            r@ == self@,
    {
        match self {
            TagData::Text(s) => TagData::Text(s.clone()),
            TagData::Number(n) => TagData::Number(*n),
        }
    }

    /// The text that filters are matched against.
    pub fn to_text(&self) -> (r: String)
        ensures
            r@ == data_text(self@),
            self@ matches TagDataView::Number(n) ==> r@.len() >= 1 && digits_number(r@) == n,
    {
        proof {
            if let TagDataView::Number(n) = self@ {
                lemma_data_text_of_number(n, Seq::empty());
            }
        }
        match self {
            TagData::Text(s) => s.clone(),
            TagData::Number(n) => {
                let mut r = String::new();
                push_decimal(&mut r, *n);
                r
            },
        }
    }

    /// The value as JSON.
    pub fn to_json(&self) -> (r: JsonValue)
        ensures
            json_is_data(r, self@),
    {
        match self {
            TagData::Text(s) => JsonValue::String(s.clone()),
            TagData::Number(n) => JsonValue::Number(JsonNumber::from_u64(*n)),
        }
    }

    /// Whether two values are the same.
    pub fn same(&self, other: &TagData) -> (r: bool)
        ensures
            r == (self@ == other@),
    {
        match (self, other) {
            (TagData::Text(a), TagData::Text(b)) => str_eq(a.as_str(), b.as_str()),
            (TagData::Number(a), TagData::Number(b)) => *a == *b,
            _ => false,
        }
    }
}

/// The map that a list of tag entries denotes.
pub open spec fn tags_map(e: Seq<(TagKey, TagData)>) -> Map<TagKey, TagDataView>
    decreases e.len(),
{
    if e.len() == 0 {
        Map::empty()
    } else {
        tags_map(e.drop_last()).insert(e.last().0, e.last().1@)
    }
}

/// No key occurs twice.
pub open spec fn keys_unique(e: Seq<(TagKey, TagData)>) -> bool {
    forall|i: int, j: int| 0 <= i < j < e.len() ==> (#[trigger] e[i]).0 != (#[trigger] e[j]).0
}

proof fn lemma_tags_map_entry(e: Seq<(TagKey, TagData)>, i: int)
    requires
        keys_unique(e),
        0 <= i < e.len(),
    ensures
        tags_map(e).contains_key(e[i].0),
        tags_map(e)[e[i].0] == e[i].1@,
    decreases e.len(),
{
    if i < e.len() - 1 {
        lemma_tags_map_entry(e.drop_last(), i);
        assert(e[i].0 != e[e.len() - 1].0);
    }
}

proof fn lemma_tags_map_absent(e: Seq<(TagKey, TagData)>, k: TagKey)
    requires
        forall|i: int| 0 <= i < e.len() ==> (#[trigger] e[i]).0 != k,
    ensures
        !tags_map(e).contains_key(k),
    decreases e.len(),
{
    if e.len() > 0 {
        lemma_tags_map_absent(e.drop_last(), k);
    }
}

proof fn lemma_tags_map_update(e: Seq<(TagKey, TagData)>, j: int, d: TagData)
    requires
        keys_unique(e),
        0 <= j < e.len(),
    ensures
        tags_map(e.update(j, (e[j].0, d))) == tags_map(e).insert(e[j].0, d@),
    decreases e.len(),
{
    let u = e.update(j, (e[j].0, d));
    if j == e.len() - 1 {
        assert(u.drop_last() =~= e.drop_last());
        assert(tags_map(u) =~= tags_map(e).insert(e[j].0, d@));
    } else {
        lemma_tags_map_update(e.drop_last(), j, d);
        assert(u.drop_last() =~= e.drop_last().update(j, (e[j].0, d)));
        assert(e[j].0 != e.last().0);
        assert(tags_map(u) =~= tags_map(e).insert(e[j].0, d@));
    }
}

/// The tags kept from a list of tags read from a file: the first value of
/// each known standard tag, as text; tags without a known key are skipped.
pub open spec fn first_tags(t: Seq<(Option<StandardTagKey>, String)>) -> Map<TagKey, TagDataView>
    decreases t.len(),
{
    if t.len() == 0 {
        Map::empty()
    } else {
        let m = first_tags(t.drop_last());
        match t.last().0 {
            Some(k) => if m.contains_key(TagKey::Standard(k)) {
                m
            } else {
                m.insert(TagKey::Standard(k), TagDataView::Text(t.last().1@))
            },
            None => m,
        }
    }
}

/// The abstract value of the tags of one song.
pub struct SongMetadataView {
    pub items: Map<TagKey, TagDataView>,
    /// The absolute path of the file.
    pub uri: Seq<char>,
}

/// The tags of a file's metadata revision, if it has one; no tags and no
/// path otherwise.
pub open spec fn revision_view(tags: Option<Seq<(Option<StandardTagKey>, String)>>, uri: Seq<char>) -> SongMetadataView {
    match tags {
        Some(t) => SongMetadataView { items: first_tags(t), uri },
        None => SongMetadataView { items: Map::empty(), uri: Seq::empty() },
    }
}

/// Both sets of tags, those of `b` winning; the path of `a` unless it is
/// empty.
pub open spec fn merge_view(a: SongMetadataView, b: SongMetadataView) -> SongMetadataView {
    SongMetadataView {
        items: a.items.union_prefer_right(b.items),
        uri: if a.uri.len() == 0 {
            b.uri
        } else {
            a.uri
        },
    }
}

/// `m` with the value of `k` set to the number `n`, when there is one.
pub open spec fn with_number(m: Map<TagKey, TagDataView>, k: ExtendedTagKey, n: Option<u64>) -> Map<TagKey, TagDataView> {
    match n {
        Some(x) => m.insert(TagKey::Extended(k), TagDataView::Number(x)),
        None => m,
    }
}

/// The song passes every filter: it has the filter's tag, and the regex
/// matches in the tag's text.
pub open spec fn song_matches(s: SongMetadataView, filters: Seq<ParsedFilter>) -> bool {
    forall|i: int|
        0 <= i < filters.len() ==> s.items.contains_key((#[trigger] filters[i]).tag) && regex_matches(
            filters[i].regex@,
            data_text(s.items[filters[i].tag]),
        )
}

/// Every filter's regex compiles.
pub open spec fn filters_wf(filters: Seq<ParsedFilter>) -> bool {
    forall|i: int| 0 <= i < filters.len() ==> (#[trigger] filters[i]).wf()
}

/// The tags of one song and the absolute path of its file.
#[derive(Debug)]
pub struct SongMetadata {
    items: Vec<(TagKey, TagData)>,
    uri: String,
}

impl View for SongMetadata {
    type V = SongMetadataView;

    closed spec fn view(&self) -> SongMetadataView {
        SongMetadataView { items: tags_map(self.items@), uri: self.uri@ }
    }
}

impl Default for SongMetadata {
    /// No tags and an empty path.
    fn default() -> (r: SongMetadata)
        ensures
            r@.items == Map::<TagKey, TagDataView>::empty(),
            r@.uri == Seq::<char>::empty(),
    {
        let r = SongMetadata { items: Vec::new(), uri: String::new() };
        assert(r@.items =~= Map::<TagKey, TagDataView>::empty());
        r
    }
}

impl SongMetadata {
    #[verifier::type_invariant]
    closed spec fn inv(self) -> bool {
        keys_unique(self.items@)
    }

    /// The absolute path of the file.
    pub fn uri(&self) -> (r: &str)
        ensures
            r@ == self@.uri,
    {
        self.uri.as_str()
    }

    fn position(&self, k: &TagKey) -> (r: Option<usize>)
        ensures
            match r {
                Some(j) => j < self.items@.len() && self.items@[j as int].0 == *k,
                None => forall|i: int| 0 <= i < self.items@.len() ==> (#[trigger] self.items@[i]).0 != *k,
            },
    {
        let mut j: usize = 0;
        while j < self.items.len()
            invariant
                j <= self.items@.len(),
                forall|i: int| 0 <= i < j ==> (#[trigger] self.items@[i]).0 != *k,
            decreases self.items.len() - j,
        {
            if self.items[j].0 == *k {
                return Some(j);
            }
            j = j + 1;
        }
        None
    }

    /// The value of tag `k`, if the song has it.
    pub fn get(&self, k: &TagKey) -> (r: Option<&TagData>)
        ensures
            match r {
                Some(v) => self@.items.contains_key(*k) && self@.items[*k] == v@,
                None => !self@.items.contains_key(*k),
            },
    {
        proof {
            use_type_invariant(self);
        }
        match self.position(k) {
            Some(j) => {
                proof {
                    lemma_tags_map_entry(self.items@, j as int);
                }
                Some(&self.items[j].1)
            },
            None => {
                proof {
                    lemma_tags_map_absent(self.items@, *k);
                }
                None
            },
        }
    }

    /// Sets tag `k` to `d`, replacing its earlier value.
    pub fn insert(&mut self, k: TagKey, d: TagData)
        ensures
            final(self)@.items == old(self)@.items.insert(k, d@),
            final(self)@.uri == old(self)@.uri,
    {
        proof {
            use_type_invariant(&*self);
        }
        match self.position(&k) {
            Some(j) => {
                let ghost e = self.items@;
                proof {
                    lemma_tags_map_update(e, j as int, d);
                }
                let mut items = Vec::new();
                std::mem::swap(&mut items, &mut self.items);
                items.set(j, (k, d));
                assert(items@ == e.update(j as int, (e[j as int].0, d)));
                self.items = items;
            },
            None => {
                let ghost e = self.items@;
                let mut items = Vec::new();
                std::mem::swap(&mut items, &mut self.items);
                items.push((k, d));
                assert(items@.drop_last() =~= e);
                self.items = items;
            },
        }
    }

    /// The tags of one metadata revision of the file at `uri`: the first
    /// value of each known standard tag, as text.
    pub fn from_revision(tags: &Vec<(Option<StandardTagKey>, String)>, uri: &str) -> (r: SongMetadata)
        ensures
            r@.items == first_tags(tags@),
            r@.uri == uri@,
    {
        let mut out = SongMetadata { items: Vec::new(), uri: String::from_str(uri) };
        let mut i: usize = 0;
        assert(tags@.take(0) =~= Seq::<(Option<StandardTagKey>, String)>::empty());
        assert(out@.items =~= first_tags(tags@.take(0)));
        while i < tags.len()
            invariant
                i <= tags@.len(),
                out@.items == first_tags(tags@.take(i as int)),
                out@.uri == uri@,
            decreases tags.len() - i,
        {
            assert(tags@.take(i + 1).drop_last() =~= tags@.take(i as int));
            match tags[i].0 {
                Some(k) => {
                    let key = TagKey::Standard(k);
                    if out.get(&key).is_none() {
                        out.insert(key, TagData::Text(tags[i].1.clone()));
                    }
                },
                None => {},
            }
            i = i + 1;
        }
        assert(tags@.take(i as int) =~= tags@);
        out
    }

    /// Both sets of tags, those of `other` winning; the path of `self` unless
    /// it is empty.
    pub fn merge(self, other: SongMetadata) -> (r: SongMetadata)
        ensures
            r@ == merge_view(self@, other@),
    {
        proof {
            use_type_invariant(&other);
        }
        let ghost a = self@;
        let mut out = self;
        let n = other.items.len();
        let mut i: usize = 0;
        assert(other.items@.take(0) =~= Seq::<(TagKey, TagData)>::empty());
        assert(a.items.union_prefer_right(tags_map(other.items@.take(0))) =~= a.items);
        while i < n
            invariant
                n == other.items@.len(),
                i <= n,
                out@.items == a.items.union_prefer_right(tags_map(other.items@.take(i as int))),
                out@.uri == a.uri,
            decreases n - i,
        {
            assert(other.items@.take(i + 1).drop_last() =~= other.items@.take(i as int));
            let k = other.items[i].0;
            let d = other.items[i].1.copy();
            out.insert(k, d);
            assert(out@.items =~= a.items.union_prefer_right(tags_map(other.items@.take(i + 1))));
            i = i + 1;
        }
        assert(other.items@.take(n as int) =~= other.items@);
        if out.uri.as_str().unicode_len() == 0 {
            proof {
                use_type_invariant(&out);
            }
            out.uri = other.uri;
        }
        out
    }

    /// Whether the song passes every filter.
    pub fn matches(&self, filters: &Vec<ParsedFilter>) -> (r: bool)
        requires
            filters_wf(filters@),
        ensures
            r == song_matches(self@, filters@),
    {
        let mut i: usize = 0;
        while i < filters.len()
            invariant
                i <= filters@.len(),
                filters_wf(filters@),
                forall|j: int|
                    0 <= j < i ==> self@.items.contains_key((#[trigger] filters@[j]).tag) && regex_matches(
                        filters@[j].regex@,
                        data_text(self@.items[filters@[j].tag]),
                    ),
            decreases filters.len() - i,
        {
            assert(filters@[i as int].wf());
            match self.get(&filters[i].tag) {
                Some(v) => {
                    let text = v.to_text();
                    if !regex_is_match(filters[i].regex.as_str(), text.as_str()) {
                        return false;
                    }
                },
                None => {
                    return false;
                },
            }
            i = i + 1;
        }
        true
    }

    /// The tags of the song at `uri` (relative to `root` unless absolute),
    /// from what was read of its file: the tags of the container's current
    /// metadata revision and those found while probing (which win), whether
    /// it has an audio track, its duration in seconds and its size in bytes
    /// when known.
    pub fn try_new(
        uri: &str,
        root: &str,
        from_container: Option<Vec<(Option<StandardTagKey>, String)>>,
        from_probe: Option<Vec<(Option<StandardTagKey>, String)>>,
        has_track: bool,
        duration: Option<u64>,
        file_size: Option<u64>,
    ) -> (r: Result<SongMetadata, String>)
        ensures
            !has_track ==> (r matches Err(m) && m@ == "no audio track found in `"@ + uri@ + "`"@),
            has_track ==> (r matches Ok(d) && {
                let abs = absolute_path(uri@, root@);
                let c = revision_view(
                    match from_container {
                        Some(t) => Some(t@),
                        None => None,
                    },
                    abs,
                );
                let p = revision_view(
                    match from_probe {
                        Some(t) => Some(t@),
                        None => None,
                    },
                    abs,
                );
                let m = merge_view(c, p);
                &&& d@.uri == m.uri
                &&& d@.items == with_number(
                    with_number(m.items, ExtendedTagKey::Duration, duration),
                    ExtendedTagKey::FileSize,
                    file_size,
                )
            }),
    {
        let abs_path = to_absolute(uri, root);
        let c = match &from_container {
            Some(t) => SongMetadata::from_revision(t, abs_path.as_str()),
            None => SongMetadata::default(),
        };
        let p = match &from_probe {
            Some(t) => SongMetadata::from_revision(t, abs_path.as_str()),
            None => SongMetadata::default(),
        };
        let mut data = c.merge(p);
        if !has_track {
            let mut m = String::from_str("no audio track found in `");
            push_str(&mut m, uri);
            push_str(&mut m, "`");
            return Err(m);
        }
        match duration {
            Some(n) => data.insert(TagKey::Extended(ExtendedTagKey::Duration), TagData::Number(n)),
            None => {},
        }
        match file_size {
            Some(n) => data.insert(TagKey::Extended(ExtendedTagKey::FileSize), TagData::Number(n)),
            None => {},
        }
        Ok(data)
    }

    /// The cover art as base64 text: the first picture of the container's
    /// current metadata revision, or else the first one found while probing.
    /// Decoding the text gives the picture's bytes back.
    pub fn cover_art(from_container: Option<Vec<u8>>, from_probe: Option<Vec<u8>>) -> (r: Result<String, String>)
        ensures
            match (from_container, from_probe) {
                (Some(img), _) => r matches Ok(s) && s@ == base64_encoded(img@) && (base64_decoded(s@) matches Ok(b)
                    && b == img@),
                (None, Some(img)) => r matches Ok(s) && s@ == base64_encoded(img@) && (base64_decoded(s@) matches Ok(b)
                    && b == img@),
                (None, None) => r matches Err(m) && m@ == "no cover art found"@,
            },
    {
        let image = match from_container {
            Some(img) => img,
            None => match from_probe {
                Some(img) => img,
                None => return Err(String::from_str("no cover art found")),
            },
        };
        Ok(base64_encode(image.as_slice()))
    }
}

} // verus!
