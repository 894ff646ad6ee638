//! The table of songs, keyed by their path under the music root and kept in
//! path order, with the `metadata` and `select` queries.

use vstd::prelude::*;
use vstd::string::StringSliceAdditionalSpecFns;
use vstd::utf8::encode_utf8;

use crate::common::json::{is_string_of, map_get, JsonObject, JsonValue};
use crate::common::net::request::{RawMetadataArgs, RawSelectArgs};
use crate::common::net::response::{is_err_items, ok_items, Response};
use crate::db::request::{
    metadata_args_error, metadata_args_parsed, names_ok, select_args_error, select_args_ok,
    select_args_parsed, ParsedMetadataArgs, ParsedSelectArgs,
};
use crate::db::song_metadata::{
    filters_wf, json_is_opt_data, song_matches, SongMetadata, SongMetadataView, TagData,
    TagDataView,
};
use crate::db::filter::ParsedFilter;
use crate::db::tag::{tag_key_name, TagKey};
use crate::text::{
    compare_paths, lemma_lex_order_trans, lemma_path_order_equal, path_order, path_ranks,
    push_str, str_eq, Order3,
};

verus! {

broadcast use vstd::seq_lib::group_seq_properties, vstd::map::group_map_axioms;

/// A change of the table, for the clients that subscribed to updates.
#[derive(Debug)]
pub enum DbEvent {
    Create { uri: String },
    Modify { uri: String },
    Remove { uri: String },
}

/// Order of song paths: by their UTF-8 bytes, the separator lowest.
pub open spec fn uri_order(a: Seq<char>, b: Seq<char>) -> Order3 {
    path_order(encode_utf8(a), encode_utf8(b))
}

proof fn lemma_uri_order(a: Seq<char>, b: Seq<char>)
    ensures
        uri_order(a, b) == Order3::Equal <==> a == b,
        uri_order(a, b) == Order3::Less <==> uri_order(b, a) == Order3::Greater,
{
    lemma_path_order_equal(encode_utf8(a), encode_utf8(b));
    if encode_utf8(a) == encode_utf8(b) {
        vstd::utf8::encode_utf8_decode_utf8(a);
        vstd::utf8::encode_utf8_decode_utf8(b);
    }
}

proof fn lemma_uri_order_trans(a: Seq<char>, b: Seq<char>, c: Seq<char>)
    requires
        uri_order(a, b) == Order3::Less,
        uri_order(b, c) == Order3::Less,
    ensures
        uri_order(a, c) == Order3::Less,
{
    lemma_lex_order_trans(
        path_ranks(encode_utf8(a)),
        path_ranks(encode_utf8(b)),
        path_ranks(encode_utf8(c)),
    );
}

/// A song of the table: its path and its tags.
pub open spec fn entry_view(e: (String, SongMetadata)) -> (Seq<char>, SongMetadataView) {
    (e.0@, e.1@)
}

/// The paths are in strictly increasing order.
pub open spec fn sorted_uris(e: Seq<(Seq<char>, SongMetadataView)>) -> bool {
    forall|i: int, j: int|
        0 <= i < j < e.len() ==> uri_order((#[trigger] e[i]).0, (#[trigger] e[j]).0) == Order3::Less
}

/// No path occurs twice.
pub open spec fn distinct_paths(e: Seq<(Seq<char>, SongMetadataView)>) -> bool {
    forall|i: int, j: int| 0 <= i < j < e.len() ==> (#[trigger] e[i]).0 != (#[trigger] e[j]).0
}

proof fn lemma_sorted_distinct(e: Seq<(Seq<char>, SongMetadataView)>)
    requires
        sorted_uris(e),
    ensures
        distinct_paths(e),
{
    assert forall|i: int, j: int| 0 <= i < j < e.len() implies (#[trigger] e[i]).0 != (#[trigger] e[j]).0 by {
        lemma_uri_order(e[i].0, e[j].0);
    }
}

/// The map from paths to tags that a list of songs denotes, a later song
/// replacing an earlier one with the same path.
pub open spec fn table_of(e: Seq<(Seq<char>, SongMetadataView)>) -> Map<Seq<char>, SongMetadataView>
    decreases e.len(),
{
    if e.len() == 0 {
        Map::empty()
    } else {
        table_of(e.drop_last()).insert(e.last().0, e.last().1)
    }
}

/// No path occurs twice.
pub open spec fn uris_unique(e: Seq<(Seq<char>, SongMetadataView)>) -> bool {
    forall|i: int, j: int| 0 <= i < j < e.len() ==> (#[trigger] e[i]).0 != (#[trigger] e[j]).0
}

proof fn lemma_sorted_unique(e: Seq<(Seq<char>, SongMetadataView)>)
    requires
        sorted_uris(e),
    ensures
        uris_unique(e),
{
    assert forall|i: int, j: int| 0 <= i < j < e.len() implies (#[trigger] e[i]).0 != (#[trigger] e[j]).0 by {
        lemma_uri_order(e[i].0, e[j].0);
    }
}

proof fn lemma_table_entry(e: Seq<(Seq<char>, SongMetadataView)>, i: int)
    requires
        uris_unique(e),
        0 <= i < e.len(),
    ensures
        table_of(e).contains_key(e[i].0),
        table_of(e)[e[i].0] == e[i].1,
    decreases e.len(),
{
    if i < e.len() - 1 {
        lemma_table_entry(e.drop_last(), i);
        assert(e[i].0 != e[e.len() - 1].0);
    }
}

proof fn lemma_table_absent(e: Seq<(Seq<char>, SongMetadataView)>, u: Seq<char>)
    requires
        forall|i: int| 0 <= i < e.len() ==> (#[trigger] e[i]).0 != u,
    ensures
        !table_of(e).contains_key(u),
    decreases e.len(),
{
    if e.len() > 0 {
        lemma_table_absent(e.drop_last(), u);
    }
}

proof fn lemma_table_update(e: Seq<(Seq<char>, SongMetadataView)>, i: int, x: (Seq<char>, SongMetadataView))
    requires
        uris_unique(e),
        0 <= i < e.len(),
        e[i].0 == x.0,
    ensures
        table_of(e.update(i, x)) == table_of(e).insert(x.0, x.1),
    decreases e.len(),
{
    let f = e.update(i, x);
    if i == e.len() - 1 {
        assert(f.drop_last() =~= e.drop_last());
        assert(table_of(f) =~= table_of(e).insert(x.0, x.1));
    } else {
        lemma_table_update(e.drop_last(), i, x);
        assert(f.drop_last() =~= e.drop_last().update(i, x));
        assert(e[i].0 != e.last().0);
        assert(table_of(f) =~= table_of(e).insert(x.0, x.1));
    }
}

proof fn lemma_table_insert(e: Seq<(Seq<char>, SongMetadataView)>, i: int, x: (Seq<char>, SongMetadataView))
    requires
        0 <= i <= e.len(),
        forall|j: int| 0 <= j < e.len() ==> (#[trigger] e[j]).0 != x.0,
    ensures
        table_of(e.insert(i, x)) == table_of(e).insert(x.0, x.1),
    decreases e.len(),
{
    let f = e.insert(i, x);
    if i == e.len() {
        assert(f.drop_last() =~= e);
    } else {
        lemma_table_insert(e.drop_last(), i, x);
        assert(f.drop_last() =~= e.drop_last().insert(i, x));
        assert(f.last() == e.last());
        assert(e.last().0 != x.0);
        assert(table_of(f) =~= table_of(e).insert(x.0, x.1));
    }
}

proof fn lemma_table_remove(e: Seq<(Seq<char>, SongMetadataView)>, i: int)
    requires
        uris_unique(e),
        0 <= i < e.len(),
    ensures
        table_of(e.remove(i)) == table_of(e).remove(e[i].0),
    decreases e.len(),
{
    let f = e.remove(i);
    let k = e[i].0;
    if i == e.len() - 1 {
        assert(f =~= e.drop_last());
        assert forall|j: int| 0 <= j < f.len() implies (#[trigger] f[j]).0 != k by {
            assert(f[j] == e[j]);
        }
        lemma_table_absent(f, k);
        assert(table_of(f) =~= table_of(e).remove(k));
    } else {
        lemma_table_remove(e.drop_last(), i);
        assert(f.drop_last() =~= e.drop_last().remove(i));
        assert(f.last() == e.last());
        assert(e.last().0 != k);
        assert(table_of(f) =~= table_of(e).remove(k));
    }
}

proof fn lemma_sorted_insert(e: Seq<(Seq<char>, SongMetadataView)>, i: int, x: (Seq<char>, SongMetadataView))
    requires
        sorted_uris(e),
        0 <= i <= e.len(),
        forall|j: int| 0 <= j < i ==> uri_order((#[trigger] e[j]).0, x.0) == Order3::Less,
        i < e.len() ==> uri_order(x.0, e[i].0) == Order3::Less,
    ensures
        sorted_uris(e.insert(i, x)),
        forall|j: int| 0 <= j < e.len() ==> (#[trigger] e[j]).0 != x.0,
{
    let f = e.insert(i, x);
    assert forall|j: int| i < j < e.len() implies uri_order(x.0, (#[trigger] e[j]).0) == Order3::Less by {
        lemma_uri_order_trans(x.0, e[i].0, e[j].0);
    }
    assert forall|a: int, b: int| 0 <= a < b < f.len() implies uri_order(
        (#[trigger] f[a]).0,
        (#[trigger] f[b]).0,
    ) == Order3::Less by {
        if b < i {
            assert(f[a] == e[a] && f[b] == e[b]);
        } else if b == i {
            assert(f[a] == e[a]);
        } else if a < i {
            assert(f[a] == e[a] && f[b] == e[b - 1]);
            lemma_uri_order_trans(e[a].0, x.0, e[b - 1].0);
        } else if a == i {
            assert(f[b] == e[b - 1]);
        } else {
            assert(f[a] == e[a - 1] && f[b] == e[b - 1]);
        }
    }
    assert forall|j: int| 0 <= j < e.len() implies (#[trigger] e[j]).0 != x.0 by {
        if j < i {
            lemma_uri_order(e[j].0, x.0);
        } else {
            lemma_uri_order(x.0, e[j].0);
        }
    }
}

proof fn lemma_sorted_update(e: Seq<(Seq<char>, SongMetadataView)>, i: int, x: (Seq<char>, SongMetadataView))
    requires
        sorted_uris(e),
        0 <= i < e.len(),
        e[i].0 == x.0,
    ensures
        sorted_uris(e.update(i, x)),
{
    let f = e.update(i, x);
    assert forall|a: int, b: int| 0 <= a < b < f.len() implies uri_order(
        (#[trigger] f[a]).0,
        (#[trigger] f[b]).0,
    ) == Order3::Less by {
        assert(f[a].0 == e[a].0 && f[b].0 == e[b].0);
    }
}

proof fn lemma_sorted_remove(e: Seq<(Seq<char>, SongMetadataView)>, i: int)
    requires
        sorted_uris(e),
        0 <= i < e.len(),
    ensures
        sorted_uris(e.remove(i)),
{
    let f = e.remove(i);
    assert forall|a: int, b: int| 0 <= a < b < f.len() implies uri_order(
        (#[trigger] f[a]).0,
        (#[trigger] f[b]).0,
    ) == Order3::Less by {
        let a0 = if a < i { a } else { a + 1 };
        let b0 = if b < i { b } else { b + 1 };
        assert(f[a] == e[a0] && f[b] == e[b0]);
    }
}

/// The database: the songs under the music root, in path order.
#[derive(Debug)]
pub struct Db {
    table: Vec<(String, SongMetadata)>,
    music_root: String,
}

impl Db {
    #[verifier::type_invariant]
    closed spec fn inv(self) -> bool {
        sorted_uris(self.table@.map_values(|e: (String, SongMetadata)| entry_view(e)))
    }

    /// The songs in path order.
    pub closed spec fn entries(&self) -> Seq<(Seq<char>, SongMetadataView)> {
        self.table@.map_values(|e: (String, SongMetadata)| entry_view(e))
    }

    /// The songs by path.
    pub open spec fn table(&self) -> Map<Seq<char>, SongMetadataView> {
        table_of(self.entries())
    }

    /// The directory the paths are relative to.
    pub closed spec fn root(&self) -> Seq<char> {
        self.music_root@
    }

    /// The database of the given songs under `music_root`; a later song
    /// replaces an earlier one with the same path.
    pub fn new(music_root: &str, songs: Vec<(String, SongMetadata)>) -> (r: Db)
        ensures
            r.table() == table_of(songs@.map_values(|e: (String, SongMetadata)| entry_view(e))),
            r.root() == music_root@,
    {
        let ghost sv = songs@.map_values(|e: (String, SongMetadata)| entry_view(e));
        let mut db = Db { table: Vec::new(), music_root: String::from_str(music_root) };
        assert(db.table() =~= Map::<Seq<char>, SongMetadataView>::empty());
        let ghost n = songs@.len();
        assert(n == songs.len());
        let mut rest = songs;
        let mut i: usize = 0;
        assert(sv.take(0) =~= Seq::<(Seq<char>, SongMetadataView)>::empty());
        while rest.len() > 0
            invariant
                n == sv.len(),
                n <= usize::MAX,
                i + rest@.len() == n,
                forall|j: int| 0 <= j < rest@.len() ==> entry_view(#[trigger] rest@[j]) == sv[i + j],
                db.table() == table_of(sv.take(i as int)),
                db.root() == music_root@,
            decreases rest.len(),
        {
            let ghost before = rest@;
            let (uri, data) = rest.remove(0);
            assert(entry_view((uri, data)) == sv[i as int]);
            assert(sv.take(i + 1).drop_last() =~= sv.take(i as int));
            db.create(uri, data);
            proof {
                assert forall|j: int| 0 <= j < rest@.len() implies entry_view(#[trigger] rest@[j]) == sv[i + 1 + j] by {
                    assert(rest@[j] == before[j + 1]);
                }
            }
            i = i + 1;
        }
        assert(sv.take(n as int) =~= sv);
        db
    }

    /// The directory the paths are relative to.
    pub fn music_root(&self) -> (r: &str)
        ensures
            r@ == self.root(),
    {
        self.music_root.as_str()
    }

    /// Where `uri` is or would go: every song before it comes before `uri`,
    /// and the song there, if any, is `uri` itself or comes after it.
    fn position(&self, uri: &str) -> (r: (usize, bool))
        ensures
            r.0 <= self.entries().len(),
            forall|j: int| 0 <= j < r.0 ==> uri_order((#[trigger] self.entries()[j]).0, uri@) == Order3::Less,
            r.1 ==> r.0 < self.entries().len() && self.entries()[r.0 as int].0 == uri@,
            (!r.1 && r.0 < self.entries().len()) ==> uri_order(uri@, self.entries()[r.0 as int].0)
                == Order3::Less,
    {
        let mut i: usize = 0;
        while i < self.table.len()
            invariant
                i <= self.table@.len(),
                self.entries().len() == self.table@.len(),
                forall|j: int| 0 <= j < i ==> uri_order((#[trigger] self.entries()[j]).0, uri@) == Order3::Less,
            decreases self.table.len() - i,
        {
            let c = compare_paths(self.table[i].0.as_str(), uri);
            assert(self.entries()[i as int].0 == self.table@[i as int].0@);
            proof {
                lemma_uri_order(self.table@[i as int].0@, uri@);
                lemma_uri_order(uri@, self.table@[i as int].0@);
            }
            match c {
                Order3::Less => {},
                Order3::Equal => {
                    return (i, true);
                },
                Order3::Greater => {
                    return (i, false);
                },
            }
            i = i + 1;
        }
        (i, false)
    }

    /// The tags of the song at `uri`, if there is one.
    pub fn get(&self, uri: &str) -> (r: Option<&SongMetadata>)
        ensures
            match r {
                Some(s) => self.table().contains_key(uri@) && self.table()[uri@] == s@,
                None => !self.table().contains_key(uri@),
            },
    {
        proof {
            use_type_invariant(self);
        }
        let (i, found) = self.position(uri);
        if found {
            proof {
                lemma_sorted_unique(self.entries());
                lemma_table_entry(self.entries(), i as int);
            }
            Some(&self.table[i].1)
        } else {
            proof {
                assert forall|j: int| 0 <= j < self.entries().len() implies (#[trigger] self.entries()[j]).0
                    != uri@ by {
                    if j < i {
                        lemma_uri_order(self.entries()[j].0, uri@);
                    } else {
                        if i < j {
                            lemma_uri_order_trans(uri@, self.entries()[i as int].0, self.entries()[j].0);
                        }
                        lemma_uri_order(uri@, self.entries()[j].0);
                    }
                }
                lemma_table_absent(self.entries(), uri@);
            }
            None
        }
    }

    /// Adds the song at `uri` (replacing one already there); the event tells
    /// the subscribers.
    pub fn create(&mut self, uri: String, data: SongMetadata) -> (ev: DbEvent)
        ensures
            final(self).table() == old(self).table().insert(uri@, data@),
            final(self).root() == old(self).root(),
            ev matches DbEvent::Create { uri: u } && u@ == uri@,
    {
        proof {
            use_type_invariant(&*self);
        }
        let (i, found) = self.position(uri.as_str());
        let ev = DbEvent::Create { uri: uri.clone() };
        let ghost e = self.entries();
        let ghost x = (uri@, data@);
        let mut table = Vec::new();
        std::mem::swap(&mut table, &mut self.table);
        if found {
            proof {
                lemma_sorted_unique(e);
                lemma_sorted_update(e, i as int, x);
                lemma_table_update(e, i as int, x);
            }
            table.set(i, (uri, data));
            assert(table@.map_values(|e: (String, SongMetadata)| entry_view(e)) =~= e.update(i as int, x));
        } else {
            proof {
                lemma_sorted_insert(e, i as int, x);
                lemma_table_insert(e, i as int, x);
            }
            table.insert(i, (uri, data));
            assert(table@.map_values(|e: (String, SongMetadata)| entry_view(e)) =~= e.insert(i as int, x));
        }
        self.table = table;
        ev
    }

    /// Replaces the tags of the song at `uri`, if there is one; the event
    /// tells the subscribers in any case.
    pub fn modify(&mut self, uri: String, data: SongMetadata) -> (ev: DbEvent)
        ensures
            final(self).table() == if old(self).table().contains_key(uri@) {
                old(self).table().insert(uri@, data@)
            } else {
                old(self).table()
            },
            final(self).root() == old(self).root(),
            ev matches DbEvent::Modify { uri: u } && u@ == uri@,
    {
        proof {
            use_type_invariant(&*self);
        }
        let (i, found) = self.position(uri.as_str());
        let ev = DbEvent::Modify { uri: uri.clone() };
        if found {
            let ghost e = self.entries();
            let ghost x = (uri@, data@);
            let mut table = Vec::new();
            std::mem::swap(&mut table, &mut self.table);
            proof {
                lemma_sorted_unique(e);
                lemma_sorted_update(e, i as int, x);
                lemma_table_update(e, i as int, x);
                lemma_table_entry(e, i as int);
            }
            table.set(i, (uri, data));
            assert(table@.map_values(|e: (String, SongMetadata)| entry_view(e)) =~= e.update(i as int, x));
            self.table = table;
        } else {
            proof {
                let e = self.entries();
                assert forall|j: int| 0 <= j < e.len() implies (#[trigger] e[j]).0 != uri@ by {
                    if j < i {
                        lemma_uri_order(e[j].0, uri@);
                    } else {
                        if i < j {
                            lemma_uri_order_trans(uri@, e[i as int].0, e[j].0);
                        }
                        lemma_uri_order(uri@, e[j].0);
                    }
                }
                lemma_table_absent(e, uri@);
            }
        }
        ev
    }

    /// Removes the song at `uri`; the event is there only when there was one.
    pub fn remove(&mut self, uri: &str) -> (ev: Option<DbEvent>)
        ensures
            final(self).table() == old(self).table().remove(uri@),
            final(self).root() == old(self).root(),
            ev is Some <==> old(self).table().contains_key(uri@),
            ev matches Some(DbEvent::Remove { uri: u }) ==> u@ == uri@,
            ev matches Some(e) ==> e is Remove,
    {
        proof {
            use_type_invariant(&*self);
        }
        let (i, found) = self.position(uri);
        let ghost e = self.entries();
        if found {
            let mut table = Vec::new();
            std::mem::swap(&mut table, &mut self.table);
            proof {
                lemma_sorted_unique(e);
                lemma_sorted_remove(e, i as int);
                lemma_table_remove(e, i as int);
                lemma_table_entry(e, i as int);
            }
            let _removed = table.remove(i);
            assert(table@.map_values(|e: (String, SongMetadata)| entry_view(e)) =~= e.remove(i as int));
            self.table = table;
            Some(DbEvent::Remove { uri: String::from_str(uri) })
        } else {
            proof {
                assert forall|j: int| 0 <= j < e.len() implies (#[trigger] e[j]).0 != uri@ by {
                    if j < i {
                        lemma_uri_order(e[j].0, uri@);
                    } else {
                        if i < j {
                            lemma_uri_order_trans(uri@, e[i as int].0, e[j].0);
                        }
                        lemma_uri_order(uri@, e[j].0);
                    }
                }
                lemma_table_absent(e, uri@);
                assert(self.table().remove(uri@) =~= self.table());
            }
            None
        }
    }
}


/// The `metadata` answer for one song: an object with the requested tags in
/// order (`null` for those the song lacks), or `null` for an unknown song.
pub open spec fn metadata_json(v: JsonValue, song: Option<SongMetadataView>, tags: Seq<TagKey>) -> bool {
    match song {
        None => v is Null,
        Some(s) => v matches JsonValue::Object(o) && o.spec_entries().len() == tags.len() && forall|t: int|
            0 <= t < tags.len() ==> (#[trigger] o.spec_entries()[t]).0@ == tag_key_name(tags[t])
                && json_is_opt_data(o.spec_entries()[t].1, map_get(s.items, tags[t])),
    }
}

/// The items of a `metadata` answer: for each path, in order, the song's
/// values of `tags`, or `null` when there is no such song.
pub open spec fn metadata_answer(m: Map<Seq<char>, JsonValue>, table: Map<Seq<char>, SongMetadataView>, uris: Seq<String>, tags: Seq<TagKey>) -> bool {
    &&& m == ok_items().insert("metadata"@, m["metadata"@])
    &&& m["metadata"@] matches JsonValue::Array(a) && a@.len() == uris.len() && forall|i: int|
        0 <= i < a@.len() ==> metadata_json(#[trigger] a@[i], map_get(table, uris[i]@), tags)
}

/// A group of `select`: the values of the grouping tags, and the paths.
pub type SelectGroupView = (Seq<Option<TagDataView>>, Seq<Seq<char>>);

/// The values of the grouping tags of a song.
pub open spec fn ident_of(s: SongMetadataView, group_by: Seq<TagKey>) -> Seq<Option<TagDataView>> {
    group_by.map_values(|k: TagKey| map_get(s.items, k))
}

/// The last group with the given values, or -1.
pub open spec fn group_index(groups: Seq<SelectGroupView>, ident: Seq<Option<TagDataView>>) -> int
    decreases groups.len(),
{
    if groups.len() == 0 {
        -1
    } else if groups.last().0 == ident {
        groups.len() - 1
    } else {
        group_index(groups.drop_last(), ident)
    }
}

/// Adds the path to the group of its values, or opens a new group.
pub open spec fn add_to_group(groups: Seq<SelectGroupView>, ident: Seq<Option<TagDataView>>, uri: Seq<char>) -> Seq<SelectGroupView> {
    let j = group_index(groups, ident);
    if j >= 0 {
        groups.update(j, (ident, groups[j].1.push(uri)))
    } else {
        groups.push((ident, seq![uri]))
    }
}

/// The groups of `select`: the songs that pass every filter, in path order,
/// gathered by the values of the grouping tags; groups come in the order in
/// which their first song comes.
pub open spec fn select_groups(entries: Seq<(Seq<char>, SongMetadataView)>, filters: Seq<ParsedFilter>, group_by: Seq<TagKey>) -> Seq<SelectGroupView>
    decreases entries.len(),
{
    if entries.len() == 0 {
        Seq::empty()
    } else {
        let g = select_groups(entries.drop_last(), filters, group_by);
        let e = entries.last();
        if song_matches(e.1, filters) {
            add_to_group(g, ident_of(e.1, group_by), e.0)
        } else {
            g
        }
    }
}

/// The items of a `select` answer: one object per group.
pub open spec fn select_answer(m: Map<Seq<char>, JsonValue>, entries: Seq<(Seq<char>, SongMetadataView)>, filters: Seq<ParsedFilter>, group_by: Seq<TagKey>) -> bool {
    let g = select_groups(entries, filters, group_by);
    &&& m == ok_items().insert("values"@, m["values"@])
    &&& m["values"@] matches JsonValue::Array(a) && a@.len() == g.len() && forall|i: int|
        0 <= i < a@.len() ==> group_json(#[trigger] a@[i], g[i], group_by)
}

/// The `select` answer for one group: an object with the grouping tags in
/// order and then `uris`, the paths of the group.
pub open spec fn group_json(v: JsonValue, g: SelectGroupView, group_by: Seq<TagKey>) -> bool {
    v matches JsonValue::Object(o) && {
        let e = o.spec_entries();
        let n = group_by.len() as int;
        &&& e.len() == n + 1
        &&& forall|t: int|
            0 <= t < n ==> (#[trigger] e[t]).0@ == tag_key_name(group_by[t]) && json_is_opt_data(e[t].1, g.0[t])
        &&& e[n].0@ == "uris"@
        &&& e[n].1 matches JsonValue::Array(u) && u@.len() == g.1.len() && forall|k: int|
            0 <= k < g.1.len() ==> is_string_of(#[trigger] u@[k], g.1[k])
    }
}

pub open spec fn opt_data_view(o: Option<TagData>) -> Option<TagDataView> {
    match o {
        Some(d) => Some(d@),
        None => None,
    }
}

pub open spec fn ident_view(v: Seq<Option<TagData>>) -> Seq<Option<TagDataView>> {
    v.map_values(|o: Option<TagData>| opt_data_view(o))
}

pub open spec fn group_view(g: (Vec<Option<TagData>>, Vec<String>)) -> SelectGroupView {
    (ident_view(g.0@), g.1@.map_values(|s: String| s@))
}

fn copy_opt(o: &Option<TagData>) -> (r: Option<TagData>)
    ensures
        opt_data_view(r) == opt_data_view(*o),
{
    match o {
        Some(d) => Some(d.copy()),
        None => None,
    }
}

fn opt_json(o: &Option<TagData>) -> (r: JsonValue)
    ensures
        json_is_opt_data(r, opt_data_view(*o)),
{
    match o {
        Some(d) => d.to_json(),
        None => JsonValue::Null,
    }
}

fn same_opt(a: &Option<TagData>, b: &Option<TagData>) -> (r: bool)
    ensures
        r == (opt_data_view(*a) == opt_data_view(*b)),
{
    match (a, b) {
        (Some(x), Some(y)) => x.same(y),
        (None, None) => true,
        _ => false,
    }
}

fn same_ident(a: &Vec<Option<TagData>>, b: &Vec<Option<TagData>>) -> (r: bool)
    ensures
        r == (ident_view(a@) == ident_view(b@)),
{
    if a.len() != b.len() {
        assert(ident_view(a@).len() != ident_view(b@).len());
        return false;
    }
    let mut i: usize = 0;
    while i < a.len()
        invariant
            a.len() == b.len(),
            i <= a.len(),
            forall|j: int| 0 <= j < i ==> opt_data_view(#[trigger] a@[j]) == opt_data_view(b@[j]),
        decreases a.len() - i,
    {
        if !same_opt(&a[i], &b[i]) {
            assert(ident_view(a@)[i as int] != ident_view(b@)[i as int]);
            return false;
        }
        i = i + 1;
    }
    assert(ident_view(a@) =~= ident_view(b@));
    true
}

/// The values of the grouping tags of a song.
fn song_ident(song: &SongMetadata, group_by: &Vec<TagKey>) -> (r: Vec<Option<TagData>>)
    ensures
        ident_view(r@) == ident_of(song@, group_by@),
{
    let mut out: Vec<Option<TagData>> = Vec::new();
    let mut t: usize = 0;
    while t < group_by.len()
        invariant
            t <= group_by.len(),
            out.len() == t,
            forall|j: int| 0 <= j < t ==> opt_data_view(#[trigger] out@[j]) == map_get(song@.items, group_by@[j]),
        decreases group_by.len() - t,
    {
        let v = match song.get(&group_by[t]) {
            Some(d) => Some(d.copy()),
            None => None,
        };
        out.push(v);
        t = t + 1;
    }
    assert(ident_view(out@) =~= ident_of(song@, group_by@));
    out
}

proof fn lemma_group_index_prefix(g: Seq<SelectGroupView>, id: Seq<Option<TagDataView>>, j: int)
    requires
        0 <= j <= g.len(),
        forall|k: int| j <= k < g.len() ==> (#[trigger] g[k]).0 != id,
    ensures
        group_index(g, id) == group_index(g.take(j), id),
    decreases g.len() - j,
{
    if j < g.len() {
        lemma_group_index_prefix(g.drop_last(), id, j);
        assert(g.drop_last().take(j) =~= g.take(j));
    } else {
        assert(g.take(j) =~= g);
    }
}

proof fn lemma_group_index_range(g: Seq<SelectGroupView>, id: Seq<Option<TagDataView>>)
    ensures
        -1 <= group_index(g, id) < g.len(),
        group_index(g, id) >= 0 ==> g[group_index(g, id)].0 == id,
    decreases g.len(),
{
    if g.len() > 0 && g.last().0 != id {
        lemma_group_index_range(g.drop_last(), id);
    }
}

/// The group of `ident`, as `group_index` finds it.
fn find_group(groups: &Vec<(Vec<Option<TagData>>, Vec<String>)>, ident: &Vec<Option<TagData>>) -> (r: Option<usize>)
    ensures
        ({
            let gv = groups@.map_values(|g: (Vec<Option<TagData>>, Vec<String>)| group_view(g));
            match r {
                Some(j) => j as int == group_index(gv, ident_view(ident@)),
                None => group_index(gv, ident_view(ident@)) == -1,
            }
        }),
{
    let ghost gv = groups@.map_values(|g: (Vec<Option<TagData>>, Vec<String>)| group_view(g));
    let ghost id = ident_view(ident@);
    let mut j: usize = groups.len();
    while j > 0
        invariant
            j <= groups@.len(),
            gv == groups@.map_values(|g: (Vec<Option<TagData>>, Vec<String>)| group_view(g)),
            id == ident_view(ident@),
            forall|k: int| j <= k < gv.len() ==> (#[trigger] gv[k]).0 != id,
        decreases j,
    {
        assert(gv[j - 1].0 == ident_view(groups@[j - 1].0@));
        if same_ident(&groups[j - 1].0, ident) {
            proof {
                lemma_group_index_prefix(gv, id, j as int);
                assert(gv.take(j as int).last() == gv[j - 1]);
            }
            return Some(j - 1);
        }
        j = j - 1;
    }
    proof {
        lemma_group_index_prefix(gv, id, 0);
        assert(gv.take(0).len() == 0);
    }
    None
}

/// Some song among `entries` with path `u` passes the filters and has the
/// grouping values `ident`.
pub open spec fn selected_with(entries: Seq<(Seq<char>, SongMetadataView)>, filters: Seq<ParsedFilter>, group_by: Seq<TagKey>, ident: Seq<Option<TagDataView>>, u: Seq<char>) -> bool {
    exists|k: int|
        0 <= k < entries.len() && (#[trigger] entries[k]).0 == u && song_matches(entries[k].1, filters)
            && ident_of(entries[k].1, group_by) == ident
}

proof fn lemma_group_index_none(g: Seq<SelectGroupView>, id: Seq<Option<TagDataView>>)
    requires
        group_index(g, id) == -1,
    ensures
        forall|k: int| 0 <= k < g.len() ==> (#[trigger] g[k]).0 != id,
    decreases g.len(),
{
    if g.len() > 0 {
        lemma_group_index_none(g.drop_last(), id);
        assert forall|k: int| 0 <= k < g.len() implies (#[trigger] g[k]).0 != id by {
            if k < g.len() - 1 {
                assert(g[k] == g.drop_last()[k]);
            }
        }
    }
}

/// The groups of `select` have distinct grouping values; a path is in a
/// group exactly when a song with that path passes the filters and has the
/// group's values; and every song that passes the filters is in a group.
pub proof fn lemma_select_partition(entries: Seq<(Seq<char>, SongMetadataView)>, filters: Seq<ParsedFilter>, group_by: Seq<TagKey>)
    ensures
        ({
            let g = select_groups(entries, filters, group_by);
            &&& forall|a: int, b: int| 0 <= a < b < g.len() ==> (#[trigger] g[a]).0 != (#[trigger] g[b]).0
            &&& forall|a: int, u: Seq<char>|
                0 <= a < g.len() ==> (#[trigger] g[a].1.contains(u) <==> selected_with(
                    entries,
                    filters,
                    group_by,
                    g[a].0,
                    u,
                ))
            &&& forall|k: int|
                0 <= k < entries.len() && song_matches((#[trigger] entries[k]).1, filters) ==> exists|a: int|
                    0 <= a < g.len() && (#[trigger] g[a]).0 == ident_of(entries[k].1, group_by)
        }),
    decreases entries.len(),
{
    let g = select_groups(entries, filters, group_by);
    if entries.len() == 0 {
        return;
    }
    let d = entries.drop_last();
    let h = select_groups(d, filters, group_by);
    lemma_select_partition(d, filters, group_by);
    let e = entries.last();
    let n = entries.len() - 1;
    assert(entries[n] == e);
    assert forall|k: int| 0 <= k < n implies #[trigger] entries[k] == d[k] by {}
    let id = ident_of(e.1, group_by);
    if !song_matches(e.1, filters) {
        assert(g == h);
        assert forall|a: int, u: Seq<char>| 0 <= a < g.len() implies (#[trigger] g[a].1.contains(u)
            <==> selected_with(entries, filters, group_by, g[a].0, u)) by {
            if selected_with(entries, filters, group_by, g[a].0, u) {
                let k = choose|k: int|
                    0 <= k < entries.len() && (#[trigger] entries[k]).0 == u && song_matches(entries[k].1, filters)
                        && ident_of(entries[k].1, group_by) == g[a].0;
                assert(k < n);
                assert(d[k] == entries[k]);
                assert(selected_with(d, filters, group_by, g[a].0, u));
            }
            if selected_with(d, filters, group_by, g[a].0, u) {
                let k = choose|k: int|
                    0 <= k < d.len() && (#[trigger] d[k]).0 == u && song_matches(d[k].1, filters)
                        && ident_of(d[k].1, group_by) == g[a].0;
                assert(entries[k] == d[k]);
            }
        }
        assert forall|k: int| 0 <= k < entries.len() && song_matches((#[trigger] entries[k]).1, filters) implies exists|a: int|
            0 <= a < g.len() && (#[trigger] g[a]).0 == ident_of(entries[k].1, group_by) by {
            assert(k < n);
            assert(d[k] == entries[k]);
        }
        return;
    }
    let j = group_index(h, id);
    lemma_group_index_range(h, id);
    if j >= 0 {
        assert(g == h.update(j, (id, h[j].1.push(e.0))));
        assert forall|a: int, b: int| 0 <= a < b < g.len() implies (#[trigger] g[a]).0 != (#[trigger] g[b]).0 by {
            assert(g[a].0 == h[a].0 && g[b].0 == h[b].0);
            assert(h[a].0 != h[b].0);
        }
        assert forall|a: int, u: Seq<char>| 0 <= a < g.len() implies (#[trigger] g[a].1.contains(u)
            <==> selected_with(entries, filters, group_by, g[a].0, u)) by {
            assert(g[a].0 == h[a].0);
            if selected_with(entries, filters, group_by, g[a].0, u) {
                let k = choose|k: int|
                    0 <= k < entries.len() && (#[trigger] entries[k]).0 == u && song_matches(entries[k].1, filters)
                        && ident_of(entries[k].1, group_by) == g[a].0;
                if k < n {
                    assert(d[k] == entries[k]);
                    assert(selected_with(d, filters, group_by, h[a].0, u));
                    assert(h[a].1.contains(u));
                    if a == j {
                        assert(g[a].1 == h[a].1.push(e.0));
                        assert(g[a].1.contains(u));
                    }
                } else {
                    assert(k == n);
                    if a != j {
                        assert(h[a].0 == id);
                        if a < j {
                            assert(h[a].0 != h[j].0);
                        } else {
                            assert(h[j].0 != h[a].0);
                        }
                    }
                    assert(g[a].1 == h[j].1.push(e.0));
                    assert(g[a].1[g[a].1.len() - 1] == u);
                }
            }
            if g[a].1.contains(u) {
                if a == j {
                    assert(g[a].1 == h[a].1.push(e.0));
                    if u == e.0 {
                        assert(entries[n].0 == u);
                    } else {
                        assert(h[a].1.contains(u));
                        let k = choose|k: int|
                            0 <= k < d.len() && (#[trigger] d[k]).0 == u && song_matches(d[k].1, filters)
                                && ident_of(d[k].1, group_by) == h[a].0;
                        assert(entries[k] == d[k]);
                    }
                } else {
                    assert(g[a] == h[a]);
                    let k = choose|k: int|
                        0 <= k < d.len() && (#[trigger] d[k]).0 == u && song_matches(d[k].1, filters)
                            && ident_of(d[k].1, group_by) == h[a].0;
                    assert(entries[k] == d[k]);
                }
            }
        }
        assert forall|k: int| 0 <= k < entries.len() && song_matches((#[trigger] entries[k]).1, filters) implies exists|a: int|
            0 <= a < g.len() && (#[trigger] g[a]).0 == ident_of(entries[k].1, group_by) by {
            if k < n {
                assert(d[k] == entries[k]);
                let a = choose|a: int| 0 <= a < h.len() && (#[trigger] h[a]).0 == ident_of(d[k].1, group_by);
                assert(g[a].0 == h[a].0);
            } else {
                assert(g[j].0 == id);
            }
        }
    } else {
        lemma_group_index_none(h, id);
        assert(g == h.push((id, seq![e.0])));
        let m = h.len() as int;
        assert forall|a: int, b: int| 0 <= a < b < g.len() implies (#[trigger] g[a]).0 != (#[trigger] g[b]).0 by {
            if b < m {
                assert(g[a] == h[a] && g[b] == h[b]);
            } else {
                assert(g[a] == h[a]);
                assert(h[a].0 != id);
            }
        }
        assert forall|a: int, u: Seq<char>| 0 <= a < g.len() implies (#[trigger] g[a].1.contains(u)
            <==> selected_with(entries, filters, group_by, g[a].0, u)) by {
            if a < m {
                assert(g[a] == h[a]);
                if selected_with(entries, filters, group_by, g[a].0, u) {
                    let k = choose|k: int|
                        0 <= k < entries.len() && (#[trigger] entries[k]).0 == u && song_matches(entries[k].1, filters)
                            && ident_of(entries[k].1, group_by) == g[a].0;
                    if k == n {
                        assert(h[a].0 != id);
                    }
                    assert(d[k] == entries[k]);
                    assert(selected_with(d, filters, group_by, h[a].0, u));
                }
                if g[a].1.contains(u) {
                    let k = choose|k: int|
                        0 <= k < d.len() && (#[trigger] d[k]).0 == u && song_matches(d[k].1, filters)
                            && ident_of(d[k].1, group_by) == h[a].0;
                    assert(entries[k] == d[k]);
                }
            } else {
                assert(g[a] == (id, seq![e.0]));
                if selected_with(entries, filters, group_by, g[a].0, u) {
                    let k = choose|k: int|
                        0 <= k < entries.len() && (#[trigger] entries[k]).0 == u && song_matches(entries[k].1, filters)
                            && ident_of(entries[k].1, group_by) == g[a].0;
                    if k < n {
                        assert(d[k] == entries[k]);
                        let b = choose|b: int| 0 <= b < h.len() && (#[trigger] h[b]).0 == ident_of(d[k].1, group_by);
                        assert(h[b].0 != id);
                    }
                    assert(seq![e.0][0] == u);
                }
                if g[a].1.contains(u) {
                    assert(u == e.0);
                    assert(entries[n].0 == u);
                }
            }
        }
        assert forall|k: int| 0 <= k < entries.len() && song_matches((#[trigger] entries[k]).1, filters) implies exists|a: int|
            0 <= a < g.len() && (#[trigger] g[a]).0 == ident_of(entries[k].1, group_by) by {
            if k < n {
                assert(d[k] == entries[k]);
                let a = choose|a: int| 0 <= a < h.len() && (#[trigger] h[a]).0 == ident_of(d[k].1, group_by);
                assert(g[a] == h[a]);
            } else {
                assert(g[m].0 == id);
            }
        }
    }
}

impl Db {
    /// The `metadata` answer: for each requested path, in order, the values
    /// of the requested tags (`null` for missing ones), or `null` when there
    /// is no such song.
    pub fn metadata(&self, args: &ParsedMetadataArgs) -> (r: Response)
        ensures
            metadata_answer(r.items(), self.table(), args.uris@, args.tags@),
    {
        let mut results: Vec<JsonValue> = Vec::new();
        let mut i: usize = 0;
        while i < args.uris.len()
            invariant
                i <= args.uris@.len(),
                results@.len() == i,
                forall|j: int|
                    0 <= j < i ==> metadata_json(
                        #[trigger] results@[j],
                        map_get(self.table(), args.uris@[j]@),
                        args.tags@,
                    ),
            decreases args.uris.len() - i,
        {
            match self.get(args.uris[i].as_str()) {
                Some(song) => {
                    let mut o = JsonObject::new();
                    let mut t: usize = 0;
                    while t < args.tags.len()
                        invariant
                            t <= args.tags@.len(),
                            o.spec_entries().len() == t,
                            forall|k: int|
                                0 <= k < t ==> (#[trigger] o.spec_entries()[k]).0@ == tag_key_name(args.tags@[k])
                                    && json_is_opt_data(o.spec_entries()[k].1, map_get(song@.items, args.tags@[k])),
                        decreases args.tags.len() - t,
                    {
                        let v = match song.get(&args.tags[t]) {
                            Some(d) => d.to_json(),
                            None => JsonValue::Null,
                        };
                        o.insert(args.tags[t].to_string(), v);
                        t = t + 1;
                    }
                    results.push(JsonValue::Object(o));
                },
                None => {
                    results.push(JsonValue::Null);
                },
            }
            i = i + 1;
        }
        let r = Response::new_ok().with_item(String::from_str("metadata"), JsonValue::Array(results));
        assert(r.items() =~= ok_items().insert("metadata"@, r.items()["metadata"@]));
        r
    }

    /// The `select` answer: the songs that pass every filter, grouped by the
    /// values of the grouping tags (see `select_groups`).
    pub fn select(&self, args: &ParsedSelectArgs) -> (r: Response)
        requires
            filters_wf(args.filters@),
        ensures
            select_answer(r.items(), self.entries(), args.filters@, args.group_by@),
            sorted_uris(self.entries()),
            distinct_paths(self.entries()),
    {
        proof {
            use_type_invariant(self);
            lemma_sorted_distinct(self.entries());
        }
        let ghost ev = self.entries();
        let ghost fl = args.filters@;
        let ghost gb = args.group_by@;
        let mut groups: Vec<(Vec<Option<TagData>>, Vec<String>)> = Vec::new();
        let mut i: usize = 0;
        assert(ev.take(0) =~= Seq::<(Seq<char>, SongMetadataView)>::empty());
        assert(groups@.map_values(|g: (Vec<Option<TagData>>, Vec<String>)| group_view(g)) =~= Seq::<SelectGroupView>::empty());
        while i < self.table.len()
            invariant
                i <= self.table@.len(),
                ev == self.entries(),
                ev.len() == self.table@.len(),
                fl == args.filters@,
                gb == args.group_by@,
                filters_wf(fl),
                groups@.map_values(|g: (Vec<Option<TagData>>, Vec<String>)| group_view(g)) == select_groups(
                    ev.take(i as int),
                    fl,
                    gb,
                ),
                forall|k: int| 0 <= k < groups@.len() ==> (#[trigger] groups@[k]).0@.len() == gb.len(),
            decreases self.table.len() - i,
        {
            let ghost before = groups@.map_values(|g: (Vec<Option<TagData>>, Vec<String>)| group_view(g));
            assert(ev.take(i + 1).drop_last() =~= ev.take(i as int));
            assert(ev.take(i + 1).last() == ev[i as int]);
            assert(ev[i as int] == entry_view(self.table@[i as int]));
            let song = &self.table[i].1;
            if song.matches(&args.filters) {
                let ident = song_ident(song, &args.group_by);
                let uri = self.table[i].0.clone();
                match find_group(&groups, &ident) {
                    Some(j) => {
                        proof {
                            lemma_group_index_range(before, ident_view(ident@));
                        }
                        let ghost old_groups = groups@;
                        let (id, mut us) = groups.remove(j);
                        let ghost old_us = us@;
                        us.push(uri);
                        let ghost x = (id, us);
                        proof {
                            assert(before[j as int] == group_view(old_groups[j as int]));
                            assert(us@.map_values(|s: String| s@) =~= old_us.map_values(|s: String| s@).push(ev[i as int].0));
                            assert(group_view(x) == (ident_view(ident@), before[j as int].1.push(ev[i as int].0)));
                        }
                        groups.insert(j, (id, us));
                        proof {
                            assert(groups@ =~= old_groups.update(j as int, x));
                            let after = groups@.map_values(|g: (Vec<Option<TagData>>, Vec<String>)| group_view(g));
                            assert(after =~= before.update(j as int, (ident_view(ident@), before[j as int].1.push(ev[i as int].0))));
                        }
                    },
                    None => {
                        let mut us: Vec<String> = Vec::new();
                        us.push(uri);
                        proof {
                            assert(ident_view(ident@).len() == ident@.len());
                            assert(ident@.len() == gb.len());
                        }
                        groups.push((ident, us));
                        proof {
                            let after = groups@.map_values(|g: (Vec<Option<TagData>>, Vec<String>)| group_view(g));
                            assert(us@.map_values(|s: String| s@) =~= seq![ev[i as int].0]);
                            assert(after =~= before.push((ident_view(ident@), seq![ev[i as int].0])));
                        }
                    },
                }
            }
            i = i + 1;
        }
        assert(ev.take(i as int) =~= ev);
        let ghost gs = select_groups(ev, fl, gb);
        let mut values: Vec<JsonValue> = Vec::new();
        let mut g: usize = 0;
        while g < groups.len()
            invariant
                g <= groups@.len(),
                values@.len() == g,
                gb == args.group_by@,
                groups@.map_values(|x: (Vec<Option<TagData>>, Vec<String>)| group_view(x)) == gs,
                forall|k: int| 0 <= k < groups@.len() ==> (#[trigger] groups@[k]).0@.len() == gb.len(),
                forall|k: int| 0 <= k < g ==> group_json(#[trigger] values@[k], gs[k], gb),
            decreases groups.len() - g,
        {
            let mut o = JsonObject::new();
            let mut t: usize = 0;
            assert(gs[g as int] == group_view(groups@[g as int]));
            while t < args.group_by.len()
                invariant
                    t <= gb.len(),
                    gb == args.group_by@,
                    g < groups@.len(),
                    groups@[g as int].0@.len() == gb.len(),
                    o.spec_entries().len() == t,
                    forall|k: int|
                        0 <= k < t ==> (#[trigger] o.spec_entries()[k]).0@ == tag_key_name(gb[k])
                            && json_is_opt_data(o.spec_entries()[k].1, ident_view(groups@[g as int].0@)[k]),
                decreases gb.len() - t,
            {
                let v = opt_json(&groups[g].0[t]);
                o.insert(args.group_by[t].to_string(), v);
                t = t + 1;
            }
            let uris = JsonValue::from_strings(&groups[g].1);
            o.insert(String::from_str("uris"), uris);
            values.push(JsonValue::Object(o));
            g = g + 1;
        }
        let r = Response::new_ok().with_item(String::from_str("values"), JsonValue::Array(values));
        assert(r.items() =~= ok_items().insert("values"@, r.items()["values"@]));
        r
    }

    /// Answers `metadata`: the answer, or an argument error when a tag name
    /// is unknown.
    pub fn req_metadata(&self, raw: RawMetadataArgs) -> (r: Response)
        ensures
            names_ok(raw.tags@) ==> exists|p: ParsedMetadataArgs|
                metadata_args_parsed(raw, p) && metadata_answer(r.items(), self.table(), p.uris@, p.tags@),
            !names_ok(raw.tags@) ==> exists|m: Seq<char>|
                metadata_args_error(raw, m) && is_err_items(r.items(), "argument error ("@ + m + ")"@),
    {
        match ParsedMetadataArgs::try_from(raw) {
            Ok(args) => self.metadata(&args),
            Err(e) => Response::new_err(argument_error(e.as_str())),
        }
    }

    /// Answers `select`: the answer, or an argument error when a filter or a
    /// grouping tag is refused.
    pub fn req_select(&self, raw: RawSelectArgs) -> (r: Response)
        ensures
            select_args_ok(raw) ==> exists|p: ParsedSelectArgs|
                select_args_parsed(raw, p) && select_answer(r.items(), self.entries(), p.filters@, p.group_by@),
            !select_args_ok(raw) ==> exists|m: Seq<char>|
                select_args_error(raw, m) && is_err_items(r.items(), "argument error ("@ + m + ")"@),
            sorted_uris(self.entries()),
            distinct_paths(self.entries()),
    {
        proof {
            use_type_invariant(self);
            lemma_sorted_distinct(self.entries());
        }
        match ParsedSelectArgs::try_from(raw) {
            Ok(args) => self.select(&args),
            Err(e) => Response::new_err(argument_error(e.as_str())),
        }
    }
}

/// The reason of an argument error.
fn argument_error(e: &str) -> (r: String)
    ensures
        r@ == "argument error ("@ + e@ + ")"@,
{
    let mut r = String::from_str("argument error (");
    push_str(&mut r, e);
    push_str(&mut r, ")");
    r
}

} // verus!
