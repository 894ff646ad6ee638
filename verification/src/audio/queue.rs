//! The playback queue: an ordered list of song URIs, the current position in
//! it, and the playback mode. In random mode a pool of not-yet-played songs is
//! kept; the next song is drawn from it at random.

use vstd::prelude::*;

use crate::text::{decimal, push_decimal, push_str};
use rand::seq::IteratorRandom;

verus! {

broadcast use vstd::seq_lib::group_seq_properties, vstd::set_lib::group_set_properties;

/// Error returned when a position is outside of the queue.
#[derive(Debug, Clone, Copy, PartialEq, Eq, Structural)]
pub enum QueueError {
    OutOfBounds { index: usize, len: usize },
}

impl QueueError {
    pub open spec fn spec_message(&self) -> Seq<char> {
        match *self {
            QueueError::OutOfBounds { index, len } => "index "@ + decimal(index as nat)
                + " out of bounds (length: "@ + decimal(len as nat) + ")"@,
        }
    }

    /// The human-readable description of the error.
    pub fn message(&self) -> (s: String)
        ensures
            s@ == self.spec_message(),
    {
        match *self {
            QueueError::OutOfBounds { index, len } => {
                let mut s = String::new();
                push_str(&mut s, "index ");
                push_decimal(&mut s, index as u64);
                push_str(&mut s, " out of bounds (length: ");
                push_decimal(&mut s, len as u64);
                push_str(&mut s, ")");
                s
            },
        }
    }
}

/// How the next song is picked.
#[derive(Debug, Clone, Copy, PartialEq, Eq, Structural)]
pub enum QueueMode {
    /// Songs come one after another in the order of the queue.
    Sequential,
    /// The current song repeats until another one is picked by hand.
    Loop,
    /// Songs are drawn at random from a pool; when it empties out the
    /// position clears and the pool is refilled with the whole queue.
    Random,
    /// Playback ends after the current song.
    Single,
}

impl Default for QueueMode {
    fn default() -> (m: Self)
        ensures
            m == QueueMode::Sequential,
    {
        QueueMode::Sequential
    }
}

/// The abstract state of a queue.
pub struct QueueView {
    pub list: Seq<Seq<char>>,
    pub pos: Option<int>,
    pub mode: QueueMode,
    /// The pool of songs that random mode has not played yet.
    pub available: Set<Seq<char>>,
}

pub open spec fn uri_views(v: Seq<String>) -> Seq<Seq<char>> {
    v.map_values(|s: String| s@)
}

pub open spec fn opt_int(o: Option<usize>) -> Option<int> {
    match o {
        Some(p) => Some(p as int),
        None => None,
    }
}

/// What every reachable queue state satisfies.
pub open spec fn queue_inv(q: QueueView) -> bool {
    &&& (q.pos matches Some(p) ==> 0 <= p < q.list.len())
    &&& q.available.finite()
    &&& q.available.subset_of(q.list.to_set())
}

/// Position after a sequential step forward.
pub open spec fn seq_next_pos(list: Seq<Seq<char>>, pos: Option<int>) -> Option<int> {
    match pos {
        Some(p) => if p + 1 < list.len() {
            Some(p + 1)
        } else {
            None
        },
        None => if list.len() == 0 {
            None
        } else {
            Some(0)
        },
    }
}

/// Position after a step backward.
pub open spec fn prev_pos(list: Seq<Seq<char>>, pos: Option<int>) -> Option<int> {
    match pos {
        Some(p) => if p > 0 {
            Some(p - 1)
        } else {
            None
        },
        None => if list.len() == 0 {
            None
        } else {
            Some(list.len() - 1)
        },
    }
}

/// The pool random mode starts from: the current song and every song after it
/// (all of them when there is no current song).
pub open spec fn fresh_pool(list: Seq<Seq<char>>, pos: Option<int>) -> Set<Seq<char>> {
    let start = match pos {
        Some(p) => p,
        None => 0,
    };
    list.subrange(start, list.len() as int).to_set()
}

/// Position after a step forward in loop mode: the current song again; from
/// no position, the first song.
pub open spec fn loop_next_pos(list: Seq<Seq<char>>, pos: Option<int>) -> Option<int> {
    match pos {
        Some(p) => Some(p),
        None => seq_next_pos(list, None),
    }
}

/// Position after a step forward in single mode: playback ends after the
/// current song; from no position, the first song.
pub open spec fn single_next_pos(list: Seq<Seq<char>>, pos: Option<int>) -> Option<int> {
    match pos {
        Some(p) => None,
        None => seq_next_pos(list, None),
    }
}

/// One step forward in the queue's mode: the next position in sequential
/// mode, the same song in loop mode, the end of playback in single mode, a
/// random step in random mode.
pub open spec fn next_step(pre: QueueView, post: QueueView) -> bool {
    match pre.mode {
        QueueMode::Sequential => post == (QueueView { pos: seq_next_pos(pre.list, pre.pos), ..pre }),
        QueueMode::Loop => post == (QueueView { pos: loop_next_pos(pre.list, pre.pos), ..pre }),
        QueueMode::Single => post == (QueueView { pos: single_next_pos(pre.list, pre.pos), ..pre }),
        QueueMode::Random => random_next(pre, post),
    }
}

/// The list with the song at `from` moved to `to`.
pub open spec fn moved_list(list: Seq<Seq<char>>, from: int, to: int) -> Seq<Seq<char>> {
    list.remove(from).insert(to, list[from])
}

/// Where the current song is after the song at `from` moved to `to`: the
/// current song stays current.
pub open spec fn moved_pos(pos: Option<int>, from: int, to: int) -> Option<int> {
    match pos {
        Some(p) => if p == from {
            Some(to)
        } else if from < p && p <= to {
            Some(p - 1)
        } else if to <= p && p < from {
            Some(p + 1)
        } else {
            Some(p)
        },
        None => None,
    }
}

/// Moving a song keeps the queue's songs and the current song: the list
/// keeps its length and its songs (as a multiset), the moved song lands at
/// `to`, the other songs keep their order, and the position after the move
/// holds the song that was current before it.
pub proof fn lemma_move_keeps_current_song(list: Seq<Seq<char>>, from: int, to: int, pos: Option<int>)
    requires
        0 <= from < list.len(),
        0 <= to < list.len(),
        pos matches Some(p) ==> 0 <= p < list.len(),
    ensures
        moved_list(list, from, to).len() == list.len(),
        moved_list(list, from, to)[to] == list[from],
        moved_list(list, from, to).to_multiset() == list.to_multiset(),
        moved_list(list, from, to).remove(to) == list.remove(from),
        pos is None ==> moved_pos(pos, from, to) is None,
        pos matches Some(p) ==> (moved_pos(pos, from, to) matches Some(q) && 0 <= q < list.len()
            && moved_list(list, from, to)[q] == list[p]),
{
    let l = moved_list(list, from, to);
    let r = list.remove(from);
    assert(l == r.insert(to, list[from]));
    assert(l.remove(to) =~= r);
    assert(list =~= r.insert(from, list[from]));
    lemma_insert_multiset(r, from, list[from]);
    lemma_insert_multiset(r, to, list[from]);
    if let Some(p) = pos {
        let q = moved_pos(pos, from, to)->0;
        if p == from {
        } else if from < p && p <= to {
            assert(l[q] == r[p - 1]);
        } else if to <= p && p < from {
            assert(l[q] == r[p]);
        } else if p < from {
            assert(l[q] == r[p]);
        } else {
            assert(l[q] == r[p - 1]);
        }
    }
}

proof fn lemma_insert_multiset(s: Seq<Seq<char>>, i: int, x: Seq<char>)
    requires
        0 <= i <= s.len(),
    ensures
        s.insert(i, x).to_multiset() == s.to_multiset().insert(x),
{
    let a = s.subrange(0, i);
    let b = s.subrange(i, s.len() as int);
    let c = a.push(x);
    assert(s =~= a + b);
    assert(s.insert(i, x) =~= c + b);
    vstd::seq_lib::lemma_multiset_commutative(a, b);
    vstd::seq_lib::lemma_multiset_commutative(c, b);
    a.to_multiset_ensures();
}

/// Stepping forward then back in sequential order returns to the song one
/// started from, and stepping back then forward does too: the next position
/// of `p` is `p + 1` (none after the last song), the previous one is `p - 1`
/// (none before the first), and from no position forward starts at the first
/// song and back at the last.
pub proof fn lemma_next_prev_inverse(list: Seq<Seq<char>>, p: int)
    requires
        0 <= p < list.len(),
    ensures
        p + 1 < list.len() ==> seq_next_pos(list, Some(p)) == Some(p + 1),
        p + 1 == list.len() ==> seq_next_pos(list, Some(p)) is None,
        p > 0 ==> prev_pos(list, Some(p)) == Some(p - 1),
        p == 0 ==> prev_pos(list, Some(p)) is None,
        seq_next_pos(list, None) == Some(0int),
        prev_pos(list, None) == Some(list.len() - 1),
        p + 1 < list.len() ==> prev_pos(list, seq_next_pos(list, Some(p))) == Some(p),
        p > 0 ==> seq_next_pos(list, prev_pos(list, Some(p))) == Some(p),
{
}

/// The outcome of moving the song at `from` to `to`.
pub open spec fn move_result(list: Seq<Seq<char>>, from: usize, to: usize) -> Result<(), QueueError> {
    if from >= list.len() {
        Err(QueueError::OutOfBounds { index: from, len: list.len() as usize })
    } else if to >= list.len() {
        Err(QueueError::OutOfBounds { index: to, len: list.len() as usize })
    } else {
        Ok(())
    }
}

/// `i` is the first position of `u` in `list`.
pub open spec fn is_first_index(list: Seq<Seq<char>>, u: Seq<char>, i: int) -> bool {
    &&& 0 <= i < list.len()
    &&& list[i] == u
    &&& forall|j: int| 0 <= j < i ==> list[j] != u
}

/// One random step: a song is drawn from the pool, removed from it and becomes
/// current (at its first position in the list); when the pool is empty the
/// position is cleared and the pool refilled with the whole list.
pub open spec fn random_next(pre: QueueView, post: QueueView) -> bool {
    &&& post.list == pre.list
    &&& post.mode == pre.mode
    &&& if pre.available.is_empty() {
        &&& post.pos == None::<int>
        &&& post.available == pre.list.to_set()
    } else {
        exists|u: Seq<char>|
            #![trigger pre.available.remove(u)]
            {
                &&& pre.available.contains(u)
                &&& post.available == pre.available.remove(u)
                &&& post.pos matches Some(i) && is_first_index(pre.list, u, i)
            }
    }
}

/// What holds after `m` random steps taken from a pool of distinct songs of a
/// list without duplicates: the list is unchanged, every step so far landed on
/// a song of the first pool that has left the pool, no two steps landed on the
/// same position, and the pool has shrunk by exactly `m`.
pub open spec fn random_run_prefix(run: Seq<QueueView>, m: int) -> bool {
    let l = run[0].list;
    &&& run[m].list == l
    &&& run[m].available.finite()
    &&& run[m].available.subset_of(run[0].available)
    &&& run[m].available.len() + m == run[0].available.len()
    &&& forall|i: int|
        1 <= i <= m ==> (#[trigger] run[i].pos matches Some(p) && 0 <= p < l.len()
            && run[0].available.contains(l[p]) && !run[m].available.contains(l[p]))
    &&& forall|i: int, j: int| 1 <= i < j <= m ==> #[trigger] run[i].pos != #[trigger] run[j].pos
}

proof fn lemma_random_run_prefix(run: Seq<QueueView>, m: int)
    requires
        1 <= run.len(),
        0 <= m < run.len(),
        m <= run[0].available.len(),
        run[0].list.no_duplicates(),
        run[0].available.finite(),
        forall|k: int| 0 <= k < run.len() - 1 ==> random_next(#[trigger] run[k], run[k + 1]),
    ensures
        random_run_prefix(run, m),
    decreases m,
{
    broadcast use vstd::set::group_set_axioms;

    let l = run[0].list;
    if m > 0 {
        lemma_random_run_prefix(run, m - 1);
        let pre = run[m - 1];
        let post = run[m];
        assert(random_next(run[m - 1], run[m]));
        assert(!pre.available.is_empty()) by {
            if pre.available.is_empty() {
                assert(pre.available.len() == 0);
            }
        }
        let u = choose|u: Seq<char>|
            #![trigger pre.available.remove(u)]
            {
                &&& pre.available.contains(u)
                &&& post.available == pre.available.remove(u)
                &&& post.pos matches Some(i) && is_first_index(pre.list, u, i)
            };
        assert(post.available.len() == pre.available.len() - 1);
        assert forall|i: int|
            1 <= i <= m implies (#[trigger] run[i].pos matches Some(p) && 0 <= p < l.len()
                && run[0].available.contains(l[p]) && !run[m].available.contains(l[p])) by {
            if i < m {
                assert(run[i].pos matches Some(p) && 0 <= p < l.len() && !pre.available.contains(l[p]));
            }
        }
        assert forall|i: int, j: int| 1 <= i < j <= m implies #[trigger] run[i].pos
            != #[trigger] run[j].pos by {
            if j == m {
                assert(run[i].pos matches Some(p) && !pre.available.contains(l[p]));
                assert(run[i].pos matches Some(p) && l[p] != u);
            }
        }
    }
}

/// Random mode plays every song of its pool once before the position clears:
/// from a list without duplicates and a pool of `k` of its songs, each of the
/// first `k` random steps lands on a song of the pool, no two of them on the
/// same position, and the step after them clears the position and refills the
/// pool with the whole list.
pub proof fn lemma_random_pool_plays_each_song_once(run: Seq<QueueView>)
    requires
        1 <= run.len(),
        run[0].list.no_duplicates(),
        run[0].available.finite(),
        forall|k: int| 0 <= k < run.len() - 1 ==> random_next(#[trigger] run[k], run[k + 1]),
    ensures
        forall|i: int| 1 <= i < run.len() && i <= run[0].available.len() ==> (#[trigger] run[i].pos matches Some(p)
            && 0 <= p < run[0].list.len() && run[0].available.contains(run[0].list[p])),
        forall|i: int, j: int|
            1 <= i < j < run.len() && j <= run[0].available.len() ==> #[trigger] run[i].pos
                != #[trigger] run[j].pos,
        run.len() > run[0].available.len() + 1 ==> {
            let k = run[0].available.len() as int;
            &&& run[k + 1].pos is None
            &&& run[k + 1].available == run[0].list.to_set()
        },
{
    let n = run[0].available.len() as int;
    let last = if run.len() - 1 < n { run.len() - 1 } else { n };
    lemma_random_run_prefix(run, last);
    if run.len() > n + 1 {
        assert(random_next(run[n], run[n + 1]));
        assert(run[n].available.len() == 0);
        assert(run[n].available.is_empty());
    }
}

/// Random mode plays every song once before repeating: from a list without
/// duplicates, a pool holding the whole list and no current song, each of the
/// first `n` random steps (`n` songs) lands on a song, no two of them on the
/// same position, and the step after them clears the position.
pub proof fn lemma_random_mode_plays_each_song_once(run: Seq<QueueView>)
    requires
        1 <= run.len(),
        run[0].list.no_duplicates(),
        run[0].pos is None,
        run[0].available == run[0].list.to_set(),
        forall|k: int| 0 <= k < run.len() - 1 ==> random_next(#[trigger] run[k], run[k + 1]),
    ensures
        forall|i: int| 1 <= i < run.len() && i <= run[0].list.len() ==> #[trigger] run[i].pos is Some,
        forall|i: int, j: int|
            1 <= i < j < run.len() && j <= run[0].list.len() ==> #[trigger] run[i].pos
                != #[trigger] run[j].pos,
        run.len() > run[0].list.len() + 1 ==> run[run[0].list.len() as int + 1].pos is None,
{
    run[0].list.unique_seq_to_set();
    lemma_random_pool_plays_each_song_once(run);
}

/// Switching to random mode at position `p` plays the current song and every
/// song after it once, in some order, before the position clears: of the
/// `n - p` random steps that follow, each lands on a position in `p..n`, no two
/// on the same one, and the step after them clears the position.
pub proof fn lemma_random_mode_from_current(run: Seq<QueueView>, p: int)
    requires
        1 <= run.len(),
        run[0].list.no_duplicates(),
        0 <= p < run[0].list.len(),
        run[0].available == fresh_pool(run[0].list, Some(p)),
        forall|k: int| 0 <= k < run.len() - 1 ==> random_next(#[trigger] run[k], run[k + 1]),
    ensures
        forall|i: int| 1 <= i < run.len() && i <= run[0].list.len() - p ==> (#[trigger] run[i].pos matches Some(q)
            && p <= q < run[0].list.len()),
        forall|i: int, j: int|
            1 <= i < j < run.len() && j <= run[0].list.len() - p ==> #[trigger] run[i].pos
                != #[trigger] run[j].pos,
        run.len() > run[0].list.len() - p + 1 ==> run[run[0].list.len() - p + 1].pos is None,
{
    let l = run[0].list;
    let tail = l.subrange(p, l.len() as int);
    assert(tail.no_duplicates());
    tail.unique_seq_to_set();
    lemma_random_pool_plays_each_song_once(run);
    assert forall|i: int| 1 <= i < run.len() && i <= l.len() - p implies #[trigger] run[i].pos matches Some(q)
        && p <= q < l.len() by {
        assert(run[i].pos matches Some(q) && 0 <= q < l.len() && run[0].available.contains(l[q]));
        let q = run[i].pos->0;
        if q < p {
            assert(tail.contains(l[q]));
            let j = choose|j: int| 0 <= j < tail.len() && tail[j] == l[q];
            assert(l[p + j] == l[q]);
        }
    }
}

/// The ordered list of songs with the playback position and mode.
pub struct Queue {
    list: Vec<String>,
    pos: Option<usize>,
    mode: QueueMode,
    available: Vec<String>,
}

impl View for Queue {
    type V = QueueView;

    closed spec fn view(&self) -> QueueView {
        QueueView {
            list: uri_views(self.list@),
            pos: opt_int(self.pos),
            mode: self.mode,
            available: uri_views(self.available@).to_set(),
        }
    }
}

/// Chooses a uniformly random index below `n`, or nothing when `n` is zero
/// (`rand::seq::IteratorRandom::choose` on `0..n` with the thread-local
/// generator). The index drawn is not stated: only that it is below `n`.
#[verifier::external_body]
fn choose_index(n: usize) -> (r: Option<usize>)
    ensures
        r is None <==> n == 0,
        r matches Some(i) ==> i < n,
{
    (0..n).choose(&mut rand::rng())
}

/// Position of the first element of `v` whose text is `u`.
fn find_uri(v: &Vec<String>, u: &String) -> (r: Option<usize>)
    ensures
        match r {
            Some(i) => is_first_index(uri_views(v@), u@, i as int),
            None => !uri_views(v@).contains(u@),
        },
{
    let mut i: usize = 0;
    while i < v.len()
        invariant
            i <= v.len(),
            forall|j: int| 0 <= j < i ==> v@[j]@ != u@,
        decreases v.len() - i,
    {
        if v[i] == *u {
            return Some(i);
        }
        i = i + 1;
    }
    proof {
        assert forall|j: int| 0 <= j < uri_views(v@).len() implies uri_views(v@)[j] != u@ by {}
    }
    None
}

proof fn lemma_remove_no_dup(s: Seq<Seq<char>>, i: int)
    requires
        s.no_duplicates(),
        0 <= i < s.len(),
    ensures
        s.remove(i).no_duplicates(),
        s.remove(i).to_set() =~= s.to_set().remove(s[i]),
{
    let r = s.remove(i);
    assert forall|a: int, b: int| 0 <= a < r.len() && 0 <= b < r.len() && a != b implies r[a]
        != r[b] by {
        let sa = if a < i { a } else { a + 1 };
        let sb = if b < i { b } else { b + 1 };
        assert(r[a] == s[sa]);
        assert(r[b] == s[sb]);
    }
    assert forall|x: Seq<char>| r.to_set().contains(x) <==> s.to_set().remove(s[i]).contains(x) by {
        if r.to_set().contains(x) {
            let a = choose|a: int| 0 <= a < r.len() && r[a] == x;
            let sa = if a < i { a } else { a + 1 };
            assert(s[sa] == x);
            assert(sa != i);
        }
        if s.to_set().remove(s[i]).contains(x) {
            let b = choose|b: int| 0 <= b < s.len() && s[b] == x;
            assert(b != i);
            let rb = if b < i { b } else { b - 1 };
            assert(r[rb] == x);
        }
    }
}

/// Adds `u` to a duplicate-free pool (no change when it is already there).
fn pool_insert(pool: &mut Vec<String>, u: String)
    requires
        uri_views(old(pool)@).no_duplicates(),
    ensures
        uri_views(final(pool)@).no_duplicates(),
        uri_views(final(pool)@).to_set() == uri_views(old(pool)@).to_set().insert(u@),
        forall|x: Seq<char>|
            uri_views(final(pool)@).contains(x) ==> uri_views(old(pool)@).contains(x) || x == u@,
{
    match find_uri(pool, &u) {
        Some(_) => {
            assert(uri_views(pool@).to_set().insert(u@) =~= uri_views(pool@).to_set());
        },
        None => {
            let ghost before = uri_views(pool@);
            pool.push(u);
            assert(uri_views(pool@) =~= before.push(u@));
            assert(uri_views(pool@).to_set() =~= before.to_set().insert(u@));
        },
    }
}

/// Removes `u` from a duplicate-free pool (no change when it is absent).
fn pool_remove(pool: &mut Vec<String>, u: &String)
    requires
        uri_views(old(pool)@).no_duplicates(),
    ensures
        uri_views(final(pool)@).no_duplicates(),
        uri_views(final(pool)@).to_set() == uri_views(old(pool)@).to_set().remove(u@),
        forall|x: Seq<char>|
            uri_views(final(pool)@).contains(x) ==> uri_views(old(pool)@).contains(x),
{
    match find_uri(pool, u) {
        Some(i) => {
            let ghost before = uri_views(pool@);
            pool.remove(i);
            assert(uri_views(pool@) =~= before.remove(i as int));
            proof {
                lemma_remove_no_dup(before, i as int);
            }
        },
        None => {
            assert(uri_views(pool@).to_set().remove(u@) =~= uri_views(pool@).to_set());
        },
    }
}

impl Queue {
    /// The internal invariant: the position is inside the list, the pool has
    /// no duplicates and only holds songs of the list.
    pub closed spec fn wf(&self) -> bool {
        &&& (self.pos matches Some(p) ==> p < self.list.len())
        &&& uri_views(self.available@).no_duplicates()
        &&& forall|x: Seq<char>|
            uri_views(self.available@).contains(x) ==> uri_views(self.list@).contains(x)
    }

    pub proof fn lemma_wf_inv(&self)
        requires
            self.wf(),
        ensures
            queue_inv(self@),
    {
        let l = uri_views(self.list@);
        let a = uri_views(self.available@);
        assert forall|x: Seq<char>| a.to_set().contains(x) implies l.to_set().contains(x) by {
            assert(a.contains(x));
        }
    }

    /// An empty queue in sequential mode.
    pub fn new() -> (q: Self)
        ensures
            q.wf(),
            q@.list == Seq::<Seq<char>>::empty(),
            q@.pos == None::<int>,
            q@.mode == QueueMode::Sequential,
            q@.available == Set::<Seq<char>>::empty(),
    {
        let q = Queue { list: Vec::new(), pos: None, mode: QueueMode::Sequential, available: Vec::new() };
        assert(uri_views(q.available@).to_set() =~= Set::<Seq<char>>::empty());
        assert(uri_views(q.list@) =~= Seq::<Seq<char>>::empty());
        q
    }

    /// The songs in the queue, in order.
    pub fn list(&self) -> (r: &[String])
        ensures
            uri_views(r@) == self@.list,
    {
        self.list.as_slice()
    }

    /// A copy of the songs in the queue, in order.
    pub fn list_cloned(&self) -> (r: Vec<String>)
        ensures
            uri_views(r@) == self@.list,
    {
        let r = self.list.clone();
        assert(uri_views(r@) =~= uri_views(self.list@));
        r
    }

    /// The current song, if any.
    pub fn cur(&self) -> (r: Option<&str>)
        requires
            self.wf(),
        ensures
            match self@.pos {
                Some(p) => r matches Some(s) && s@ == self@.list[p],
                None => r is None,
            },
    {
        match self.pos {
            Some(p) => Some(self.list[p].as_str()),
            None => None,
        }
    }

    /// The current position, if any.
    pub fn pos(&self) -> (r: Option<usize>)
        ensures
            opt_int(r) == self@.pos,
    {
        self.pos
    }

    /// The playback mode.
    pub fn mode(&self) -> (r: QueueMode)
        ensures
            r == self@.mode,
    {
        self.mode
    }

    /// The song at position `pos`.
    pub fn get(&self, pos: usize) -> (r: Result<&str, QueueError>)
        ensures
            pos < self@.list.len() ==> (r matches Ok(s) && s@ == self@.list[pos as int]),
            pos >= self@.list.len() ==> r == Err::<&str, QueueError>(
                QueueError::OutOfBounds { index: pos, len: self@.list.len() as usize },
            ),
    {
        if pos < self.list.len() {
            Ok(self.list[pos].as_str())
        } else {
            Err(QueueError::OutOfBounds { index: pos, len: self.list.len() })
        }
    }

    /// Inserts `uri` at position `pos` (the end when `pos` is the length).
    /// The current position is not shifted. In random mode the song joins the
    /// pool.
    pub fn insert(&mut self, uri: String, pos: usize) -> (r: Result<(), QueueError>)
        requires
            old(self).wf(),
        ensures
            final(self).wf(),
            pos <= old(self)@.list.len() ==> {
                &&& r is Ok
                &&& final(self)@.list == old(self)@.list.insert(pos as int, uri@)
                &&& final(self)@.pos == old(self)@.pos
                &&& final(self)@.mode == old(self)@.mode
                &&& final(self)@.available == if old(self)@.mode == QueueMode::Random {
                    old(self)@.available.insert(uri@)
                } else {
                    old(self)@.available
                }
            },
            pos > old(self)@.list.len() ==> {
                &&& r == Err::<(), QueueError>(
                    QueueError::OutOfBounds { index: pos, len: old(self)@.list.len() as usize },
                )
                &&& final(self)@ == old(self)@
            },
    {
        let len = self.list.len();
        if pos > len {
            return Err(QueueError::OutOfBounds { index: pos, len });
        }
        let ghost old_list = uri_views(self.list@);
        let ghost old_avail = uri_views(self.available@);
        if self.mode == QueueMode::Random {
            pool_insert(&mut self.available, uri.clone());
        }
        if pos == len {
            self.list.push(uri);
        } else {
            self.list.insert(pos, uri);
        }
        assert(uri_views(self.list@) =~= old_list.insert(pos as int, uri@));
        proof {
            assert forall|x: Seq<char>| uri_views(self.available@).contains(x) implies uri_views(
                self.list@,
            ).contains(x) by {
                if x == uri@ {
                    assert(uri_views(self.list@)[pos as int] == x);
                } else {
                    assert(old_avail.contains(x));
                    let k = choose|k: int| 0 <= k < old_list.len() && old_list[k] == x;
                    let nk = if k < pos { k } else { k + 1 };
                    assert(uri_views(self.list@)[nk] == x);
                }
            }
        }
        Ok(())
    }

    /// Appends `uri` to the end of the queue. In random mode the song joins the
    /// pool.
    pub fn push(&mut self, uri: String)
        requires
            old(self).wf(),
        ensures
            final(self).wf(),
            final(self)@.list == old(self)@.list.push(uri@),
            final(self)@.pos == old(self)@.pos,
            final(self)@.mode == old(self)@.mode,
            final(self)@.available == if old(self)@.mode == QueueMode::Random {
                old(self)@.available.insert(uri@)
            } else {
                old(self)@.available
            },
    {
        let ghost old_list = uri_views(self.list@);
        let ghost old_avail = uri_views(self.available@);
        if self.mode == QueueMode::Random {
            pool_insert(&mut self.available, uri.clone());
        }
        self.list.push(uri);
        assert(uri_views(self.list@) =~= old_list.push(uri@));
        proof {
            assert forall|x: Seq<char>| uri_views(self.available@).contains(x) implies uri_views(
                self.list@,
            ).contains(x) by {
                if x == uri@ {
                    assert(uri_views(self.list@)[old_list.len() as int] == x);
                } else {
                    assert(old_avail.contains(x));
                    let k = choose|k: int| 0 <= k < old_list.len() && old_list[k] == x;
                    assert(uri_views(self.list@)[k] == x);
                }
            }
        }
    }

    /// Removes the song at position `pos`; it leaves the pool too. When the
    /// current position is at or after `pos` it steps back as `move_to_prev`
    /// does on the shortened list.
    pub fn remove(&mut self, pos: usize) -> (r: Result<(), QueueError>)
        requires
            old(self).wf(),
        ensures
            final(self).wf(),
            pos < old(self)@.list.len() ==> {
                &&& r is Ok
                &&& final(self)@.list == old(self)@.list.remove(pos as int)
                &&& final(self)@.available == old(self)@.available.remove(
                    old(self)@.list[pos as int],
                )
                &&& final(self)@.mode == old(self)@.mode
                &&& final(self)@.pos == match old(self)@.pos {
                    Some(p) => if p >= pos {
                        prev_pos(final(self)@.list, old(self)@.pos)
                    } else {
                        old(self)@.pos
                    },
                    None => None::<int>,
                }
            },
            pos >= old(self)@.list.len() ==> {
                &&& r == Err::<(), QueueError>(
                    QueueError::OutOfBounds { index: pos, len: old(self)@.list.len() as usize },
                )
                &&& final(self)@ == old(self)@
            },
            (r is Ok && old(self)@.pos is Some && old(self)@.pos->0 != pos) ==> (final(self)@.pos matches Some(q)
                && final(self)@.list[q] == old(self)@.list[old(self)@.pos->0]),
    {
        let len = self.list.len();
        if pos >= len {
            return Err(QueueError::OutOfBounds { index: pos, len });
        }
        let ghost old_list = uri_views(self.list@);
        let ghost old_avail = uri_views(self.available@);
        let removed_uri = self.list.remove(pos);
        assert(uri_views(self.list@) =~= old_list.remove(pos as int));
        pool_remove(&mut self.available, &removed_uri);
        proof {
            assert forall|x: Seq<char>| uri_views(self.available@).contains(x) implies uri_views(
                self.list@,
            ).contains(x) by {
                assert(old_avail.contains(x));
                assert(x != removed_uri@) by {
                    assert(!uri_views(self.available@).to_set().contains(removed_uri@));
                    assert(uri_views(self.available@).to_set().contains(x));
                }
                let k = choose|k: int| 0 <= k < old_list.len() && old_list[k] == x;
                assert(k != pos);
                let nk = if k < pos { k } else { k - 1 };
                assert(uri_views(self.list@)[nk] == x);
            }
        }
        match self.pos {
            Some(p) => {
                if p >= pos {
                    self.step_back();
                }
            },
            None => {},
        }
        Ok(())
    }

    /// Switches to sequential mode.
    pub fn set_mode_seq(&mut self)
        requires
            old(self).wf(),
        ensures
            final(self).wf(),
            final(self)@ == (QueueView { mode: QueueMode::Sequential, ..old(self)@ }),
    {
        self.mode = QueueMode::Sequential;
    }

    /// Switches to loop mode.
    pub fn set_mode_loop(&mut self)
        requires
            old(self).wf(),
        ensures
            final(self).wf(),
            final(self)@ == (QueueView { mode: QueueMode::Loop, ..old(self)@ }),
    {
        self.mode = QueueMode::Loop;
    }

    /// Switches to single mode.
    pub fn set_mode_single(&mut self)
        requires
            old(self).wf(),
        ensures
            final(self).wf(),
            final(self)@ == (QueueView { mode: QueueMode::Single, ..old(self)@ }),
    {
        self.mode = QueueMode::Single;
    }

    /// Empties the queue: no songs, no position, an empty pool; the mode
    /// stays.
    pub fn clear(&mut self)
        requires
            old(self).wf(),
        ensures
            final(self).wf(),
            final(self)@ == (QueueView {
                list: Seq::<Seq<char>>::empty(),
                pos: None,
                mode: old(self)@.mode,
                available: Set::<Seq<char>>::empty(),
            }),
    {
        self.list = Vec::new();
        self.pos = None;
        self.available = Vec::new();
        assert(uri_views(self.list@) =~= Seq::<Seq<char>>::empty());
        assert(uri_views(self.available@).to_set() =~= Set::<Seq<char>>::empty());
    }

    /// Moves the song at `from` to position `to`; the current song stays
    /// current. Both positions must be in the queue.
    pub fn move_pos(&mut self, from: usize, to: usize) -> (r: Result<(), QueueError>)
        requires
            old(self).wf(),
        ensures
            final(self).wf(),
            r == move_result(old(self)@.list, from, to),
            r is Ok ==> final(self)@ == (QueueView {
                list: moved_list(old(self)@.list, from as int, to as int),
                pos: moved_pos(old(self)@.pos, from as int, to as int),
                ..old(self)@
            }),
            r is Err ==> final(self)@ == old(self)@,
            r is Ok ==> final(self)@.list[to as int] == old(self)@.list[from as int],
            r is Ok ==> (old(self)@.pos matches Some(p) ==> (final(self)@.pos matches Some(q)
                && final(self)@.list[q] == old(self)@.list[p])),
    {
        proof {
            if from < old(self)@.list.len() && to < old(self)@.list.len() {
                lemma_move_keeps_current_song(old(self)@.list, from as int, to as int, old(self)@.pos);
            }
        }
        let len = self.list.len();
        if from >= len {
            return Err(QueueError::OutOfBounds { index: from, len });
        }
        if to >= len {
            return Err(QueueError::OutOfBounds { index: to, len });
        }
        let ghost old_list = uri_views(self.list@);
        let ghost old_avail = uri_views(self.available@);
        let uri = self.list.remove(from);
        self.list.insert(to, uri);
        assert(uri_views(self.list@) =~= moved_list(old_list, from as int, to as int));
        self.pos = match self.pos {
            Some(p) => if p == from {
                Some(to)
            } else if from < p && p <= to {
                Some(p - 1)
            } else if to <= p && p < from {
                Some(p + 1)
            } else {
                Some(p)
            },
            None => None,
        };
        proof {
            let nl = uri_views(self.list@);
            assert forall|x: Seq<char>| uri_views(self.available@).contains(x) implies nl.contains(x) by {
                assert(old_avail.contains(x));
                let k = choose|k: int| 0 <= k < old_list.len() && old_list[k] == x;
                if k == from {
                    assert(nl[to as int] == x);
                } else {
                    let k1 = if k < from { k } else { k - 1 };
                    assert(old_list.remove(from as int)[k1] == x);
                    let k2 = if k1 < to { k1 } else { k1 + 1 };
                    assert(nl[k2] == x);
                }
            }
        }
        Ok(())
    }

    /// Appends the songs in order and, when there are any, makes the first of
    /// them current. In random mode they join the pool.
    pub fn push_and_move_to(&mut self, uris: &Vec<String>)
        requires
            old(self).wf(),
        ensures
            final(self).wf(),
            final(self)@.list == old(self)@.list + uri_views(uris@),
            final(self)@.mode == old(self)@.mode,
            final(self)@.available == if old(self)@.mode == QueueMode::Random {
                old(self)@.available.union(uri_views(uris@).to_set())
            } else {
                old(self)@.available
            },
            final(self)@.pos == if uris.len() > 0 {
                Some(old(self)@.list.len() as int)
            } else {
                old(self)@.pos
            },
    {
        let ghost q0 = self@;
        let first = self.list.len();
        let mut i: usize = 0;
        while i < uris.len()
            invariant
                self.wf(),
                i <= uris@.len(),
                first == q0.list.len(),
                self@.list == q0.list + uri_views(uris@).take(i as int),
                self@.mode == q0.mode,
                self@.pos == q0.pos,
                self@.available == if q0.mode == QueueMode::Random {
                    q0.available.union(uri_views(uris@).take(i as int).to_set())
                } else {
                    q0.available
                },
            decreases uris.len() - i,
        {
            let ghost before = self@;
            self.push(uris[i].clone());
            proof {
                let t = uri_views(uris@).take(i as int);
                let t1 = uri_views(uris@).take(i + 1);
                assert(t1 =~= t.push(uris@[i as int]@));
                assert(self@.list =~= q0.list + t1);
                assert(t1.to_set() =~= t.to_set().insert(uris@[i as int]@));
                if q0.mode == QueueMode::Random {
                    assert(self@.available =~= q0.available.union(t1.to_set()));
                }
            }
            i = i + 1;
        }
        assert(uri_views(uris@).take(uris@.len() as int) =~= uri_views(uris@));
        if uris.len() > 0 {
            self.pos = Some(first);
        }
    }

    /// Switches to random mode and refills the pool with the current song and
    /// the songs after it.
    pub fn set_mode_random(&mut self)
        requires
            old(self).wf(),
        ensures
            final(self).wf(),
            final(self)@ == (QueueView {
                mode: QueueMode::Random,
                available: fresh_pool(old(self)@.list, old(self)@.pos),
                ..old(self)@
            }),
    {
        self.mode = QueueMode::Random;
        self.reinit_available();
    }

    /// Makes `pos` the current position.
    pub fn move_to(&mut self, pos: usize) -> (r: Result<(), QueueError>)
        requires
            old(self).wf(),
        ensures
            final(self).wf(),
            pos < old(self)@.list.len() ==> r is Ok && final(self)@ == (QueueView {
                pos: Some(pos as int),
                ..old(self)@
            }),
            pos >= old(self)@.list.len() ==> r == Err::<(), QueueError>(
                QueueError::OutOfBounds { index: pos, len: old(self)@.list.len() as usize },
            ) && final(self)@ == old(self)@,
    {
        if pos >= self.list.len() {
            return Err(QueueError::OutOfBounds { index: pos, len: self.list.len() });
        }
        self.pos = Some(pos);
        Ok(())
    }

    /// Clears the current position (playback stopped).
    pub fn stop(&mut self)
        requires
            old(self).wf(),
        ensures
            final(self).wf(),
            final(self)@ == (QueueView { pos: None, ..old(self)@ }),
    {
        self.pos = None;
    }

    /// Moves to the next song: the following one in sequential mode, the same
    /// one in loop mode, none in single mode (playback ends), a random one
    /// from the pool in random mode.
    pub fn move_to_next(&mut self)
        requires
            old(self).wf(),
        ensures
            final(self).wf(),
            next_step(old(self)@, final(self)@),
    {
        match self.mode {
            QueueMode::Sequential => self.move_to_next_seq(),
            QueueMode::Loop => {
                if self.pos.is_none() {
                    self.move_to_next_seq();
                }
            },
            QueueMode::Single => {
                if self.pos.is_some() {
                    self.pos = None;
                } else {
                    self.move_to_next_seq();
                }
            },
            QueueMode::Random => self.move_to_next_random(),
        }
    }

    /// Moves to the previous song; from no position it moves to the last song.
    pub fn move_to_prev(&mut self)
        requires
            old(self).wf(),
        ensures
            final(self).wf(),
            final(self)@ == (QueueView { pos: prev_pos(old(self)@.list, old(self)@.pos), ..old(self)@ }),
    {
        self.step_back();
    }

    /// `move_to_prev` on a state whose position may equal the length (right
    /// after a removal).
    fn step_back(&mut self)
        requires
            old(self).pos matches Some(p) ==> p <= old(self).list.len(),
            uri_views(old(self).available@).no_duplicates(),
            forall|x: Seq<char>|
                uri_views(old(self).available@).contains(x) ==> uri_views(old(self).list@).contains(x),
        ensures
            final(self).wf(),
            final(self)@ == (QueueView { pos: prev_pos(old(self)@.list, old(self)@.pos), ..old(self)@ }),
    {
        match self.pos {
            Some(pos) => {
                if pos > 0 {
                    self.pos = Some(pos - 1);
                } else {
                    self.pos = None;
                }
            },
            None => {
                self.pos = if self.list.len() == 0 {
                    None
                } else {
                    Some(self.list.len() - 1)
                };
            },
        }
    }

    fn move_to_next_seq(&mut self)
        requires
            old(self).wf(),
        ensures
            final(self).wf(),
            final(self)@ == (QueueView {
                pos: seq_next_pos(old(self)@.list, old(self)@.pos),
                ..old(self)@
            }),
    {
        match self.pos {
            Some(pos) => {
                if pos < self.list.len() - 1 {
                    self.pos = Some(pos + 1);
                } else {
                    self.pos = None;
                }
            },
            None => {
                self.pos = if self.list.len() == 0 {
                    None
                } else {
                    Some(0)
                };
            },
        }
    }

    fn move_to_next_random(&mut self)
        requires
            old(self).wf(),
        ensures
            final(self).wf(),
            random_next(old(self)@, final(self)@),
    {
        let ghost pre = self@;
        let ghost old_avail = uri_views(self.available@);
        let n = self.available.len();
        match choose_index(n) {
            None => {
                assert(old_avail.len() == 0);
                assert(old_avail.to_set() =~= Set::<Seq<char>>::empty());
                self.pos = None;
                self.reinit_available();
                assert(self@.list.subrange(0, self@.list.len() as int) =~= self@.list);
            },
            Some(i) => {
                let random_uri = self.available.remove(i);
                assert(uri_views(self.available@) =~= old_avail.remove(i as int));
                proof {
                    lemma_remove_no_dup(old_avail, i as int);
                    assert(old_avail.to_set().contains(random_uri@));
                    assert(!pre.available.is_empty()) by {
                        assert(pre.available.contains(random_uri@));
                    }
                }
                self.pos = find_uri(&self.list, &random_uri);
                proof {
                    assert(old_avail.contains(random_uri@));
                    assert(self.pos is Some);
                    assert(pre.available.remove(random_uri@) == self@.available);
                }
            },
        }
    }

    fn reinit_available(&mut self)
        requires
            old(self).pos matches Some(p) ==> p < old(self).list.len(),
        ensures
            final(self).wf(),
            final(self).list == old(self).list,
            final(self).pos == old(self).pos,
            final(self).mode == old(self).mode,
            final(self)@.available == fresh_pool(old(self)@.list, old(self)@.pos),
    {
        self.available.clear();
        let p: usize = match self.pos {
            Some(p) => p,
            None => 0,
        };
        let ghost l = uri_views(self.list@);
        let ghost list0 = self.list;
        let ghost pos0 = self.pos;
        let ghost mode0 = self.mode;
        let mut k: usize = p;
        assert(uri_views(self.available@) =~= Seq::<Seq<char>>::empty());
        assert(l.subrange(p as int, p as int) =~= Seq::<Seq<char>>::empty());
        while k < self.list.len()
            invariant
                p <= k <= self.list.len(),
                self.list == list0,
                self.pos == pos0,
                self.mode == mode0,
                pos0 matches Some(q) ==> q < list0.len() && p == q,
                pos0 is None ==> p == 0,
                l == uri_views(self.list@),
                uri_views(self.available@).no_duplicates(),
                uri_views(self.available@).to_set() == l.subrange(p as int, k as int).to_set(),
                forall|x: Seq<char>| uri_views(self.available@).contains(x) ==> l.contains(x),
            decreases self.list.len() - k,
        {
            let u = self.list[k].clone();
            let ghost before = uri_views(self.available@);
            pool_insert(&mut self.available, u);
            assert(l.subrange(p as int, k + 1) =~= l.subrange(p as int, k as int).push(l[k as int]));
            assert(l.subrange(p as int, k + 1).to_set() =~= l.subrange(p as int, k as int).to_set().insert(l[k as int]));
            proof {
                assert forall|x: Seq<char>| uri_views(self.available@).contains(x) implies l.contains(x) by {
                    if x == l[k as int] {
                    } else {
                        assert(before.contains(x));
                    }
                }
            }
            k = k + 1;
        }
    }
}

} // verus!
