//! Requests for the samples of a file that is being decoded: they wait until
//! the samples they ask for are there, and the one that needs the fewest
//! samples is served first.

use vstd::prelude::*;

use std::cmp::Ordering;

verus! {

/// A request for the samples `start..=end`; `id` tells who waits for them.
/// Requests are equal when they end at the same sample, as their order says.
#[derive(Clone, Copy, Debug)]
pub struct DecoderRequest {
    pub start: usize,
    pub end: usize,
    pub id: u64,
}

impl PartialEq for DecoderRequest {
    fn eq(&self, other: &DecoderRequest) -> (r: bool) {
        self.end == other.end
    }
}

impl vstd::std_specs::cmp::PartialEqSpecImpl for DecoderRequest {
    open spec fn obeys_eq_spec() -> bool {
        true
    }

    open spec fn eq_spec(&self, other: &DecoderRequest) -> bool {
        self.end == other.end
    }
}

impl Eq for DecoderRequest {}

/// The order of requests in the queue of waiting requests: the one with the
/// smaller end is the greater, so that it comes out first.
pub open spec fn request_order(a: DecoderRequest, b: DecoderRequest) -> Ordering {
    if a.end == b.end {
        Ordering::Equal
    } else if a.end < b.end {
        Ordering::Greater
    } else {
        Ordering::Less
    }
}

impl DecoderRequest {
    /// Compares by end, reversed.
    pub fn cmp(&self, other: &DecoderRequest) -> (r: Ordering)
        ensures
            r == request_order(*self, *other),
    {
        if self.end == other.end {
            Ordering::Equal
        } else if self.end < other.end {
            Ordering::Greater
        } else {
            Ordering::Less
        }
    }
}

/// `r` is the request of `s` at `i`, and no request of `s` ends before it.
pub open spec fn is_first_due(s: Seq<DecoderRequest>, i: int) -> bool {
    &&& 0 <= i < s.len()
    &&& forall|j: int| 0 <= j < s.len() ==> s[i].end <= (#[trigger] s[j]).end
}

/// The requests waiting for samples.
pub struct PendingRequests {
    reqs: Vec<DecoderRequest>,
}

impl View for PendingRequests {
    type V = Seq<DecoderRequest>;

    closed spec fn view(&self) -> Seq<DecoderRequest> {
        self.reqs@
    }
}

impl PendingRequests {
    /// No request waits.
    pub fn new() -> (r: PendingRequests)
        ensures
            r@ == Seq::<DecoderRequest>::empty(),
    {
        PendingRequests { reqs: Vec::new() }
    }

    /// How many requests wait.
    pub fn len(&self) -> (r: usize)
        ensures
            r == self@.len(),
    {
        self.reqs.len()
    }

    /// Adds a waiting request.
    pub fn push(&mut self, req: DecoderRequest)
        ensures
            final(self)@ == old(self)@.push(req),
    {
        self.reqs.push(req);
    }

    /// Takes out the request that needs the fewest samples, when its samples
    /// are all there among the `n_samples` decoded; otherwise nothing changes.
    pub fn pop_ready(&mut self, n_samples: usize) -> (r: Option<DecoderRequest>)
        ensures
            match r {
                Some(q) => q.end < n_samples && (forall|j: int|
                    0 <= j < old(self)@.len() ==> q.end <= (#[trigger] old(self)@[j]).end) && exists|i: int|
                    0 <= i < old(self)@.len() && old(self)@[i] == q && final(self)@ == old(self)@.remove(i),
                None => final(self)@ == old(self)@ && forall|i: int|
                    is_first_due(old(self)@, i) ==> old(self)@[i].end >= n_samples,
            },
    {
        if self.reqs.len() == 0 {
            return None;
        }
        let mut best: usize = 0;
        let mut i: usize = 1;
        while i < self.reqs.len()
            invariant
                1 <= i <= self.reqs@.len(),
                best < i,
                forall|j: int| 0 <= j < i ==> self.reqs@[best as int].end <= (#[trigger] self.reqs@[j]).end,
            decreases self.reqs.len() - i,
        {
            if self.reqs[i].end < self.reqs[best].end {
                best = i;
            }
            i = i + 1;
        }
        assert(is_first_due(self.reqs@, best as int));
        if self.reqs[best].end < n_samples {
            let ghost before = self.reqs@;
            let q = self.reqs.remove(best);
            assert(before == old(self)@);
            assert(is_first_due(old(self)@, best as int) && old(self)@[best as int] == q && q.end < n_samples
                && self@ == old(self)@.remove(best as int));
            assert(0 <= best < old(self)@.len());
            Some(q)
        } else {
            proof {
                assert forall|k: int| is_first_due(self.reqs@, k) implies self.reqs@[k].end >= n_samples by {
                    assert(self.reqs@[k].end <= self.reqs@[best as int].end);
                }
            }
            None
        }
    }
}

/// Whether a request given in seconds is served now, with its interleaved
/// samples `start..=end`, or later.
#[derive(Debug, PartialEq, Eq)]
pub enum Serve {
    Now { start: usize, end: usize },
    Later,
}

/// Serves the seconds `start..end` of a stream of `n_channels` channels at
/// `sample_rate` Hz once the `n_samples` decoded samples reach its last
/// interleaved sample `end * n_channels * sample_rate - 1`.
pub fn serve_seconds(start: usize, end: usize, n_channels: usize, sample_rate: usize, n_samples: usize) -> (r: Serve)
    requires
        1 <= end * n_channels * sample_rate <= usize::MAX,
        start * n_channels * sample_rate <= usize::MAX,
    ensures
        end * n_channels * sample_rate - 1 < n_samples ==> r == (Serve::Now {
            start: (start * n_channels * sample_rate) as usize,
            end: (end * n_channels * sample_rate - 1) as usize,
        }),
        end * n_channels * sample_rate - 1 >= n_samples ==> r == Serve::Later,
{
    assert(start * n_channels <= start * n_channels * sample_rate && end * n_channels <= end * n_channels
        * sample_rate) by (nonlinear_arith)
        requires
            1 <= end * n_channels * sample_rate,
    ;
    let start_i = start * n_channels * sample_rate;
    let end_i = end * n_channels * sample_rate - 1;
    if end_i < n_samples {
        Serve::Now { start: start_i, end: end_i }
    } else {
        Serve::Later
    }
}

/// The request to serve after a poll of the request channel: a request that
/// arrived replaces the one still waiting.
pub fn newest_request(waiting: Option<DecoderRequest>, arrived: Option<DecoderRequest>) -> (r: Option<DecoderRequest>)
    ensures
        r == match arrived {
            Some(a) => Some(a),
            None => waiting,
        },
{
    match arrived {
        Some(a) => Some(a),
        None => waiting,
    }
}

} // verus!
